//! Provisioning of a new project: stored credentials, the two calls to the
//! hosting service, and the state machine that sequences one attempt.
//!
//! The library decides and computes; its caller performs the file access, the
//! network calls and the subprocesses that the state machine asks for.

pub mod credentials;
pub mod custom_error;
pub mod github_api;
pub mod session;
pub mod session_laws;
