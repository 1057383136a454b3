//! The failures that a provisioning session reports.

use vstd::prelude::*;
use vstd::string::StringExecFns;

verus! {

/// What a request to the hosting service came back with.
#[derive(Debug, Clone, Copy, PartialEq, Eq, Structural)]
pub enum Reply {
    /// The service answered with this HTTP status.
    Status(u16),
    /// No answer arrived: the transport failed.
    Unreachable,
}

/// A failure on the side of the hosting service or of version control.
#[derive(Debug, Clone, Copy, PartialEq, Eq, Structural)]
pub enum GitHubError {
    /// The service refused the credentials.
    Authentication,
    /// The repository could not be created.
    RepoCreate,
    /// Staging or committing the scaffold failed.
    InitialCommit,
    /// A repository of that name already exists under this identity.
    AlreadyCreated,
    /// The access probe ended in a way that says nothing of the credentials.
    Unexpected(Reply),
}

/// Every failure that a session can end in.
#[derive(Debug, Clone, PartialEq, Eq)]
pub enum CustomError {
    /// A local directory or the project initialisation failed.
    FilesystemErr(String),
    /// The hosting service or version control failed.
    GitHubErr(GitHubError),
    /// The credential file holds fewer than two lines.
    ConfigErr,
}

/// The mathematical value of a [`CustomError`].
pub enum ErrorView {
    FilesystemErr(Seq<char>),
    GitHubErr(GitHubError),
    ConfigErr,
}

impl View for CustomError {
    type V = ErrorView;

    open spec fn view(&self) -> ErrorView {
        match self {
            CustomError::FilesystemErr(text) => ErrorView::FilesystemErr(text@),
            CustomError::GitHubErr(err) => ErrorView::GitHubErr(*err),
            CustomError::ConfigErr => ErrorView::ConfigErr,
        }
    }
}

impl ErrorView {
    /// The sentence that describes the failure to the operator.
    pub open spec fn text(self) -> Seq<char> {
        match self {
            ErrorView::FilesystemErr(text) => text,
            ErrorView::GitHubErr(GitHubError::Authentication) => "Authentication failed"@,
            ErrorView::GitHubErr(GitHubError::RepoCreate) => "Couldn't create GitHub repo"@,
            ErrorView::GitHubErr(GitHubError::InitialCommit) => "Something went wrong during commit"@,
            ErrorView::GitHubErr(GitHubError::AlreadyCreated) => "Repo already exists"@,
            ErrorView::GitHubErr(GitHubError::Unexpected(_)) => "Unexpected answer from GitHub"@,
            ErrorView::ConfigErr => "Malformed credentials file"@,
        }
    }
}

impl CustomError {
    /// The sentence that describes the failure to the operator, without any
    /// severity tag in front of it.
    pub fn message(&self) -> (text: String)
        ensures
            text@ == self@.text(),
    {
        match self {
            CustomError::FilesystemErr(text) => text.clone(),
            CustomError::GitHubErr(GitHubError::Authentication) => String::from_str(
                "Authentication failed",
            ),
            CustomError::GitHubErr(GitHubError::RepoCreate) => String::from_str(
                "Couldn't create GitHub repo",
            ),
            CustomError::GitHubErr(GitHubError::InitialCommit) => String::from_str(
                "Something went wrong during commit",
            ),
            CustomError::GitHubErr(GitHubError::AlreadyCreated) => String::from_str(
                "Repo already exists",
            ),
            CustomError::GitHubErr(GitHubError::Unexpected(_)) => String::from_str(
                "Unexpected answer from GitHub",
            ),
            CustomError::ConfigErr => String::from_str("Malformed credentials file"),
        }
    }
}

} // verus!
