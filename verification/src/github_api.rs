//! The two calls to the hosting service: what is sent, and what each answer
//! means.

use crate::credentials::Credentials;
use crate::custom_error::{CustomError, ErrorView, GitHubError, Reply};
use vstd::prelude::*;
use vstd::string::StringExecFns;

verus! {

/// The verb of a request.
#[derive(Debug, Clone, Copy, PartialEq, Eq, Structural)]
pub enum Method {
    Get,
    Post,
}

/// One header line of a request.
#[derive(Debug, Clone, PartialEq, Eq)]
pub struct Header {
    pub name: String,
    pub value: String,
}

/// A request to the hosting service, ready to be sent.
#[derive(Debug, Clone, PartialEq, Eq)]
pub struct HttpRequest {
    pub method: Method,
    pub url: String,
    pub headers: Vec<Header>,
    pub body: Option<String>,
}

/// The mathematical value of an [`HttpRequest`].
pub struct RequestView {
    pub method: Method,
    pub url: Seq<char>,
    pub headers: Seq<(Seq<char>, Seq<char>)>,
    pub body: Option<Seq<char>>,
}

impl View for Header {
    type V = (Seq<char>, Seq<char>);

    open spec fn view(&self) -> (Seq<char>, Seq<char>) {
        (self.name@, self.value@)
    }
}

impl View for HttpRequest {
    type V = RequestView;

    open spec fn view(&self) -> RequestView {
        RequestView {
            method: self.method,
            url: self.url@,
            headers: Seq::new(self.headers@.len(), |i: int| self.headers@[i]@),
            body: match self.body {
                Some(text) => Some(text@),
                None => None,
            },
        }
    }
}

/// The JSON string literal, quotes and escapes included, that `serde_json`
/// writes for a text.
pub uninterp spec fn json_string(text: Seq<char>) -> Seq<char>;

/// The endpoint that lists and creates the repositories of the caller.
pub open spec fn repos_endpoint() -> Seq<char> {
    "https://api.github.com/user/repos"@
}

/// The headers that every request carries: the identity as user agent, the
/// pinned API version, and the token as bearer.
pub open spec fn common_headers(identity: Seq<char>, token: Seq<char>) -> Seq<
    (Seq<char>, Seq<char>),
> {
    seq![
        ("User-Agent"@, identity),
        ("X-GitHub-Api-Version"@, "2022-11-28"@),
        ("Authorization"@, "Bearer "@ + token),
    ]
}

/// The JSON object of a create request, given the JSON literals of its three
/// texts. The members stand in the order of their names.
pub open spec fn body_frame(
    name_literal: Seq<char>,
    description_literal: Seq<char>,
    template_literal: Seq<char>,
    is_private: bool,
) -> Seq<char> {
    "{\"auto_init\":true,\"description\":"@ + description_literal
        + ",\"gitignore_template\":"@ + template_literal + ",\"name\":"@ + name_literal
        + ",\"private\":"@ + (if is_private {
        "true"@
    } else {
        "false"@
    }) + "}"@
}

/// The body of the request that creates a repository for a Rust project.
pub open spec fn create_body(name: Seq<char>, description: Seq<char>, is_private: bool) -> Seq<
    char,
> {
    body_frame(json_string(name), json_string(description), json_string("Rust"@), is_private)
}

/// The request that probes whether the credentials are accepted.
pub open spec fn probe_request(url: Seq<char>, identity: Seq<char>, token: Seq<char>) -> RequestView {
    RequestView {
        method: Method::Get,
        url,
        headers: common_headers(identity, token),
        body: None,
    }
}

/// The request that creates a repository.
pub open spec fn create_request(
    url: Seq<char>,
    identity: Seq<char>,
    token: Seq<char>,
    name: Seq<char>,
    description: Seq<char>,
    is_private: bool,
) -> RequestView {
    RequestView {
        method: Method::Post,
        url,
        headers: common_headers(identity, token).push(("Content-Type"@, "application/json"@)),
        body: Some(create_body(name, description, is_private)),
    }
}

/// What the answer to an access probe means: 200 accepts the credentials,
/// 401, 403 and 404 refuse them, anything else says nothing of them.
pub open spec fn probe_verdict(reply: Reply) -> Result<(), GitHubError> {
    match reply {
        Reply::Status(200) => Ok(()),
        Reply::Status(401) | Reply::Status(403) | Reply::Status(404) => Err(
            GitHubError::Authentication,
        ),
        _ => Err(GitHubError::Unexpected(reply)),
    }
}

/// What the answer to a create request means: 201 created, 422 the name is
/// taken, anything else a failure.
pub open spec fn create_verdict(reply: Reply) -> Result<(), GitHubError> {
    match reply {
        Reply::Status(201) => Ok(()),
        Reply::Status(422) => Err(GitHubError::AlreadyCreated),
        _ => Err(GitHubError::RepoCreate),
    }
}

/// Classifies the answer to an access probe.
pub fn classify_probe(reply: Reply) -> (verdict: Result<(), GitHubError>)
    ensures
        verdict == probe_verdict(reply),
        verdict is Ok <==> reply == Reply::Status(200),
        verdict == Err::<(), GitHubError>(GitHubError::Authentication) <==> (reply == Reply::Status(
            401,
        ) || reply == Reply::Status(403) || reply == Reply::Status(404)),
{
    match reply {
        Reply::Status(status) => {
            if status == 200 {
                Ok(())
            } else if status == 401 || status == 403 || status == 404 {
                Err(GitHubError::Authentication)
            } else {
                Err(GitHubError::Unexpected(reply))
            }
        },
        Reply::Unreachable => Err(GitHubError::Unexpected(reply)),
    }
}

/// Classifies the answer to a create request.
pub fn classify_create(reply: Reply) -> (verdict: Result<(), GitHubError>)
    ensures
        verdict == create_verdict(reply),
        verdict is Ok <==> reply == Reply::Status(201),
        verdict == Err::<(), GitHubError>(GitHubError::AlreadyCreated) <==> reply == Reply::Status(
            422,
        ),
        verdict == Err::<(), GitHubError>(GitHubError::RepoCreate) <==> (reply != Reply::Status(201)
            && reply != Reply::Status(422)),
{
    match reply {
        Reply::Status(status) => {
            if status == 201 {
                Ok(())
            } else if status == 422 {
                Err(GitHubError::AlreadyCreated)
            } else {
                Err(GitHubError::RepoCreate)
            }
        },
        Reply::Unreachable => Err(GitHubError::RepoCreate),
    }
}

/// Writes a text as a JSON string literal by formatting a
/// `serde_json::Value::String` with its `Display` impl, which serialises the
/// value in compact form. Nothing is proved of the escaping: the result is
/// only given its name.
#[verifier::external_body]
fn encode_json_string(text: &str) -> (literal: String)
    ensures
        literal@ == json_string(text@),
{
    serde_json::Value::String(text.to_string()).to_string()
}

/// Puts the JSON object of a create request together from the JSON literals
/// of its three texts.
pub fn frame_create_body(
    name_literal: &str,
    description_literal: &str,
    template_literal: &str,
    is_private: bool,
) -> (body: String)
    ensures
        body@ == body_frame(
            name_literal@,
            description_literal@,
            template_literal@,
            is_private,
        ),
{
    let mut body = String::from_str("{\"auto_init\":true,\"description\":");
    body.append(description_literal);
    body.append(",\"gitignore_template\":");
    body.append(template_literal);
    body.append(",\"name\":");
    body.append(name_literal);
    body.append(",\"private\":");
    if is_private {
        body.append("true");
    } else {
        body.append("false");
    }
    body.append("}");
    body
}

fn make_header(name: &str, value: String) -> (header: Header)
    ensures
        header@ == (name@, value@),
{
    Header { name: String::from_str(name), value }
}

/// Holds the credentials of the session and the endpoint they are used on.
#[derive(Debug, Clone, PartialEq, Eq)]
pub struct GitHubController {
    username: String,
    personal_access_token: String,
    url: String,
}

impl GitHubController {
    /// The identity that requests are made under.
    pub closed spec fn username(&self) -> Seq<char> {
        self.username@
    }

    /// The secret token that requests are authorised with.
    pub closed spec fn token(&self) -> Seq<char> {
        self.personal_access_token@
    }

    /// The endpoint that requests go to.
    pub closed spec fn url(&self) -> Seq<char> {
        self.url@
    }

    /// A controller for the service's endpoint, with empty credentials.
    pub fn new() -> (controller: Self)
        ensures
            controller.username() == Seq::<char>::empty(),
            controller.token() == Seq::<char>::empty(),
            controller.url() == repos_endpoint(),
    {
        GitHubController {
            username: String::new(),
            personal_access_token: String::new(),
            url: String::from_str("https://api.github.com/user/repos"),
        }
    }

    pub fn set_username(&mut self, username: String)
        ensures
            final(self).username() == username@,
            final(self).token() == old(self).token(),
            final(self).url() == old(self).url(),
    {
        self.username = username
    }

    pub fn get_username(&self) -> (username: &str)
        ensures
            username@ == self.username(),
    {
        self.username.as_str()
    }

    pub fn set_personal_access_token(&mut self, pat: String)
        ensures
            final(self).token() == pat@,
            final(self).username() == old(self).username(),
            final(self).url() == old(self).url(),
    {
        self.personal_access_token = pat
    }

    fn common_headers(&self) -> (headers: Vec<Header>)
        ensures
            Seq::new(headers@.len(), |i: int| headers@[i]@) == common_headers(
                self.username(),
                self.token(),
            ),
    {
        let mut bearer = String::from_str("Bearer ");
        bearer.append(self.personal_access_token.as_str());
        let mut headers: Vec<Header> = Vec::new();
        headers.push(make_header("User-Agent", self.username.clone()));
        headers.push(make_header("X-GitHub-Api-Version", String::from_str("2022-11-28")));
        headers.push(make_header("Authorization", bearer));
        assert(Seq::new(headers@.len(), |i: int| headers@[i]@) =~= common_headers(
            self.username(),
            self.token(),
        ));
        headers
    }

    /// The request that probes whether the held credentials are accepted.
    pub fn probe_request(&self) -> (request: HttpRequest)
        ensures
            request@ == probe_request(self.url(), self.username(), self.token()),
    {
        HttpRequest {
            method: Method::Get,
            url: self.url.clone(),
            headers: self.common_headers(),
            body: None,
        }
    }

    /// The request that creates a repository for a Rust project under the
    /// held identity. The service is asked to make the first commit itself.
    pub fn create_request(&self, name: &str, description: &str, private: bool) -> (request:
        HttpRequest)
        ensures
            request@ == create_request(
                self.url(),
                self.username(),
                self.token(),
                name@,
                description@,
                private,
            ),
    {
        let name_literal = encode_json_string(name);
        let description_literal = encode_json_string(description);
        let template_literal = encode_json_string("Rust");
        let body = frame_create_body(
            name_literal.as_str(),
            description_literal.as_str(),
            template_literal.as_str(),
            private,
        );
        let mut headers = self.common_headers();
        let ghost before = Seq::new(headers@.len(), |i: int| headers@[i]@);
        headers.push(make_header("Content-Type", String::from_str("application/json")));
        assert(Seq::new(headers@.len(), |i: int| headers@[i]@) =~= before.push(
            ("Content-Type"@, "application/json"@),
        ));
        HttpRequest { method: Method::Post, url: self.url.clone(), headers, body: Some(body) }
    }

    /// Says whether the answer to a create request means that the repository
    /// now exists: 201 does; 422 means the name is taken; any other answer,
    /// and no answer, is a failure to create.
    pub fn generate_repository(&self, reply: Reply) -> (outcome: Result<(), CustomError>)
        ensures
            outcome is Ok <==> reply == Reply::Status(201),
            match outcome {
                Ok(_) => true,
                Err(err) => err@ == ErrorView::GitHubErr(
                    if reply == Reply::Status(422) {
                        GitHubError::AlreadyCreated
                    } else {
                        GitHubError::RepoCreate
                    },
                ),
            },
    {
        match classify_create(reply) {
            Ok(()) => Ok(()),
            Err(err) => Err(CustomError::GitHubErr(err)),
        }
    }

    /// Says whether the answer to an access probe accepts the credentials:
    /// 200 does; 401, 403 and 404 refuse them; any other answer, and no
    /// answer, is reported as unexpected together with what came back.
    pub fn test_github_access(&self, reply: Reply) -> (outcome: Result<(), CustomError>)
        ensures
            outcome is Ok <==> reply == Reply::Status(200),
            match outcome {
                Ok(_) => true,
                Err(err) => err@ == ErrorView::GitHubErr(
                    if reply == Reply::Status(401) || reply == Reply::Status(403) || reply
                        == Reply::Status(404) {
                        GitHubError::Authentication
                    } else {
                        GitHubError::Unexpected(reply)
                    },
                ),
            },
    {
        match classify_probe(reply) {
            Ok(()) => Ok(()),
            Err(err) => Err(CustomError::GitHubErr(err)),
        }
    }

    /// The credentials as the credential file keeps them.
    pub fn credentials(&self) -> (credentials: Credentials)
        ensures
            credentials.identity@ == self.username(),
            credentials.secret_token@ == self.token(),
    {
        Credentials {
            identity: self.username.clone(),
            secret_token: self.personal_access_token.clone(),
        }
    }

    /// The address that the created repository is cloned from.
    pub fn clone_url(&self, name: &str) -> (address: String)
        ensures
            address@ == clone_address(self.username(), name@),
    {
        let mut address = String::from_str("git@github.com:");
        address.append(self.username.as_str());
        address.append("/");
        address.append(name);
        address.append(".git");
        address
    }
}

/// The address of a repository for a clone over SSH.
pub open spec fn clone_address(identity: Seq<char>, name: Seq<char>) -> Seq<char> {
    "git@github.com:"@ + identity + "/"@ + name + ".git"@
}

} // verus!
