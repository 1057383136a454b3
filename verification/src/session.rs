//! One provisioning session as a state machine. The session never acts by
//! itself: in every phase it names the one action it waits for, and it moves
//! on when it is told how that action ended.

use crate::credentials::{file_text, parsed, Credentials};
use crate::custom_error::{CustomError, ErrorView, GitHubError, Reply};
use crate::github_api::{
    clone_address, create_request, create_verdict, probe_request, probe_verdict, GitHubController,
    HttpRequest, RequestView,
};
use crate::session_laws::consistent;
use vstd::prelude::*;
use vstd::string::StringExecFns;

verus! {

/// What the operator wants created.
#[derive(Debug, Clone, PartialEq, Eq)]
pub struct RemoteRepositorySpec {
    pub name: String,
    pub description: String,
    pub is_private: bool,
}

impl RemoteRepositorySpec {
    /// What the operator asked for, from the three answers typed: the
    /// repository is private only where the second answer means yes.
    pub fn from_answers(name: String, private_choice: char, description: String) -> (asked: Self)
        ensures
            asked.name@ == name@,
            asked.description@ == description@,
            asked.is_private == is_yes(private_choice),
    {
        RemoteRepositorySpec { name, description, is_private: affirmative(private_choice) }
    }
}

/// What the operator picks between two sessions.
#[derive(Debug, Clone, Copy, PartialEq, Eq, Structural)]
pub enum MenuChoice {
    Quit,
    NewProject,
    ChangeCredentials,
    /// Any other number: the menu is shown again.
    Unknown,
}

impl MenuChoice {
    /// Reads the number typed at the menu: 0 quits, 1 sets a project up, 2
    /// changes the credentials.
    pub fn from_number(number: u8) -> (choice: Self)
        ensures
            choice == match number {
                0 => MenuChoice::Quit,
                1 => MenuChoice::NewProject,
                2 => MenuChoice::ChangeCredentials,
                _ => MenuChoice::Unknown,
            },
    {
        if number == 0 {
            MenuChoice::Quit
        } else if number == 1 {
            MenuChoice::NewProject
        } else if number == 2 {
            MenuChoice::ChangeCredentials
        } else {
            MenuChoice::Unknown
        }
    }
}

/// How the remote side of an attempt went.
#[derive(Debug, Clone, Copy, PartialEq, Eq, Structural)]
pub enum ProvisioningResult {
    RemoteCreated,
    RemoteAlreadyExists,
    RemoteCreateFailed,
    LocalOnlyFallback,
}

/// What is known of the credentials in the current phase.
#[derive(Debug, Clone, Copy, PartialEq, Eq, Structural)]
pub enum AuthState {
    Unverified,
    Verified,
    Rejected,
}

/// The three steps of the first commit.
#[derive(Debug, Clone, Copy, PartialEq, Eq, Structural)]
pub enum CommitStep {
    Stage,
    Commit,
    Push,
}

/// Where a session stands.
#[derive(Debug, Clone, Copy, PartialEq, Eq, Structural)]
pub enum Phase {
    Idle,
    CredentialsLoading,
    /// The operator is asked for an identity and a token.
    CredentialsSetup,
    /// The credentials that the operator gave are being written.
    CredentialsSaving,
    Authenticating,
    ReauthPrompt,
    CollectingSpec,
    CreatingRemote,
    OfferLocalFallback,
    Cloning,
    Scaffolding,
    Committing(CommitStep),
    Done,
}

/// The two gates at which the operator decides.
#[derive(Debug, Clone, Copy, PartialEq, Eq, Structural)]
pub enum Question {
    /// Enter new credentials, or end the session?
    ReenterCredentials,
    /// Go on with a local project only, or give the attempt up?
    LocalFallback,
}

/// How a subprocess ended.
#[derive(Debug, Clone, Copy, PartialEq, Eq, Structural)]
pub enum ProcessExit {
    /// It ran and left this exit status.
    Status(i32),
    /// It did not run: its directory could not be entered, or the program
    /// could not be started or waited for.
    NotRun,
}

/// A subprocess to run.
#[derive(Debug, Clone, PartialEq, Eq)]
pub struct Invocation {
    pub program: String,
    pub args: Vec<String>,
    /// The directory to run it in; `None` is the current one.
    pub directory: Option<String>,
}

/// What the session waits for.
#[derive(Debug, Clone, PartialEq, Eq)]
pub enum Action {
    /// Tell the session to begin.
    AwaitStart,
    /// Read the credential file, or find it absent.
    ReadCredentialFile,
    /// Ask the operator for an identity and a token.
    AskCredentials,
    /// Overwrite the credential file with this text.
    WriteCredentialFile(String),
    /// Send this request.
    Send(HttpRequest),
    /// Put this question to the operator.
    Confirm(Question),
    /// Ask the operator for the repository's name, visibility and description.
    AskSpec,
    /// Run this subprocess.
    Run(Invocation),
    /// Nothing: the session is over and its outcome can be read.
    Finish,
}

/// How the awaited action ended.
#[derive(Debug, Clone, PartialEq, Eq)]
pub enum Event {
    Begin,
    /// The text of the credential file, or `None` where there is no file.
    CredentialFile(Option<String>),
    CredentialsEntered(Credentials),
    /// Whether the credential file was written.
    CredentialsSaved(bool),
    Answered(Reply),
    /// The character that the operator typed at a gate.
    Chosen(char),
    SpecEntered(RemoteRepositorySpec),
    Exited(ProcessExit),
}

/// The mathematical value of an [`Invocation`].
pub struct InvocationView {
    pub program: Seq<char>,
    pub args: Seq<Seq<char>>,
    pub directory: Option<Seq<char>>,
}

/// The mathematical value of an [`Action`].
pub enum ActionView {
    AwaitStart,
    ReadCredentialFile,
    AskCredentials,
    WriteCredentialFile(Seq<char>),
    Send(RequestView),
    Confirm(Question),
    AskSpec,
    Run(InvocationView),
    Finish,
}

/// The mathematical value of an [`Event`].
pub enum EventView {
    Begin,
    CredentialFile(Option<Seq<char>>),
    CredentialsEntered(Seq<char>, Seq<char>),
    CredentialsSaved(bool),
    Answered(Reply),
    Chosen(char),
    SpecEntered(Seq<char>, Seq<char>, bool),
    Exited(ProcessExit),
}

/// The mathematical value of a [`Session`].
pub struct SessionView {
    pub phase: Phase,
    pub url: Seq<char>,
    pub identity: Seq<char>,
    pub token: Seq<char>,
    pub name: Seq<char>,
    pub description: Seq<char>,
    pub is_private: bool,
    /// The one offer to enter new credentials was taken.
    pub reentered: bool,
    /// How the remote side of the attempt went, once it is known.
    pub remote: Option<ProvisioningResult>,
    /// Whether the push of the first commit failed.
    pub push_failed: bool,
    /// How the session ended, once it has.
    pub verdict: Option<Result<ProvisioningResult, ErrorView>>,
}

/// The texts that a list of strings holds.
pub open spec fn texts(list: Seq<String>) -> Seq<Seq<char>> {
    Seq::new(list.len(), |i: int| list[i]@)
}

/// The mathematical value of a session's verdict.
pub open spec fn verdict_view(verdict: Option<Result<ProvisioningResult, CustomError>>) -> Option<
    Result<ProvisioningResult, ErrorView>,
> {
    match verdict {
        Some(Ok(result)) => Some(Ok(result)),
        Some(Err(err)) => Some(Err(err@)),
        None => None,
    }
}

impl View for Invocation {
    type V = InvocationView;

    open spec fn view(&self) -> InvocationView {
        InvocationView {
            program: self.program@,
            args: texts(self.args@),
            directory: match self.directory {
                Some(path) => Some(path@),
                None => None,
            },
        }
    }
}

impl View for Action {
    type V = ActionView;

    open spec fn view(&self) -> ActionView {
        match self {
            Action::AwaitStart => ActionView::AwaitStart,
            Action::ReadCredentialFile => ActionView::ReadCredentialFile,
            Action::AskCredentials => ActionView::AskCredentials,
            Action::WriteCredentialFile(text) => ActionView::WriteCredentialFile(text@),
            Action::Send(request) => ActionView::Send(request@),
            Action::Confirm(question) => ActionView::Confirm(*question),
            Action::AskSpec => ActionView::AskSpec,
            Action::Run(invocation) => ActionView::Run(invocation@),
            Action::Finish => ActionView::Finish,
        }
    }
}

impl View for Event {
    type V = EventView;

    open spec fn view(&self) -> EventView {
        match self {
            Event::Begin => EventView::Begin,
            Event::CredentialFile(Some(text)) => EventView::CredentialFile(Some(text@)),
            Event::CredentialFile(None) => EventView::CredentialFile(None),
            Event::CredentialsEntered(credentials) => EventView::CredentialsEntered(
                credentials.identity@,
                credentials.secret_token@,
            ),
            Event::CredentialsSaved(written) => EventView::CredentialsSaved(*written),
            Event::Answered(reply) => EventView::Answered(*reply),
            Event::Chosen(choice) => EventView::Chosen(*choice),
            Event::SpecEntered(asked) => EventView::SpecEntered(
                asked.name@,
                asked.description@,
                asked.is_private,
            ),
            Event::Exited(exit) => EventView::Exited(*exit),
        }
    }
}

/// Whether a typed character means yes: `y` in either case does, anything
/// else means no.
pub open spec fn is_yes(choice: char) -> bool {
    choice == 'y' || choice == 'Y'
}

/// Decides whether a typed character means yes.
pub fn affirmative(choice: char) -> (yes: bool)
    ensures
        yes == is_yes(choice),
{
    choice == 'y' || choice == 'Y'
}

impl SessionView {
    /// The session, ended with this verdict.
    pub open spec fn ended(self, verdict: Result<ProvisioningResult, ErrorView>) -> SessionView {
        SessionView { phase: Phase::Done, verdict: Some(verdict), ..self }
    }

    /// The session, ended with this failure of the service or of version
    /// control.
    pub open spec fn failed(self, err: GitHubError) -> SessionView {
        self.ended(Err(ErrorView::GitHubErr(err)))
    }

    /// The session, ended with this local failure.
    pub open spec fn failed_locally(self, text: Seq<char>) -> SessionView {
        self.ended(Err(ErrorView::FilesystemErr(text)))
    }

    /// The session in another phase.
    pub open spec fn at(self, phase: Phase) -> SessionView {
        SessionView { phase, ..self }
    }

    /// The session in another phase, with this known of the remote side.
    pub open spec fn with_remote(self, phase: Phase, remote: ProvisioningResult) -> SessionView {
        SessionView { phase, remote: Some(remote), ..self }
    }

    /// Whether the commit phase belongs to this attempt: only where the
    /// remote repository was created.
    pub open spec fn commits(self) -> bool {
        self.remote == Some(ProvisioningResult::RemoteCreated)
    }
}

/// The session after an event. An event that the phase does not wait for
/// changes nothing.
pub open spec fn next(s: SessionView, event: EventView) -> SessionView {
    match (s.phase, event) {
        (Phase::Idle, EventView::Begin) => s.at(Phase::CredentialsLoading),
        (Phase::CredentialsLoading, EventView::CredentialFile(None)) => s.at(
            Phase::CredentialsSetup,
        ),
        (Phase::CredentialsLoading, EventView::CredentialFile(Some(content))) => match parsed(
            content,
        ) {
            Some((identity, token)) => SessionView {
                phase: Phase::Authenticating,
                identity,
                token,
                ..s
            },
            None => s.ended(Err(ErrorView::ConfigErr)),
        },
        (Phase::CredentialsSetup, EventView::CredentialsEntered(identity, token)) => SessionView {
            phase: Phase::CredentialsSaving,
            identity,
            token,
            ..s
        },
        (Phase::CredentialsSaving, EventView::CredentialsSaved(written)) => if written {
            s.at(Phase::Authenticating)
        } else {
            s.failed_locally("Couldn't write credentials file"@)
        },
        (Phase::Authenticating, EventView::Answered(reply)) => match probe_verdict(reply) {
            Ok(_) => s.at(Phase::CollectingSpec),
            Err(GitHubError::Authentication) => if s.reentered {
                s.failed(GitHubError::Authentication)
            } else {
                s.at(Phase::ReauthPrompt)
            },
            Err(err) => s.failed(err),
        },
        (Phase::ReauthPrompt, EventView::Chosen(choice)) => if is_yes(choice) {
            SessionView { phase: Phase::CredentialsSetup, reentered: true, ..s }
        } else {
            s.failed(GitHubError::Authentication)
        },
        (Phase::CollectingSpec, EventView::SpecEntered(name, description, is_private)) => SessionView {
            phase: Phase::CreatingRemote,
            name,
            description,
            is_private,
            ..s
        },
        (Phase::CreatingRemote, EventView::Answered(reply)) => match create_verdict(reply) {
            Ok(_) => s.with_remote(Phase::Cloning, ProvisioningResult::RemoteCreated),
            Err(GitHubError::AlreadyCreated) => s.with_remote(
                Phase::OfferLocalFallback,
                ProvisioningResult::RemoteAlreadyExists,
            ),
            Err(_) => s.with_remote(
                Phase::OfferLocalFallback,
                ProvisioningResult::RemoteCreateFailed,
            ),
        },
        (Phase::OfferLocalFallback, EventView::Chosen(choice)) => if is_yes(choice) {
            s.with_remote(Phase::Scaffolding, ProvisioningResult::LocalOnlyFallback)
        } else if s.remote == Some(ProvisioningResult::RemoteAlreadyExists) {
            s.failed(GitHubError::AlreadyCreated)
        } else {
            s.failed(GitHubError::RepoCreate)
        },
        (Phase::Cloning, EventView::Exited(exit)) => if exit == ProcessExit::Status(0) {
            s.at(Phase::Scaffolding)
        } else {
            s.failed_locally("Couldn't clone repository"@)
        },
        (Phase::Scaffolding, EventView::Exited(exit)) => match exit {
            ProcessExit::Status(0) => if s.commits() {
                s.at(Phase::Committing(CommitStep::Stage))
            } else {
                s.ended(Ok(ProvisioningResult::LocalOnlyFallback))
            },
            ProcessExit::Status(_) => s.failed_locally("Couldn't initialize project"@),
            ProcessExit::NotRun => s.failed_locally("Couldn't open directory"@),
        },
        (Phase::Committing(CommitStep::Stage), EventView::Exited(exit)) => if exit
            == ProcessExit::Status(0) {
            s.at(Phase::Committing(CommitStep::Commit))
        } else {
            s.failed(GitHubError::InitialCommit)
        },
        (Phase::Committing(CommitStep::Commit), EventView::Exited(exit)) => if exit
            == ProcessExit::Status(0) {
            s.at(Phase::Committing(CommitStep::Push))
        } else {
            s.failed(GitHubError::InitialCommit)
        },
        (Phase::Committing(CommitStep::Push), EventView::Exited(exit)) => SessionView {
            push_failed: exit != ProcessExit::Status(0),
            ..s.ended(Ok(ProvisioningResult::RemoteCreated))
        },
        _ => s,
    }
}

/// A `git` subprocess inside the project's directory.
pub open spec fn git_in_project(s: SessionView, args: Seq<Seq<char>>) -> ActionView {
    ActionView::Run(InvocationView { program: "git"@, args, directory: Some(s.name) })
}

/// The action that a session waits for.
pub open spec fn pending(s: SessionView) -> ActionView {
    match s.phase {
        Phase::Idle => ActionView::AwaitStart,
        Phase::CredentialsLoading => ActionView::ReadCredentialFile,
        Phase::CredentialsSetup => ActionView::AskCredentials,
        Phase::CredentialsSaving => ActionView::WriteCredentialFile(
            file_text(s.identity, s.token),
        ),
        Phase::Authenticating => ActionView::Send(probe_request(s.url, s.identity, s.token)),
        Phase::ReauthPrompt => ActionView::Confirm(Question::ReenterCredentials),
        Phase::CollectingSpec => ActionView::AskSpec,
        Phase::CreatingRemote => ActionView::Send(
            create_request(s.url, s.identity, s.token, s.name, s.description, s.is_private),
        ),
        Phase::OfferLocalFallback => ActionView::Confirm(Question::LocalFallback),
        Phase::Cloning => ActionView::Run(
            InvocationView {
                program: "git"@,
                args: seq!["clone"@, clone_address(s.identity, s.name)],
                directory: None,
            },
        ),
        Phase::Scaffolding => if s.commits() {
            ActionView::Run(
                InvocationView { program: "cargo"@, args: seq!["init"@], directory: Some(s.name) },
            )
        } else {
            ActionView::Run(
                InvocationView { program: "cargo"@, args: seq!["init"@, s.name], directory: None },
            )
        },
        Phase::Committing(CommitStep::Stage) => git_in_project(s, seq!["add"@, "."@]),
        Phase::Committing(CommitStep::Commit) => git_in_project(
            s,
            seq!["commit"@, "-am"@, "Initial commit"@],
        ),
        Phase::Committing(CommitStep::Push) => git_in_project(s, seq!["push"@]),
        Phase::Done => ActionView::Finish,
    }
}

/// What is known of the credentials: they are verified from the moment the
/// probe accepts them, rejected while the probe's refusal stands, and
/// unverified otherwise.
pub open spec fn auth_state(s: SessionView) -> AuthState {
    if s.phase == Phase::CollectingSpec || s.phase == Phase::CreatingRemote || s.remote is Some {
        AuthState::Verified
    } else if s.phase == Phase::ReauthPrompt || s.verdict == Some(
        Err::<ProvisioningResult, ErrorView>(ErrorView::GitHubErr(GitHubError::Authentication)),
    ) {
        AuthState::Rejected
    } else {
        AuthState::Unverified
    }
}

/// A provisioning session: the credentials it holds, what the operator asked
/// for, and how far the attempt has come.
#[derive(Debug)]
pub struct Session {
    phase: Phase,
    controller: GitHubController,
    repository: RemoteRepositorySpec,
    reentered: bool,
    remote: Option<ProvisioningResult>,
    push_failed: bool,
    verdict: Option<Result<ProvisioningResult, CustomError>>,
}

impl View for Session {
    type V = SessionView;

    closed spec fn view(&self) -> SessionView {
        SessionView {
            phase: self.phase,
            url: self.controller.url(),
            identity: self.controller.username(),
            token: self.controller.token(),
            name: self.repository.name@,
            description: self.repository.description@,
            is_private: self.repository.is_private,
            reentered: self.reentered,
            remote: self.remote,
            push_failed: self.push_failed,
            verdict: verdict_view(self.verdict),
        }
    }
}

/// A session in a phase, around a controller, with nothing yet asked for
/// and nothing yet known of the remote side.
pub open spec fn fresh(
    phase: Phase,
    url: Seq<char>,
    identity: Seq<char>,
    token: Seq<char>,
    reentered: bool,
) -> SessionView {
    SessionView {
        phase,
        url,
        identity,
        token,
        name: Seq::empty(),
        description: Seq::empty(),
        is_private: false,
        reentered,
        remote: None,
        push_failed: false,
        verdict: None,
    }
}

fn push_word(list: &mut Vec<String>, word: &str)
    ensures
        texts(final(list)@) == texts(old(list)@).push(word@),
{
    list.push(String::from_str(word));
    assert(texts(list@) =~= texts(old(list)@).push(word@));
}

fn run(program: &str, args: Vec<String>, directory: Option<String>) -> (action: Action)
    ensures
        action@ == ActionView::Run(
            InvocationView {
                program: program@,
                args: texts(args@),
                directory: match directory {
                    Some(path) => Some(path@),
                    None => None,
                },
            },
        ),
{
    Action::Run(Invocation { program: String::from_str(program), args, directory })
}

impl Session {
    fn around(phase: Phase, controller: GitHubController, reentered: bool) -> (session: Self)
        ensures
            session@ == fresh(
                phase,
                controller.url(),
                controller.username(),
                controller.token(),
                reentered,
            ),
    {
        Session {
            phase,
            controller,
            repository: RemoteRepositorySpec {
                name: String::new(),
                description: String::new(),
                is_private: false,
            },
            reentered,
            remote: None,
            push_failed: false,
            verdict: None,
        }
    }

    /// A session that has not begun, with empty credentials.
    pub fn new() -> (session: Self)
        ensures
            session@ == fresh(
                Phase::Idle,
                crate::github_api::repos_endpoint(),
                Seq::empty(),
                Seq::empty(),
                false,
            ),
            consistent(session@),
    {
        Session::around(Phase::Idle, GitHubController::new(), false)
    }

    /// A further attempt with credentials that an earlier session of this
    /// run has verified: it begins by collecting what to create.
    pub fn resume(controller: GitHubController) -> (session: Self)
        ensures
            session@ == fresh(
                Phase::CollectingSpec,
                controller.url(),
                controller.username(),
                controller.token(),
                false,
            ),
            consistent(session@),
    {
        Session::around(Phase::CollectingSpec, controller, false)
    }

    /// A session that begins by asking the operator for new credentials.
    /// Should the probe refuse them, no second entry is offered.
    pub fn change_credentials(controller: GitHubController) -> (session: Self)
        ensures
            session@ == fresh(
                Phase::CredentialsSetup,
                controller.url(),
                controller.username(),
                controller.token(),
                true,
            ),
            consistent(session@),
    {
        Session::around(Phase::CredentialsSetup, controller, true)
    }

    pub fn phase(&self) -> (phase: Phase)
        ensures
            phase == self@.phase,
    {
        self.phase
    }

    /// The credentials that the session holds.
    pub fn controller(&self) -> (controller: &GitHubController)
        ensures
            controller.url() == self@.url,
            controller.username() == self@.identity,
            controller.token() == self@.token,
    {
        &self.controller
    }

    /// Gives the session up for the credentials it holds.
    pub fn into_controller(self) -> (controller: GitHubController)
        ensures
            controller.url() == self@.url,
            controller.username() == self@.identity,
            controller.token() == self@.token,
    {
        self.controller
    }

    /// What the operator asked for; empty until it was collected.
    pub fn repository(&self) -> (asked: &RemoteRepositorySpec)
        ensures
            asked.name@ == self@.name,
            asked.description@ == self@.description,
            asked.is_private == self@.is_private,
    {
        &self.repository
    }

    /// How the remote side of the attempt went: `None` until the create
    /// request was answered.
    pub fn remote(&self) -> (remote: Option<ProvisioningResult>)
        ensures
            remote == self@.remote,
    {
        self.remote
    }

    /// How the session ended: `None` while it has not.
    pub fn outcome(&self) -> (verdict: &Option<Result<ProvisioningResult, CustomError>>)
        ensures
            verdict_view(*verdict) == self@.verdict,
    {
        &self.verdict
    }

    /// Whether the push of the first commit failed. The session still ends
    /// well then: the repository and the local history exist.
    pub fn push_failed(&self) -> (failed: bool)
        ensures
            failed == self@.push_failed,
    {
        self.push_failed
    }

    /// What is known of the credentials in the current phase.
    pub fn auth_state(&self) -> (state: AuthState)
        ensures
            state == auth_state(self@),
    {
        let verified = match self.phase {
            Phase::CollectingSpec | Phase::CreatingRemote => true,
            _ => self.remote.is_some(),
        };
        let rejected = match self.phase {
            Phase::ReauthPrompt => true,
            _ => match &self.verdict {
                Some(Err(CustomError::GitHubErr(GitHubError::Authentication))) => true,
                _ => false,
            },
        };
        if verified {
            AuthState::Verified
        } else if rejected {
            AuthState::Rejected
        } else {
            AuthState::Unverified
        }
    }

    fn end(&mut self, verdict: Result<ProvisioningResult, CustomError>)
        ensures
            final(self)@ == old(self)@.ended(
                match verdict {
                    Ok(result) => Ok(result),
                    Err(err) => Err(err@),
                },
            ),
    {
        self.phase = Phase::Done;
        self.verdict = Some(verdict);
    }

    fn fail(&mut self, err: GitHubError)
        ensures
            final(self)@ == old(self)@.failed(err),
    {
        self.end(Err(CustomError::GitHubErr(err)));
    }

    fn fail_locally(&mut self, text: &str)
        ensures
            final(self)@ == old(self)@.failed_locally(text@),
    {
        self.end(Err(CustomError::FilesystemErr(String::from_str(text))));
    }

    fn hold(&mut self, credentials: Credentials, phase: Phase)
        ensures
            final(self)@ == (SessionView {
                phase,
                identity: credentials.identity@,
                token: credentials.secret_token@,
                ..old(self)@
            }),
    {
        self.controller.set_username(credentials.identity);
        self.controller.set_personal_access_token(credentials.secret_token);
        self.phase = phase;
    }

    /// The action that the session waits for.
    pub fn next_action(&self) -> (action: Action)
        ensures
            action@ == pending(self@),
    {
        let mut args: Vec<String> = Vec::new();
        assert(texts(args@) =~= Seq::<Seq<char>>::empty());
        match self.phase {
            Phase::Idle => Action::AwaitStart,
            Phase::CredentialsLoading => Action::ReadCredentialFile,
            Phase::CredentialsSetup => Action::AskCredentials,
            Phase::CredentialsSaving => {
                Action::WriteCredentialFile(self.controller.credentials().to_file_text())
            },
            Phase::Authenticating => Action::Send(self.controller.probe_request()),
            Phase::ReauthPrompt => Action::Confirm(Question::ReenterCredentials),
            Phase::CollectingSpec => Action::AskSpec,
            Phase::CreatingRemote => Action::Send(
                self.controller.create_request(
                    self.repository.name.as_str(),
                    self.repository.description.as_str(),
                    self.repository.is_private,
                ),
            ),
            Phase::OfferLocalFallback => Action::Confirm(Question::LocalFallback),
            Phase::Cloning => {
                let address = self.controller.clone_url(self.repository.name.as_str());
                push_word(&mut args, "clone");
                push_word(&mut args, address.as_str());
                assert(texts(args@) =~= seq!["clone"@, address@]);
                run("git", args, None)
            },
            Phase::Scaffolding => {
                push_word(&mut args, "init");
                if self.commits() {
                    assert(texts(args@) =~= seq!["init"@]);
                    run("cargo", args, Some(self.repository.name.clone()))
                } else {
                    push_word(&mut args, self.repository.name.as_str());
                    assert(texts(args@) =~= seq!["init"@, self.repository.name@]);
                    run("cargo", args, None)
                }
            },
            Phase::Committing(CommitStep::Stage) => {
                push_word(&mut args, "add");
                push_word(&mut args, ".");
                assert(texts(args@) =~= seq!["add"@, "."@]);
                run("git", args, Some(self.repository.name.clone()))
            },
            Phase::Committing(CommitStep::Commit) => {
                push_word(&mut args, "commit");
                push_word(&mut args, "-am");
                push_word(&mut args, "Initial commit");
                assert(texts(args@) =~= seq!["commit"@, "-am"@, "Initial commit"@]);
                run("git", args, Some(self.repository.name.clone()))
            },
            Phase::Committing(CommitStep::Push) => {
                push_word(&mut args, "push");
                assert(texts(args@) =~= seq!["push"@]);
                run("git", args, Some(self.repository.name.clone()))
            },
            Phase::Done => Action::Finish,
        }
    }

    fn commits(&self) -> (yes: bool)
        ensures
            yes == self@.commits(),
    {
        match self.remote {
            Some(ProvisioningResult::RemoteCreated) => true,
            _ => false,
        }
    }

    /// Moves the session on by the event that ended the awaited action. An
    /// event that the phase does not wait for changes nothing. A consistent
    /// session stays consistent.
    pub fn advance(&mut self, event: Event)
        ensures
            final(self)@ == next(old(self)@, event@),
            consistent(old(self)@) ==> consistent(final(self)@),
    {
        match (self.phase, event) {
            (Phase::Idle, Event::Begin) => {
                self.phase = Phase::CredentialsLoading;
            },
            (Phase::CredentialsLoading, Event::CredentialFile(None)) => {
                self.phase = Phase::CredentialsSetup;
            },
            (Phase::CredentialsLoading, Event::CredentialFile(Some(content))) => {
                match Credentials::from_file_text(content.as_str()) {
                    Ok(credentials) => self.hold(credentials, Phase::Authenticating),
                    Err(_) => self.end(Err(CustomError::ConfigErr)),
                }
            },
            (Phase::CredentialsSetup, Event::CredentialsEntered(credentials)) => {
                self.hold(credentials, Phase::CredentialsSaving);
            },
            (Phase::CredentialsSaving, Event::CredentialsSaved(written)) => {
                if written {
                    self.phase = Phase::Authenticating;
                } else {
                    self.fail_locally("Couldn't write credentials file");
                }
            },
            (Phase::Authenticating, Event::Answered(reply)) => {
                match crate::github_api::classify_probe(reply) {
                    Ok(()) => {
                        self.phase = Phase::CollectingSpec;
                    },
                    Err(GitHubError::Authentication) => {
                        if self.reentered {
                            self.fail(GitHubError::Authentication);
                        } else {
                            self.phase = Phase::ReauthPrompt;
                        }
                    },
                    Err(err) => self.fail(err),
                }
            },
            (Phase::ReauthPrompt, Event::Chosen(choice)) => {
                if affirmative(choice) {
                    self.phase = Phase::CredentialsSetup;
                    self.reentered = true;
                } else {
                    self.fail(GitHubError::Authentication);
                }
            },
            (Phase::CollectingSpec, Event::SpecEntered(asked)) => {
                self.repository = asked;
                self.phase = Phase::CreatingRemote;
            },
            (Phase::CreatingRemote, Event::Answered(reply)) => {
                match crate::github_api::classify_create(reply) {
                    Ok(()) => {
                        self.phase = Phase::Cloning;
                        self.remote = Some(ProvisioningResult::RemoteCreated);
                    },
                    Err(GitHubError::AlreadyCreated) => {
                        self.phase = Phase::OfferLocalFallback;
                        self.remote = Some(ProvisioningResult::RemoteAlreadyExists);
                    },
                    Err(_) => {
                        self.phase = Phase::OfferLocalFallback;
                        self.remote = Some(ProvisioningResult::RemoteCreateFailed);
                    },
                }
            },
            (Phase::OfferLocalFallback, Event::Chosen(choice)) => {
                if affirmative(choice) {
                    self.phase = Phase::Scaffolding;
                    self.remote = Some(ProvisioningResult::LocalOnlyFallback);
                } else {
                    match self.remote {
                        Some(ProvisioningResult::RemoteAlreadyExists) => self.fail(
                            GitHubError::AlreadyCreated,
                        ),
                        _ => self.fail(GitHubError::RepoCreate),
                    }
                }
            },
            (Phase::Cloning, Event::Exited(exit)) => {
                match exit {
                    ProcessExit::Status(0) => {
                        self.phase = Phase::Scaffolding;
                    },
                    _ => self.fail_locally("Couldn't clone repository"),
                }
            },
            (Phase::Scaffolding, Event::Exited(exit)) => {
                match exit {
                    ProcessExit::Status(0) => {
                        if self.commits() {
                            self.phase = Phase::Committing(CommitStep::Stage);
                        } else {
                            self.end(Ok(ProvisioningResult::LocalOnlyFallback));
                        }
                    },
                    ProcessExit::Status(_) => self.fail_locally("Couldn't initialize project"),
                    ProcessExit::NotRun => self.fail_locally("Couldn't open directory"),
                }
            },
            (Phase::Committing(CommitStep::Stage), Event::Exited(exit)) => {
                match exit {
                    ProcessExit::Status(0) => {
                        self.phase = Phase::Committing(CommitStep::Commit);
                    },
                    _ => self.fail(GitHubError::InitialCommit),
                }
            },
            (Phase::Committing(CommitStep::Commit), Event::Exited(exit)) => {
                match exit {
                    ProcessExit::Status(0) => {
                        self.phase = Phase::Committing(CommitStep::Push);
                    },
                    _ => self.fail(GitHubError::InitialCommit),
                }
            },
            (Phase::Committing(CommitStep::Push), Event::Exited(exit)) => {
                self.end(Ok(ProvisioningResult::RemoteCreated));
                self.push_failed = match exit {
                    ProcessExit::Status(0) => false,
                    _ => true,
                };
            },
            _ => {},
        }
    }
}

} // verus!
