use rpg::credentials::Credentials;
use rpg::custom_error::{CustomError, GitHubError, Reply};
use rpg::github_api::{GitHubController, Method};
use rpg::session::{
    affirmative, Action, AuthState, CommitStep, Event, Invocation, MenuChoice, Phase, ProcessExit,
    ProvisioningResult, Question, RemoteRepositorySpec, Session,
};

const OK: Event = Event::Exited(ProcessExit::Status(0));

fn creds(identity: &str, token: &str) -> Credentials {
    Credentials { identity: identity.to_string(), secret_token: token.to_string() }
}

fn spec(name: &str, description: &str, is_private: bool) -> RemoteRepositorySpec {
    RemoteRepositorySpec { name: name.to_string(), description: description.to_string(), is_private }
}

fn run(program: &str, args: &[&str], directory: Option<&str>) -> Action {
    Action::Run(Invocation {
        program: program.to_string(),
        args: args.iter().map(|a| a.to_string()).collect(),
        directory: directory.map(|d| d.to_string()),
    })
}

/// Feeds the events in turn and returns the action awaited after each.
fn drive(session: &mut Session, events: Vec<Event>) -> Vec<Action> {
    let mut seen = Vec::new();
    for event in events {
        session.advance(event);
        seen.push(session.next_action());
    }
    seen
}

fn verified(identity: &str) -> Session {
    let mut controller = GitHubController::new();
    controller.set_username(identity.to_string());
    controller.set_personal_access_token("ghp_secret".to_string());
    Session::resume(controller)
}

fn probe_of(identity: &str, token: &str) -> Action {
    let mut controller = GitHubController::new();
    controller.set_username(identity.to_string());
    controller.set_personal_access_token(token.to_string());
    Action::Send(controller.probe_request())
}

#[test]
fn new_session_waits_to_begin() {
    let session = Session::new();
    assert_eq!(session.phase(), Phase::Idle);
    assert_eq!(session.next_action(), Action::AwaitStart);
    assert_eq!(session.outcome(), &None);
    assert_eq!(session.auth_state(), AuthState::Unverified);
    assert!(!session.push_failed());
}

#[test]
fn absent_file_prompts_once_then_collects_spec() {
    let mut session = Session::new();
    let seen = drive(
        &mut session,
        vec![
            Event::Begin,
            Event::CredentialFile(None),
            Event::CredentialsEntered(creds("octocat", "ghp_1")),
            Event::CredentialsSaved(true),
            Event::Answered(Reply::Status(200)),
        ],
    );
    assert_eq!(
        seen,
        vec![
            Action::ReadCredentialFile,
            Action::AskCredentials,
            Action::WriteCredentialFile("octocat\nghp_1".to_string()),
            probe_of("octocat", "ghp_1"),
            Action::AskSpec,
        ]
    );
    assert_eq!(seen.iter().filter(|a| **a == Action::AskCredentials).count(), 1);
    assert_eq!(session.phase(), Phase::CollectingSpec);
    assert_eq!(session.auth_state(), AuthState::Verified);
    assert_eq!(session.controller().get_username(), "octocat");
}

#[test]
fn stored_credentials_are_probed_without_a_prompt() {
    let mut session = Session::new();
    let seen = drive(
        &mut session,
        vec![Event::Begin, Event::CredentialFile(Some("octocat\nghp_1\n".to_string()))],
    );
    assert_eq!(seen, vec![Action::ReadCredentialFile, probe_of("octocat", "ghp_1")]);
    assert_eq!(session.phase(), Phase::Authenticating);
}

#[test]
fn malformed_file_ends_the_session() {
    let mut session = Session::new();
    let seen = drive(&mut session, vec![Event::Begin, Event::CredentialFile(Some("octocat".to_string()))]);
    assert_eq!(seen[1], Action::Finish);
    assert_eq!(session.phase(), Phase::Done);
    assert_eq!(session.outcome(), &Some(Err(CustomError::ConfigErr)));
}

#[test]
fn unwritten_credentials_end_the_session() {
    let mut session = Session::new();
    drive(
        &mut session,
        vec![
            Event::Begin,
            Event::CredentialFile(None),
            Event::CredentialsEntered(creds("o", "t")),
            Event::CredentialsSaved(false),
        ],
    );
    assert_eq!(
        session.outcome(),
        &Some(Err(CustomError::FilesystemErr("Couldn't write credentials file".to_string())))
    );
}

#[test]
fn unauthorized_and_declined_ends_with_authentication_failure() {
    for status in [401, 403, 404] {
        for choice in ['n', 'N', 'x', '\n'] {
            let mut session = Session::new();
            let seen = drive(
                &mut session,
                vec![
                    Event::Begin,
                    Event::CredentialFile(Some("octocat\nold".to_string())),
                    Event::Answered(Reply::Status(status)),
                    Event::Chosen(choice),
                ],
            );
            assert_eq!(
                seen,
                vec![
                    Action::ReadCredentialFile,
                    probe_of("octocat", "old"),
                    Action::Confirm(Question::ReenterCredentials),
                    Action::Finish,
                ]
            );
            assert_eq!(
                session.outcome(),
                &Some(Err(CustomError::GitHubErr(GitHubError::Authentication)))
            );
            assert_eq!(session.auth_state(), AuthState::Rejected);
            assert!(seen.iter().all(|a| !matches!(a, Action::Run(_) | Action::WriteCredentialFile(_))));
            assert_eq!(seen.iter().filter(|a| matches!(a, Action::Send(_))).count(), 1);
        }
    }
}

#[test]
fn reentry_is_offered_once() {
    let mut session = Session::new();
    let seen = drive(
        &mut session,
        vec![
            Event::Begin,
            Event::CredentialFile(Some("octocat\nold".to_string())),
            Event::Answered(Reply::Status(401)),
            Event::Chosen('y'),
            Event::CredentialsEntered(creds("octocat", "new")),
            Event::CredentialsSaved(true),
            Event::Answered(Reply::Status(401)),
        ],
    );
    assert_eq!(seen[2], Action::Confirm(Question::ReenterCredentials));
    assert_eq!(seen[3], Action::AskCredentials);
    assert_eq!(seen[4], Action::WriteCredentialFile("octocat\nnew".to_string()));
    assert_eq!(seen[5], probe_of("octocat", "new"));
    assert_eq!(seen[6], Action::Finish);
    assert_eq!(session.outcome(), &Some(Err(CustomError::GitHubErr(GitHubError::Authentication))));
}

#[test]
fn reentry_with_good_credentials_goes_on() {
    let mut session = Session::new();
    drive(
        &mut session,
        vec![
            Event::Begin,
            Event::CredentialFile(Some("octocat\nold".to_string())),
            Event::Answered(Reply::Status(401)),
        ],
    );
    assert_eq!(session.auth_state(), AuthState::Rejected);
    drive(&mut session, vec![Event::Chosen('Y')]);
    assert_eq!(session.auth_state(), AuthState::Unverified);
    drive(
        &mut session,
        vec![
            Event::CredentialsEntered(creds("octocat", "new")),
            Event::CredentialsSaved(true),
            Event::Answered(Reply::Status(200)),
        ],
    );
    assert_eq!(session.phase(), Phase::CollectingSpec);
    assert_eq!(session.auth_state(), AuthState::Verified);
}

#[test]
fn unexpected_probe_answer_ends_the_session_with_what_came_back() {
    for reply in [Reply::Status(500), Reply::Status(302), Reply::Unreachable] {
        let mut session = Session::new();
        drive(
            &mut session,
            vec![
                Event::Begin,
                Event::CredentialFile(Some("octocat\nold".to_string())),
                Event::Answered(reply),
            ],
        );
        assert_eq!(session.phase(), Phase::Done);
        assert_eq!(session.outcome(), &Some(Err(CustomError::GitHubErr(GitHubError::Unexpected(reply)))));
        assert_eq!(session.auth_state(), AuthState::Unverified);
    }
}

#[test]
fn conflict_with_accepted_fallback_scaffolds_and_skips_commit() {
    let mut session = verified("octocat");
    let seen = drive(
        &mut session,
        vec![
            Event::SpecEntered(spec("demo", "", false)),
            Event::Answered(Reply::Status(422)),
            Event::Chosen('y'),
            OK,
        ],
    );
    assert_eq!(seen[1], Action::Confirm(Question::LocalFallback));
    assert_eq!(seen[2], run("cargo", &["init", "demo"], None));
    assert_eq!(seen[3], Action::Finish);
    assert_eq!(session.outcome(), &Some(Ok(ProvisioningResult::LocalOnlyFallback)));
    for action in &seen {
        if let Action::Run(invocation) = action {
            assert_ne!(invocation.program, "git");
        }
    }
}

#[test]
fn failed_create_offers_the_same_fallback() {
    for reply in [Reply::Status(500), Reply::Status(200), Reply::Unreachable] {
        let mut session = verified("octocat");
        let seen = drive(
            &mut session,
            vec![Event::SpecEntered(spec("demo", "", false)), Event::Answered(reply), Event::Chosen('n')],
        );
        assert_eq!(seen[1], Action::Confirm(Question::LocalFallback));
        assert_eq!(seen[2], Action::Finish);
        assert_eq!(session.outcome(), &Some(Err(CustomError::GitHubErr(GitHubError::RepoCreate))));
    }
}

#[test]
fn declined_fallback_after_conflict_reports_the_conflict() {
    let mut session = verified("octocat");
    drive(
        &mut session,
        vec![
            Event::SpecEntered(spec("demo", "", false)),
            Event::Answered(Reply::Status(422)),
            Event::Chosen('n'),
        ],
    );
    assert_eq!(session.outcome(), &Some(Err(CustomError::GitHubErr(GitHubError::AlreadyCreated))));
}

#[test]
fn happy_path_clones_scaffolds_commits_and_pushes() {
    let mut session = verified("octocat");
    let seen = drive(
        &mut session,
        vec![
            Event::SpecEntered(RemoteRepositorySpec::from_answers(
                "demo".to_string(),
                'n',
                String::new(),
            )),
            Event::Answered(Reply::Status(201)),
            OK,
            OK,
            OK,
            OK,
            OK,
        ],
    );
    match &seen[0] {
        Action::Send(request) => {
            assert_eq!(request.method, Method::Post);
            assert_eq!(
                request.body.as_deref(),
                Some(
                    "{\"auto_init\":true,\"description\":\"\",\"gitignore_template\":\"Rust\",\"name\":\"demo\",\"private\":false}"
                )
            );
        }
        other => panic!("{:?}", other),
    }
    assert_eq!(seen[1], run("git", &["clone", "git@github.com:octocat/demo.git"], None));
    assert_eq!(seen[2], run("cargo", &["init"], Some("demo")));
    assert_eq!(seen[3], run("git", &["add", "."], Some("demo")));
    assert_eq!(seen[4], run("git", &["commit", "-am", "Initial commit"], Some("demo")));
    assert_eq!(seen[5], run("git", &["push"], Some("demo")));
    assert_eq!(seen[6], Action::Finish);
    assert_eq!(session.outcome(), &Some(Ok(ProvisioningResult::RemoteCreated)));
    assert!(!session.push_failed());
    assert_eq!(session.auth_state(), AuthState::Verified);
}

#[test]
fn failed_push_is_remembered_but_not_fatal() {
    for exit in [ProcessExit::Status(1), ProcessExit::Status(-1), ProcessExit::NotRun] {
        let mut session = verified("octocat");
        drive(
            &mut session,
            vec![
                Event::SpecEntered(spec("demo", "d", true)),
                Event::Answered(Reply::Status(201)),
                OK,
                OK,
                OK,
                OK,
                Event::Exited(exit),
            ],
        );
        assert_eq!(session.outcome(), &Some(Ok(ProvisioningResult::RemoteCreated)));
        assert!(session.push_failed());
    }
}

#[test]
fn failed_stage_or_commit_skips_the_push() {
    for ok_steps in [0, 1] {
        let mut session = verified("octocat");
        let mut events =
            vec![Event::SpecEntered(spec("demo", "", false)), Event::Answered(Reply::Status(201)), OK, OK];
        for _ in 0..ok_steps {
            events.push(OK);
        }
        events.push(Event::Exited(ProcessExit::Status(128)));
        let seen = drive(&mut session, events);
        assert_eq!(seen.last(), Some(&Action::Finish));
        assert!(!seen.contains(&run("git", &["push"], Some("demo"))));
        assert_eq!(session.outcome(), &Some(Err(CustomError::GitHubErr(GitHubError::InitialCommit))));
    }
}

#[test]
fn failed_clone_and_failed_scaffold_are_filesystem_errors() {
    let mut session = verified("octocat");
    drive(
        &mut session,
        vec![
            Event::SpecEntered(spec("demo", "", false)),
            Event::Answered(Reply::Status(201)),
            Event::Exited(ProcessExit::Status(128)),
        ],
    );
    assert_eq!(
        session.outcome(),
        &Some(Err(CustomError::FilesystemErr("Couldn't clone repository".to_string())))
    );
    for (exit, text) in [
        (ProcessExit::NotRun, "Couldn't open directory"),
        (ProcessExit::Status(101), "Couldn't initialize project"),
    ] {
        let mut session = verified("octocat");
        drive(
            &mut session,
            vec![
                Event::SpecEntered(spec("demo", "", false)),
                Event::Answered(Reply::Status(201)),
                OK,
                Event::Exited(exit),
            ],
        );
        assert_eq!(session.outcome(), &Some(Err(CustomError::FilesystemErr(text.to_string()))));
    }
}

#[test]
fn events_that_are_not_awaited_change_nothing() {
    let mut session = Session::new();
    for event in [
        Event::CredentialFile(None),
        Event::CredentialsEntered(creds("a", "b")),
        Event::CredentialsSaved(true),
        Event::Answered(Reply::Status(200)),
        Event::Chosen('y'),
        Event::SpecEntered(spec("demo", "", false)),
        OK,
    ] {
        session.advance(event);
        assert_eq!(session.phase(), Phase::Idle);
        assert_eq!(session.next_action(), Action::AwaitStart);
    }
    assert_eq!(session.controller().get_username(), "");
}

#[test]
fn finished_session_stays_finished() {
    let mut session = verified("octocat");
    drive(
        &mut session,
        vec![
            Event::SpecEntered(spec("demo", "", false)),
            Event::Answered(Reply::Status(422)),
            Event::Chosen('n'),
        ],
    );
    let outcome = session.outcome().clone();
    for event in [Event::Begin, Event::Chosen('y'), OK, Event::Answered(Reply::Status(201))] {
        session.advance(event);
        assert_eq!(session.phase(), Phase::Done);
        assert_eq!(session.outcome(), &outcome);
    }
}

#[test]
fn change_credentials_asks_then_probes_and_offers_no_second_entry() {
    let mut controller = GitHubController::new();
    controller.set_username("old".to_string());
    let mut session = Session::change_credentials(controller);
    assert_eq!(session.next_action(), Action::AskCredentials);
    let seen = drive(
        &mut session,
        vec![
            Event::CredentialsEntered(creds("new", "pat")),
            Event::CredentialsSaved(true),
            Event::Answered(Reply::Status(403)),
        ],
    );
    assert_eq!(seen[1], probe_of("new", "pat"));
    assert_eq!(seen[2], Action::Finish);
    assert_eq!(session.outcome(), &Some(Err(CustomError::GitHubErr(GitHubError::Authentication))));
    assert_eq!(session.into_controller().get_username(), "new");
}

#[test]
fn commit_phases_are_reached_in_order() {
    let mut session = verified("octocat");
    drive(
        &mut session,
        vec![Event::SpecEntered(spec("demo", "", false)), Event::Answered(Reply::Status(201))],
    );
    assert_eq!(session.phase(), Phase::Cloning);
    session.advance(OK);
    assert_eq!(session.phase(), Phase::Scaffolding);
    session.advance(OK);
    assert_eq!(session.phase(), Phase::Committing(CommitStep::Stage));
    session.advance(OK);
    assert_eq!(session.phase(), Phase::Committing(CommitStep::Commit));
    session.advance(OK);
    assert_eq!(session.phase(), Phase::Committing(CommitStep::Push));
    session.advance(OK);
    assert_eq!(session.phase(), Phase::Done);
}

#[test]
fn only_y_means_yes() {
    assert!(affirmative('y'));
    assert!(affirmative('Y'));
    for choice in ['n', 'N', ' ', 'j', '1', 'ý'] {
        assert!(!affirmative(choice));
    }
    assert!(RemoteRepositorySpec::from_answers("a".to_string(), 'Y', "b".to_string()).is_private);
    assert_eq!(
        RemoteRepositorySpec::from_answers("a".to_string(), 'q', "b".to_string()),
        spec("a", "b", false)
    );
}

#[test]
fn menu_numbers() {
    assert_eq!(MenuChoice::from_number(0), MenuChoice::Quit);
    assert_eq!(MenuChoice::from_number(1), MenuChoice::NewProject);
    assert_eq!(MenuChoice::from_number(2), MenuChoice::ChangeCredentials);
    for number in 3..=u8::MAX {
        assert_eq!(MenuChoice::from_number(number), MenuChoice::Unknown);
    }
}

#[test]
fn session_remembers_what_was_asked_and_how_the_remote_went() {
    let mut session = verified("octocat");
    assert_eq!(session.repository(), &spec("", "", false));
    assert_eq!(session.remote(), None);
    session.advance(Event::SpecEntered(spec("demo", "about", true)));
    assert_eq!(session.repository(), &spec("demo", "about", true));
    assert_eq!(session.remote(), None);
    session.advance(Event::Answered(Reply::Status(422)));
    assert_eq!(session.remote(), Some(ProvisioningResult::RemoteAlreadyExists));
    session.advance(Event::Chosen('y'));
    assert_eq!(session.remote(), Some(ProvisioningResult::LocalOnlyFallback));
    let mut other = verified("octocat");
    other.advance(Event::SpecEntered(spec("demo", "", false)));
    other.advance(Event::Answered(Reply::Unreachable));
    assert_eq!(other.remote(), Some(ProvisioningResult::RemoteCreateFailed));
}
