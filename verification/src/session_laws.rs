//! What holds of every provisioning session, proved from the transition
//! function and the pending action alone.

use crate::credentials::file_text;
use crate::custom_error::{ErrorView, GitHubError, Reply};
use crate::github_api::{clone_address, create_request, create_verdict, probe_request, probe_verdict};
use crate::session::{
    auth_state, is_yes, next, pending, ActionView, CommitStep, EventView, AuthState, InvocationView, Phase, ProcessExit,
    ProvisioningResult, Question, SessionView,
};
use vstd::prelude::*;

verus! {

/// What every session that began in one of the three entry phases keeps
/// true: it has a verdict exactly when it is over; cloning and committing
/// happen only after the remote repository was created; the scaffold is
/// built only then or on the local fallback; new credentials are offered
/// only while that offer was not taken before; and a good verdict names how
/// the remote side went.
pub open spec fn consistent(s: SessionView) -> bool {
    &&& s.phase == Phase::Done <==> s.verdict is Some
    &&& (s.phase == Phase::Cloning || s.phase is Committing) ==> s.commits()
    &&& s.phase == Phase::Scaffolding ==> (s.commits() || s.remote == Some(
        ProvisioningResult::LocalOnlyFallback,
    ))
    &&& s.phase == Phase::OfferLocalFallback ==> (s.remote == Some(
        ProvisioningResult::RemoteAlreadyExists,
    ) || s.remote == Some(ProvisioningResult::RemoteCreateFailed))
    &&& before_remote(s.phase) ==> s.remote is None
    &&& s.phase == Phase::ReauthPrompt ==> !s.reentered
    &&& match s.verdict {
        Some(Ok(result)) => s.remote == Some(result) && (result
            == ProvisioningResult::RemoteCreated || result
            == ProvisioningResult::LocalOnlyFallback),
        Some(Err(_)) => true,
        None => true,
    }
    &&& s.push_failed ==> s.verdict == Some(
        Ok::<ProvisioningResult, ErrorView>(ProvisioningResult::RemoteCreated),
    )
}

/// The phases in which the create request has not been answered yet.
pub open spec fn before_remote(phase: Phase) -> bool {
    match phase {
        Phase::Idle
        | Phase::CredentialsLoading
        | Phase::CredentialsSetup
        | Phase::CredentialsSaving
        | Phase::Authenticating
        | Phase::ReauthPrompt
        | Phase::CollectingSpec
        | Phase::CreatingRemote => true,
        _ => false,
    }
}

/// A session is consistent where it begins.
pub proof fn lemma_entry_consistent(s: SessionView)
    requires
        s.phase == Phase::Idle || s.phase == Phase::CollectingSpec || s.phase
            == Phase::CredentialsSetup,
        s.remote is None,
        s.verdict is None,
        !s.push_failed,
    ensures
        consistent(s),
{
}

/// No event leads a consistent session to one that is not.
pub proof fn lemma_next_consistent(s: SessionView, event: EventView)
    requires
        consistent(s),
    ensures
        consistent(next(s, event)),
{
}

/// A session that is over stays as it is, whatever it is told.
pub proof fn lemma_done_absorbs(s: SessionView, event: EventView)
    requires
        s.phase == Phase::Done,
    ensures
        next(s, event) == s,
        pending(s) == ActionView::Finish,
{
}

/// Version control is only ever run after the remote repository was
/// created: a consistent session without one never waits for `git`.
pub proof fn lemma_git_needs_remote(s: SessionView)
    requires
        consistent(s),
        !s.commits(),
    ensures
        match pending(s) {
            ActionView::Run(invocation) => invocation.program != "git"@,
            _ => true,
        },
{
    reveal_strlit("git");
    reveal_strlit("cargo");
    if s.phase == Phase::Scaffolding {
        assert("cargo"@.len() != "git"@.len());
    }
}

/// Without a credential file the operator is asked for credentials once;
/// they are written, then probed, and when the probe accepts them the
/// session goes on to ask what to create, with no second prompt.
pub proof fn lemma_first_run(s: SessionView, identity: Seq<char>, token: Seq<char>, reply: Reply)
    requires
        s.phase == Phase::CredentialsLoading,
        reply == Reply::Status(200),
    ensures
        ({
            let asked = next(s, EventView::CredentialFile(None));
            let entered = next(asked, EventView::CredentialsEntered(identity, token));
            let saved = next(entered, EventView::CredentialsSaved(true));
            let probed = next(saved, EventView::Answered(reply));
            &&& pending(asked) == ActionView::AskCredentials
            &&& pending(entered) == ActionView::WriteCredentialFile(file_text(identity, token))
            &&& pending(saved) == ActionView::Send(probe_request(s.url, identity, token))
            &&& pending(probed) == ActionView::AskSpec
            &&& probed == (SessionView { phase: Phase::CollectingSpec, identity, token, ..s })
        }),
{
}

/// When the probe refuses the credentials and the operator declines to
/// enter new ones, the session ends with an authentication failure, and
/// between the refusal and the end it waits for nothing but the answer.
pub proof fn lemma_declined_reentry(s: SessionView, reply: Reply, choice: char)
    requires
        s.phase == Phase::Authenticating,
        !s.reentered,
        reply == Reply::Status(401) || reply == Reply::Status(403) || reply == Reply::Status(404),
        !is_yes(choice),
    ensures
        ({
            let refused = next(s, EventView::Answered(reply));
            let ended = next(refused, EventView::Chosen(choice));
            &&& pending(refused) == ActionView::Confirm(Question::ReenterCredentials)
            &&& ended == s.failed(GitHubError::Authentication)
            &&& pending(ended) == ActionView::Finish
        }),
{
}

/// New credentials are offered once: when the probe refuses the ones that
/// were entered on that offer, the session ends.
pub proof fn lemma_reentry_offered_once(s: SessionView, choice: char, reply: Reply)
    requires
        s.phase == Phase::ReauthPrompt,
        is_yes(choice),
        probe_verdict(reply) == Err::<(), GitHubError>(GitHubError::Authentication),
    ensures
        next(s, EventView::Chosen(choice)).reentered,
        next(s, EventView::Chosen(choice)).phase == Phase::CredentialsSetup,
        forall|later: SessionView|
            later.phase == Phase::Authenticating && later.reentered ==> #[trigger] next(
                later,
                EventView::Answered(reply),
            ) == later.failed(GitHubError::Authentication),
{
}

/// When the repository cannot be created and the operator accepts the local
/// fallback, the scaffold is built in a new directory of the current one,
/// and the session ends right after it: nothing is committed or pushed.
pub proof fn lemma_local_fallback(s: SessionView, reply: Reply, choice: char, exit: ProcessExit)
    requires
        s.phase == Phase::CreatingRemote,
        reply != Reply::Status(201),
        is_yes(choice),
    ensures
        ({
            let answered = next(s, EventView::Answered(reply));
            let accepted = next(answered, EventView::Chosen(choice));
            let built = next(accepted, EventView::Exited(exit));
            &&& pending(answered) == ActionView::Confirm(Question::LocalFallback)
            &&& reply == Reply::Status(422) <==> answered.remote == Some(
                ProvisioningResult::RemoteAlreadyExists,
            )
            &&& pending(accepted) == ActionView::Run(
                InvocationView { program: "cargo"@, args: seq!["init"@, s.name], directory: None },
            )
            &&& built.phase == Phase::Done
            &&& exit == ProcessExit::Status(0) ==> built.verdict == Some(
                Ok::<ProvisioningResult, ErrorView>(ProvisioningResult::LocalOnlyFallback),
            )
        }),
{
}

/// When the repository cannot be created and the operator declines the
/// local fallback, the session ends with the failure of the create request.
pub proof fn lemma_declined_fallback(s: SessionView, reply: Reply, choice: char)
    requires
        s.phase == Phase::CreatingRemote,
        reply != Reply::Status(201),
        !is_yes(choice),
    ensures
        next(next(s, EventView::Answered(reply)), EventView::Chosen(choice)).verdict == Some(
            Err::<ProvisioningResult, ErrorView>(
                ErrorView::GitHubErr(
                    if reply == Reply::Status(422) {
                        GitHubError::AlreadyCreated
                    } else {
                        GitHubError::RepoCreate
                    },
                ),
            ),
        ),
{
}

/// When everything goes well the session sends the create request, clones
/// the repository from its address, builds the scaffold inside the clone,
/// stages, commits with the fixed message, and pushes; it ends well
/// whatever the push did, and remembers whether the push failed.
pub proof fn lemma_full_run(
    s: SessionView,
    name: Seq<char>,
    description: Seq<char>,
    is_private: bool,
    pushed: ProcessExit,
)
    requires
        s.phase == Phase::CollectingSpec,
    ensures
        ({
            let done = ProcessExit::Status(0);
            let collected = next(s, EventView::SpecEntered(name, description, is_private));
            let created = next(collected, EventView::Answered(Reply::Status(201)));
            let cloned = next(created, EventView::Exited(done));
            let built = next(cloned, EventView::Exited(done));
            let staged = next(built, EventView::Exited(done));
            let committed = next(staged, EventView::Exited(done));
            let ended = next(committed, EventView::Exited(pushed));
            let in_project = |args: Seq<Seq<char>>|
                ActionView::Run(InvocationView { program: "git"@, args, directory: Some(name) });
            &&& pending(collected) == ActionView::Send(
                create_request(s.url, s.identity, s.token, name, description, is_private),
            )
            &&& pending(created) == ActionView::Run(
                InvocationView {
                    program: "git"@,
                    args: seq!["clone"@, clone_address(s.identity, name)],
                    directory: None,
                },
            )
            &&& pending(cloned) == ActionView::Run(
                InvocationView { program: "cargo"@, args: seq!["init"@], directory: Some(name) },
            )
            &&& pending(built) == in_project(seq!["add"@, "."@])
            &&& pending(staged) == in_project(seq!["commit"@, "-am"@, "Initial commit"@])
            &&& pending(committed) == in_project(seq!["push"@])
            &&& ended.phase == Phase::Done
            &&& ended.verdict == Some(
                Ok::<ProvisioningResult, ErrorView>(ProvisioningResult::RemoteCreated),
            )
            &&& ended.push_failed == (pushed != done)
        }),
{
}

/// A failure to stage or to commit ends the session with a commit error,
/// and nothing is pushed.
pub proof fn lemma_failed_commit_skips_push(s: SessionView, exit: ProcessExit)
    requires
        s.phase == Phase::Committing(CommitStep::Stage) || s.phase == Phase::Committing(
            CommitStep::Commit,
        ),
        exit != ProcessExit::Status(0),
    ensures
        next(s, EventView::Exited(exit)) == s.failed(GitHubError::InitialCommit),
{
}

/// What the create request was answered with decides alone how the remote
/// side is recorded.
pub proof fn lemma_create_answer_recorded(s: SessionView, reply: Reply)
    requires
        s.phase == Phase::CreatingRemote,
    ensures
        next(s, EventView::Answered(reply)).remote == Some(
            match create_verdict(reply) {
                Ok(_) => ProvisioningResult::RemoteCreated,
                Err(GitHubError::AlreadyCreated) => ProvisioningResult::RemoteAlreadyExists,
                Err(_) => ProvisioningResult::RemoteCreateFailed,
            },
        ),
{
}

/// The answer to the probe decides alone what is known of the credentials:
/// verified on 200, rejected on 401, 403 and 404, unverified otherwise.
pub proof fn lemma_probe_decides_auth_state(s: SessionView, reply: Reply)
    requires
        consistent(s),
        s.phase == Phase::Authenticating,
    ensures
        auth_state(s) == AuthState::Unverified,
        auth_state(next(s, EventView::Answered(reply))) == match probe_verdict(reply) {
            Ok(_) => AuthState::Verified,
            Err(GitHubError::Authentication) => AuthState::Rejected,
            Err(_) => AuthState::Unverified,
        },
{
}

/// How far a phase is along the way from the beginning to the end.
pub open spec fn rank(phase: Phase) -> nat {
    match phase {
        Phase::Idle => 0,
        Phase::CredentialsLoading => 1,
        Phase::CredentialsSetup => 2,
        Phase::CredentialsSaving => 3,
        Phase::Authenticating => 4,
        Phase::ReauthPrompt => 5,
        Phase::CollectingSpec => 6,
        Phase::CreatingRemote => 7,
        Phase::OfferLocalFallback => 8,
        Phase::Cloning => 9,
        Phase::Scaffolding => 10,
        Phase::Committing(CommitStep::Stage) => 11,
        Phase::Committing(CommitStep::Commit) => 12,
        Phase::Committing(CommitStep::Push) => 13,
        Phase::Done => 14,
    }
}

/// A bound on the number of events that can still change a session: the
/// phases ahead, and once more those of the credential entry while the
/// offer of new credentials has not been taken.
pub open spec fn steps_left(s: SessionView) -> nat {
    let again: nat = if !s.reentered && rank(s.phase) <= 5 {
        4
    } else {
        0
    };
    (again + 14 - rank(s.phase)) as nat
}

/// Every event that changes a consistent session brings it nearer to its
/// end, so that a session is over after at most eighteen such events: no
/// sequence of answers keeps it going for ever.
pub proof fn lemma_every_change_nears_the_end(s: SessionView, event: EventView)
    requires
        consistent(s),
        next(s, event) != s,
    ensures
        steps_left(next(s, event)) < steps_left(s),
        steps_left(s) <= 18,
        steps_left(s) == 0 <==> s.phase == Phase::Done,
{
}

} // verus!
