//! The commit pipeline as an explicit state machine. Each call of `step`
//! consumes the result of the previous outside operation (an event) and
//! returns the next operation to perform (an action); every decision —
//! which summary to gather, when nothing is to be done, dry-run and no-push
//! policy, and the mapping of every failure to a terminal outcome — is taken
//! here and verified. An unverified driver performs the actions.

use crate::completion::GeminiRequest;
use crate::completion::extract_message;
use crate::completion::extracted;
use crate::completion::make_request;
use crate::completion::request_shape;
use crate::completion::request_url;
use crate::completion::url_of;
use crate::config::RunConfig;
use crate::prompt::render;
use crate::prompt::rendered;
use crate::status::untracked_summary;
use crate::status::untracked_summary_spec;
use crate::text::blank;
use crate::text::is_blank;
use vstd::prelude::*;

verus! {

/// The version-control operations a failure can name.
#[derive(Clone, Copy, Debug, PartialEq, Eq)]
pub enum Operation {
    Diff,
    Status,
    Stage,
    Commit,
    Push,
}

/// The terminal failures of a run.
#[derive(Debug, PartialEq, Eq)]
pub enum ErrorKind {
    /// The working directory is not inside a repository.
    NotARepository,
    /// The credential is missing, or the credential store cannot be written.
    ConfigurationError,
    /// The completion service answered with a non-success status, an
    /// unparseable body, or could not be reached at all.
    RemoteServiceError { status: u16, body: String },
    /// A version-control subprocess exited with a failure.
    SubprocessFailure { operation: Operation },
}

/// The terminal outcome of a run.
#[derive(Debug, PartialEq, Eq)]
pub enum Outcome {
    /// A commit was created; `pushed` says whether it was also published.
    Committed { pushed: bool },
    /// Dry run: the message was printed and nothing was touched.
    DryRun,
    /// The gathered summary was blank; nothing to do.
    NothingToCommit,
    /// A terminal failure.
    Failed(ErrorKind),
}

/// A run succeeds unless it ends in a failure.
pub open spec fn succeeded(outcome: Outcome) -> bool {
    !(outcome matches Outcome::Failed(_))
}

/// The process exit code an outcome reports: zero exactly on success.
pub fn exit_code(outcome: &Outcome) -> (c: i32)
    ensures
        succeeded(*outcome) ==> c == 0,
        !succeeded(*outcome) ==> c == 1,
{
    match outcome {
        Outcome::Failed(_) => 1,
        _ => 0,
    }
}

/// What the single completion attempt came back with.
#[derive(Debug, PartialEq, Eq)]
pub enum CompletionOutcome {
    /// A success status with a parseable body.
    Success(crate::completion::GeminiResponse),
    /// A non-success status, an unparseable body, or no answer at all; the
    /// driver reports the status (zero when none was received) and the body.
    Failure { status: u16, body: String },
}

/// Where the pipeline stands: which operation it awaits the result of.
#[derive(Debug, PartialEq, Eq)]
pub enum Phase {
    /// Awaiting the credential-store write.
    WritingCredential,
    /// Awaiting the is-a-repository check.
    CheckingRepo,
    /// Awaiting the has-history check.
    CheckingHistory,
    /// Awaiting the staged diff.
    ReadingDiff,
    /// Awaiting the status output for the untracked-file summary.
    ReadingStatus,
    /// Awaiting the credential; the gathered summary is kept verbatim.
    ResolvingCredential { summary: String },
    /// Awaiting the completion service's answer.
    AwaitingCompletion,
    /// Awaiting the report of the generated message.
    Reporting { message: String },
    /// Awaiting the staging of the working tree.
    Staging { message: String },
    /// Awaiting the commit.
    Committing,
    /// Awaiting the push.
    Pushing,
    /// The run is over.
    Finished { outcome: Outcome },
}

/// The result of an outside operation, handed back by the driver.
#[derive(Debug, PartialEq, Eq)]
pub enum Event {
    CredentialWritten { ok: bool },
    RepoChecked { ok: bool },
    HistoryChecked { exists: bool },
    DiffRead { ok: bool, text: String },
    StatusRead { ok: bool, text: String },
    CredentialResolved { key: Option<String> },
    CompletionDone { result: CompletionOutcome },
    Reported,
    StageFinished { ok: bool },
    CommitFinished { ok: bool },
    PushFinished { ok: bool },
}

/// The outside operation the driver is to perform next.
#[derive(Debug, PartialEq, Eq)]
pub enum Action {
    /// Persist the credential into the credential store, overwriting.
    WriteCredential { key: String },
    CheckRepo,
    CheckHistory,
    ReadDiff,
    ReadStatus,
    /// Look the credential up in the environment or credential store.
    ResolveCredential,
    /// Send the single completion request.
    SendCompletion { url: String, request: GeminiRequest },
    /// Print the generated message; always precedes any commit action.
    Report { message: String },
    StageAll,
    Commit { message: String },
    Push,
    /// Report the terminal outcome and exit.
    Finish { outcome: Outcome },
}

/// Which event each phase awaits; a finished machine awaits none.
pub open spec fn expects(phase: Phase, event: Event) -> bool {
    match (phase, event) {
        (Phase::WritingCredential, Event::CredentialWritten { .. }) => true,
        (Phase::CheckingRepo, Event::RepoChecked { .. }) => true,
        (Phase::CheckingHistory, Event::HistoryChecked { .. }) => true,
        (Phase::ReadingDiff, Event::DiffRead { .. }) => true,
        (Phase::ReadingStatus, Event::StatusRead { .. }) => true,
        (Phase::ResolvingCredential { .. }, Event::CredentialResolved { .. }) => true,
        (Phase::AwaitingCompletion, Event::CompletionDone { .. }) => true,
        (Phase::Reporting { .. }, Event::Reported) => true,
        (Phase::Staging { .. }, Event::StageFinished { .. }) => true,
        (Phase::Committing, Event::CommitFinished { .. }) => true,
        (Phase::Pushing, Event::PushFinished { .. }) => true,
        _ => false,
    }
}

/// The machine ends the run with the given outcome.
pub open spec fn finished_rel(next: Phase, action: Action, outcome: Outcome) -> bool {
    &&& next == (Phase::Finished { outcome })
    &&& action == (Action::Finish { outcome })
}

/// What follows a gathered summary: a blank summary ends the run with
/// nothing to commit and no completion request is sent; otherwise the summary
/// is kept verbatim and the credential is resolved next.
pub open spec fn summary_rel(summary: Seq<char>, next: Phase, action: Action) -> bool {
    if blank(summary) {
        finished_rel(next, action, Outcome::NothingToCommit)
    } else {
        &&& next matches Phase::ResolvingCredential { summary: s } && s@ == summary
        &&& action == Action::ResolveCredential
    }
}

/// The transition relation of the pipeline: what phase the machine moves to
/// and what action it returns, for each phase and the event it awaits.
pub open spec fn step_rel(
    config: RunConfig,
    phase: Phase,
    event: Event,
    next: Phase,
    action: Action,
) -> bool {
    match (phase, event) {
        (Phase::WritingCredential, Event::CredentialWritten { ok }) => if ok {
            next == Phase::CheckingRepo && action == Action::CheckRepo
        } else {
            finished_rel(next, action, Outcome::Failed(ErrorKind::ConfigurationError))
        },
        (Phase::CheckingRepo, Event::RepoChecked { ok }) => if ok {
            next == Phase::CheckingHistory && action == Action::CheckHistory
        } else {
            finished_rel(next, action, Outcome::Failed(ErrorKind::NotARepository))
        },
        (Phase::CheckingHistory, Event::HistoryChecked { exists }) => if exists {
            next == Phase::ReadingDiff && action == Action::ReadDiff
        } else {
            next == Phase::ReadingStatus && action == Action::ReadStatus
        },
        (Phase::ReadingDiff, Event::DiffRead { ok, text }) => if ok {
            summary_rel(text@, next, action)
        } else {
            finished_rel(
                next,
                action,
                Outcome::Failed(ErrorKind::SubprocessFailure { operation: Operation::Diff }),
            )
        },
        (Phase::ReadingStatus, Event::StatusRead { ok, text }) => if ok {
            summary_rel(untracked_summary_spec(text@), next, action)
        } else {
            finished_rel(
                next,
                action,
                Outcome::Failed(ErrorKind::SubprocessFailure { operation: Operation::Status }),
            )
        },
        (Phase::ResolvingCredential { summary }, Event::CredentialResolved { key }) => match key {
            Some(k) => {
                &&& next == Phase::AwaitingCompletion
                &&& action matches Action::SendCompletion { url, request } && url@ == url_of(k@)
                    && request_shape(rendered(summary@, config.language), request)
            },
            None => finished_rel(next, action, Outcome::Failed(ErrorKind::ConfigurationError)),
        },
        (Phase::AwaitingCompletion, Event::CompletionDone { result }) => match result {
            CompletionOutcome::Success(resp) => {
                &&& next matches Phase::Reporting { message } && message@ == extracted(resp)
                &&& action matches Action::Report { message: m } && m@ == extracted(resp)
            },
            CompletionOutcome::Failure { status, body } => finished_rel(
                next,
                action,
                Outcome::Failed(ErrorKind::RemoteServiceError { status, body }),
            ),
        },
        (Phase::Reporting { message }, Event::Reported) => if config.dry_run {
            finished_rel(next, action, Outcome::DryRun)
        } else {
            &&& next matches Phase::Staging { message: m } && m@ == message@
            &&& action == Action::StageAll
        },
        (Phase::Staging { message }, Event::StageFinished { ok }) => if ok {
            &&& next == Phase::Committing
            &&& action matches Action::Commit { message: m } && m@ == message@
        } else {
            finished_rel(
                next,
                action,
                Outcome::Failed(ErrorKind::SubprocessFailure { operation: Operation::Stage }),
            )
        },
        (Phase::Committing, Event::CommitFinished { ok }) => if !ok {
            finished_rel(
                next,
                action,
                Outcome::Failed(ErrorKind::SubprocessFailure { operation: Operation::Commit }),
            )
        } else if config.push_enabled {
            next == Phase::Pushing && action == Action::Push
        } else {
            finished_rel(next, action, Outcome::Committed { pushed: false })
        },
        (Phase::Pushing, Event::PushFinished { ok }) => if ok {
            finished_rel(next, action, Outcome::Committed { pushed: true })
        } else {
            finished_rel(
                next,
                action,
                Outcome::Failed(ErrorKind::SubprocessFailure { operation: Operation::Push }),
            )
        },
        _ => false,
    }
}

/// The first phase and action of a run: persist an overriding credential
/// first when one is given, else check the repository at once.
pub open spec fn init_rel(config: RunConfig, phase: Phase, action: Action) -> bool {
    match config.credential_override {
        Some(k) => {
            &&& phase == Phase::WritingCredential
            &&& action matches Action::WriteCredential { key } && key@ == k@
        },
        None => phase == Phase::CheckingRepo && action == Action::CheckRepo,
    }
}

/// The pipeline state machine: the run configuration and the current phase.
#[derive(Debug)]
pub struct Orchestrator {
    pub config: RunConfig,
    pub phase: Phase,
}

impl Orchestrator {
    /// Starts a run: returns the machine and the first action to perform.
    pub fn new(config: RunConfig) -> (r: (Orchestrator, Action))
        ensures
            r.0.config == config,
            init_rel(config, r.0.phase, r.1),
    {
        let (phase, action) = match &config.credential_override {
            Some(k) => (Phase::WritingCredential, Action::WriteCredential { key: k.clone() }),
            None => (Phase::CheckingRepo, Action::CheckRepo),
        };
        (Orchestrator { config, phase }, action)
    }

    /// Consumes the result of the awaited operation and returns the next
    /// action, as the transition relation states.
    pub fn step(self, event: Event) -> (r: (Orchestrator, Action))
        requires
            expects(self.phase, event),
        ensures
            r.0.config == self.config,
            step_rel(self.config, self.phase, event, r.0.phase, r.1),
    {
        let Orchestrator { config, phase } = self;
        match (phase, event) {
            (Phase::WritingCredential, Event::CredentialWritten { ok }) => {
                if ok {
                    (Orchestrator { config, phase: Phase::CheckingRepo }, Action::CheckRepo)
                } else {
                    (
                        Orchestrator {
                            config,
                            phase: Phase::Finished {
                                outcome: Outcome::Failed(ErrorKind::ConfigurationError),
                            },
                        },
                        Action::Finish { outcome: Outcome::Failed(ErrorKind::ConfigurationError) },
                    )
                }
            },
            (Phase::CheckingRepo, Event::RepoChecked { ok }) => {
                if ok {
                    (Orchestrator { config, phase: Phase::CheckingHistory }, Action::CheckHistory)
                } else {
                    (
                        Orchestrator {
                            config,
                            phase: Phase::Finished {
                                outcome: Outcome::Failed(ErrorKind::NotARepository),
                            },
                        },
                        Action::Finish { outcome: Outcome::Failed(ErrorKind::NotARepository) },
                    )
                }
            },
            (Phase::CheckingHistory, Event::HistoryChecked { exists }) => {
                if exists {
                    (Orchestrator { config, phase: Phase::ReadingDiff }, Action::ReadDiff)
                } else {
                    (Orchestrator { config, phase: Phase::ReadingStatus }, Action::ReadStatus)
                }
            },
            (Phase::ReadingDiff, Event::DiffRead { ok, text }) => {
                if ok {
                    Self::with_summary(config, text)
                } else {
                    Self::subprocess_failed(config, Operation::Diff)
                }
            },
            (Phase::ReadingStatus, Event::StatusRead { ok, text }) => {
                if ok {
                    let summary = untracked_summary(text.as_str());
                    Self::with_summary(config, summary)
                } else {
                    Self::subprocess_failed(config, Operation::Status)
                }
            },
            (Phase::ResolvingCredential { summary }, Event::CredentialResolved { key }) => {
                match key {
                    Some(k) => {
                        let prompt = render(summary.as_str(), config.language);
                        let url = request_url(k.as_str());
                        let request = make_request(prompt);
                        (
                            Orchestrator { config, phase: Phase::AwaitingCompletion },
                            Action::SendCompletion { url, request },
                        )
                    },
                    None => (
                        Orchestrator {
                            config,
                            phase: Phase::Finished {
                                outcome: Outcome::Failed(ErrorKind::ConfigurationError),
                            },
                        },
                        Action::Finish { outcome: Outcome::Failed(ErrorKind::ConfigurationError) },
                    ),
                }
            },
            (Phase::AwaitingCompletion, Event::CompletionDone { result }) => {
                match result {
                    CompletionOutcome::Success(resp) => {
                        let message = extract_message(&resp);
                        let announced = message.clone();
                        (
                            Orchestrator { config, phase: Phase::Reporting { message } },
                            Action::Report { message: announced },
                        )
                    },
                    CompletionOutcome::Failure { status, body } => {
                        let body_copy = body.clone();
                        (
                            Orchestrator {
                                config,
                                phase: Phase::Finished {
                                    outcome: Outcome::Failed(
                                        ErrorKind::RemoteServiceError { status, body },
                                    ),
                                },
                            },
                            Action::Finish {
                                outcome: Outcome::Failed(
                                    ErrorKind::RemoteServiceError { status, body: body_copy },
                                ),
                            },
                        )
                    },
                }
            },
            (Phase::Reporting { message }, Event::Reported) => {
                if config.dry_run {
                    (
                        Orchestrator {
                            config,
                            phase: Phase::Finished { outcome: Outcome::DryRun },
                        },
                        Action::Finish { outcome: Outcome::DryRun },
                    )
                } else {
                    (Orchestrator { config, phase: Phase::Staging { message } }, Action::StageAll)
                }
            },
            (Phase::Staging { message }, Event::StageFinished { ok }) => {
                if ok {
                    (Orchestrator { config, phase: Phase::Committing }, Action::Commit { message })
                } else {
                    Self::subprocess_failed(config, Operation::Stage)
                }
            },
            (Phase::Committing, Event::CommitFinished { ok }) => {
                if !ok {
                    Self::subprocess_failed(config, Operation::Commit)
                } else if config.push_enabled {
                    (Orchestrator { config, phase: Phase::Pushing }, Action::Push)
                } else {
                    (
                        Orchestrator {
                            config,
                            phase: Phase::Finished {
                                outcome: Outcome::Committed { pushed: false },
                            },
                        },
                        Action::Finish { outcome: Outcome::Committed { pushed: false } },
                    )
                }
            },
            (Phase::Pushing, Event::PushFinished { ok }) => {
                if ok {
                    (
                        Orchestrator {
                            config,
                            phase: Phase::Finished { outcome: Outcome::Committed { pushed: true } },
                        },
                        Action::Finish { outcome: Outcome::Committed { pushed: true } },
                    )
                } else {
                    Self::subprocess_failed(config, Operation::Push)
                }
            },
            _ => vstd::pervasive::unreached(),
        }
    }

    /// Acts on the gathered summary: halt when it is blank, else keep it
    /// verbatim and resolve the credential.
    fn with_summary(config: RunConfig, summary: String) -> (r: (Orchestrator, Action))
        ensures
            r.0.config == config,
            summary_rel(summary@, r.0.phase, r.1),
    {
        if is_blank(summary.as_str()) {
            (
                Orchestrator { config, phase: Phase::Finished { outcome: Outcome::NothingToCommit } },
                Action::Finish { outcome: Outcome::NothingToCommit },
            )
        } else {
            (
                Orchestrator { config, phase: Phase::ResolvingCredential { summary } },
                Action::ResolveCredential,
            )
        }
    }

    /// Ends the run on a failed version-control subprocess.
    fn subprocess_failed(config: RunConfig, operation: Operation) -> (r: (Orchestrator, Action))
        ensures
            r.0.config == config,
            finished_rel(
                r.0.phase,
                r.1,
                Outcome::Failed(ErrorKind::SubprocessFailure { operation }),
            ),
    {
        (
            Orchestrator {
                config,
                phase: Phase::Finished {
                    outcome: Outcome::Failed(ErrorKind::SubprocessFailure { operation }),
                },
            },
            Action::Finish {
                outcome: Outcome::Failed(ErrorKind::SubprocessFailure { operation }),
            },
        )
    }
}

/// A finished machine awaits no further event: every terminal outcome halts
/// the run for good.
pub proof fn lemma_finished_halts(outcome: Outcome, event: Event)
    ensures
        !expects(Phase::Finished { outcome }, event),
{
}

/// A failed repository check ends the run at once with a failure, before any
/// staging, commit or push action, and the machine accepts nothing further.
pub proof fn lemma_failed_repo_check_halts(
    config: RunConfig,
    next: Phase,
    action: Action,
    later: Event,
)
    requires
        step_rel(config, Phase::CheckingRepo, Event::RepoChecked { ok: false }, next, action),
    ensures
        next == (Phase::Finished { outcome: Outcome::Failed(ErrorKind::NotARepository) }),
        action == (Action::Finish { outcome: Outcome::Failed(ErrorKind::NotARepository) }),
        !expects(next, later),
{
}

/// A blank summary ends the run as a success with nothing to commit: no
/// completion request is sent, no commit occurs, and the machine accepts
/// nothing further.
pub proof fn lemma_blank_summary_halts(summary: Seq<char>, next: Phase, action: Action, later: Event)
    requires
        blank(summary),
        summary_rel(summary, next, action),
    ensures
        next == (Phase::Finished { outcome: Outcome::NothingToCommit }),
        action == (Action::Finish { outcome: Outcome::NothingToCommit }),
        succeeded(Outcome::NothingToCommit),
        !expects(next, later),
{
}

/// Under dry run, the run ends as a success right after the message is
/// reported: no staging, commit or push action is ever produced.
pub proof fn lemma_dry_run_halts_after_report(
    config: RunConfig,
    message: String,
    next: Phase,
    action: Action,
    later: Event,
)
    requires
        config.dry_run,
        step_rel(config, Phase::Reporting { message }, Event::Reported, next, action),
    ensures
        next == (Phase::Finished { outcome: Outcome::DryRun }),
        action == (Action::Finish { outcome: Outcome::DryRun }),
        !expects(next, later),
{
}

/// With push disabled, a successful commit ends the run without a push
/// action, and the machine accepts nothing further.
pub proof fn lemma_no_push_after_commit(
    config: RunConfig,
    next: Phase,
    action: Action,
    later: Event,
)
    requires
        !config.push_enabled,
        step_rel(config, Phase::Committing, Event::CommitFinished { ok: true }, next, action),
    ensures
        next == (Phase::Finished { outcome: Outcome::Committed { pushed: false } }),
        action == (Action::Finish { outcome: Outcome::Committed { pushed: false } }),
        !(action matches Action::Push),
        !expects(next, later),
{
}

/// The generated message is reported before anything is touched: a staging
/// action arises only once the report is done, a commit only once staging
/// succeeded, and a push only once the commit succeeded.
pub proof fn lemma_report_precedes_mutation(
    config: RunConfig,
    phase: Phase,
    event: Event,
    next: Phase,
    action: Action,
)
    requires
        step_rel(config, phase, event, next, action),
    ensures
        (action matches Action::StageAll) ==> ((phase matches Phase::Reporting { .. }) && event
            == Event::Reported),
        (action matches Action::Commit { .. }) ==> ((phase matches Phase::Staging { .. }) && event
            == (Event::StageFinished { ok: true })),
        (action matches Action::Push) ==> (phase == Phase::Committing && event
            == (Event::CommitFinished { ok: true })),
{
}

/// Under dry run the mutating phases are never entered: a machine that has
/// not staged never produces a staging, commit or push action, and never
/// moves to a phase that could.
pub proof fn lemma_dry_run_never_mutates(
    config: RunConfig,
    phase: Phase,
    event: Event,
    next: Phase,
    action: Action,
)
    requires
        config.dry_run,
        !(phase matches Phase::Staging { .. }),
        !(phase matches Phase::Committing),
        !(phase matches Phase::Pushing),
        step_rel(config, phase, event, next, action),
    ensures
        !(next matches Phase::Staging { .. }),
        !(next matches Phase::Committing),
        !(next matches Phase::Pushing),
        !(action matches Action::StageAll),
        !(action matches Action::Commit { .. }),
        !(action matches Action::Push),
{
}

/// With push disabled the push phase is never entered and a push action is
/// never produced.
pub proof fn lemma_push_disabled_never_pushes(
    config: RunConfig,
    phase: Phase,
    event: Event,
    next: Phase,
    action: Action,
)
    requires
        !config.push_enabled,
        !(phase matches Phase::Pushing),
        step_rel(config, phase, event, next, action),
    ensures
        !(next matches Phase::Pushing),
        !(action matches Action::Push),
{
}

/// With history and a nonblank staged diff, the summary handed to the prompt
/// builder is the diff, verbatim: the completion request carries the prompt
/// rendered from exactly that text, and the URL carries the credential.
pub proof fn lemma_diff_reaches_prompt_verbatim(
    config: RunConfig,
    text: String,
    key: String,
    next: Phase,
    action: Action,
    next2: Phase,
    action2: Action,
)
    requires
        !blank(text@),
        step_rel(config, Phase::ReadingDiff, Event::DiffRead { ok: true, text }, next, action),
        step_rel(config, next, Event::CredentialResolved { key: Some(key) }, next2, action2),
    ensures
        next2 == Phase::AwaitingCompletion,
        action2 matches Action::SendCompletion { url, request } && url@ == url_of(key@)
            && request_shape(rendered(text@, config.language), request),
{
}

/// Without history, the summary the machine keeps is the untracked-file
/// summary of the status output: one `New file: <path>` line per untracked
/// entry, in status order, and nothing for any other line.
pub proof fn lemma_status_summary_form(
    config: RunConfig,
    text: String,
    next: Phase,
    action: Action,
)
    requires
        !blank(untracked_summary_spec(text@)),
        step_rel(config, Phase::ReadingStatus, Event::StatusRead { ok: true, text }, next, action),
    ensures
        next matches Phase::ResolvingCredential { summary } && summary@ == untracked_summary_spec(
            text@,
        ),
{
}

} // verus!
