use git_ai_commit::completion::Candidate;
use git_ai_commit::completion::ContentText;
use git_ai_commit::completion::GeminiResponse;
use git_ai_commit::completion::PartText;
use git_ai_commit::config::Lang;
use git_ai_commit::config::RunConfig;
use git_ai_commit::orchestrator::Action;
use git_ai_commit::orchestrator::CompletionOutcome;
use git_ai_commit::orchestrator::ErrorKind;
use git_ai_commit::orchestrator::Event;
use git_ai_commit::orchestrator::Operation;
use git_ai_commit::orchestrator::Orchestrator;
use git_ai_commit::orchestrator::Outcome;
use git_ai_commit::orchestrator::Phase;
use git_ai_commit::orchestrator::exit_code;
use git_ai_commit::prompt::build_prompt;

fn config(push_enabled: bool, dry_run: bool) -> RunConfig {
    RunConfig { push_enabled, dry_run, language: Lang::En, credential_override: None }
}

fn response_with(text: &str) -> GeminiResponse {
    GeminiResponse {
        candidates: vec![
            Candidate { content: ContentText { parts: vec![PartText { text: text.to_string() }] } },
        ],
    }
}

#[test]
fn full_run_in_order() {
    // History exists, staged diff "+added line\n", service answers
    // "Add line to file": the message is reported, then stage, commit with
    // that exact message, and push happen in that order.
    let (m, a) = Orchestrator::new(config(true, false));
    assert_eq!(a, Action::CheckRepo);
    let (m, a) = m.step(Event::RepoChecked { ok: true });
    assert_eq!(a, Action::CheckHistory);
    let (m, a) = m.step(Event::HistoryChecked { exists: true });
    assert_eq!(a, Action::ReadDiff);
    let (m, a) = m.step(Event::DiffRead { ok: true, text: "+added line\n".to_string() });
    assert_eq!(a, Action::ResolveCredential);
    let (m, a) = m.step(Event::CredentialResolved { key: Some("KEY".to_string()) });
    match &a {
        Action::SendCompletion { url, request } => {
            assert!(url.ends_with("?key=KEY"));
            // The summary reaches the prompt builder verbatim.
            assert_eq!(request.contents[0].parts[0].text, build_prompt("+added line\n", "en"));
            assert_eq!(request.contents[0].role, "user");
        }
        other => panic!("expected a completion request, got {:?}", other),
    }
    let (m, a) = m.step(Event::CompletionDone {
        result: CompletionOutcome::Success(response_with("Add line to file")),
    });
    assert_eq!(a, Action::Report { message: "Add line to file".to_string() });
    let (m, a) = m.step(Event::Reported);
    assert_eq!(a, Action::StageAll);
    let (m, a) = m.step(Event::StageFinished { ok: true });
    assert_eq!(a, Action::Commit { message: "Add line to file".to_string() });
    let (m, a) = m.step(Event::CommitFinished { ok: true });
    assert_eq!(a, Action::Push);
    let (m, a) = m.step(Event::PushFinished { ok: true });
    assert_eq!(a, Action::Finish { outcome: Outcome::Committed { pushed: true } });
    match m.phase {
        Phase::Finished { outcome } => assert_eq!(exit_code(&outcome), 0),
        other => panic!("expected a finished run, got {:?}", other),
    }
}

#[test]
fn no_history_summarizes_untracked_files() {
    let (m, _) = Orchestrator::new(config(true, false));
    let (m, a) = m.step(Event::RepoChecked { ok: true });
    assert_eq!(a, Action::CheckHistory);
    let (m, a) = m.step(Event::HistoryChecked { exists: false });
    assert_eq!(a, Action::ReadStatus);
    let (m, a) = m.step(Event::StatusRead { ok: true, text: "?? a.txt\n?? b.txt\n".to_string() });
    assert_eq!(a, Action::ResolveCredential);
    match &m.phase {
        Phase::ResolvingCredential { summary } => {
            assert_eq!(summary, "New file: a.txt\nNew file: b.txt");
        }
        other => panic!("expected credential resolution, got {:?}", other),
    }
}

#[test]
fn failed_repo_check_ends_the_run() {
    let (m, a) = Orchestrator::new(config(true, false));
    assert_eq!(a, Action::CheckRepo);
    let (m, a) = m.step(Event::RepoChecked { ok: false });
    assert_eq!(a, Action::Finish { outcome: Outcome::Failed(ErrorKind::NotARepository) });
    match m.phase {
        Phase::Finished { outcome } => assert_eq!(exit_code(&outcome), 1),
        other => panic!("expected a finished run, got {:?}", other),
    }
}

#[test]
fn blank_summary_is_nothing_to_commit() {
    let (m, _) = Orchestrator::new(config(true, false));
    let (m, _) = m.step(Event::RepoChecked { ok: true });
    let (m, _) = m.step(Event::HistoryChecked { exists: true });
    let (m, a) = m.step(Event::DiffRead { ok: true, text: "".to_string() });
    assert_eq!(a, Action::Finish { outcome: Outcome::NothingToCommit });
    match m.phase {
        Phase::Finished { outcome } => assert_eq!(exit_code(&outcome), 0),
        other => panic!("expected a finished run, got {:?}", other),
    }
}

#[test]
fn whitespace_only_summary_is_nothing_to_commit() {
    let (m, _) = Orchestrator::new(config(true, false));
    let (m, _) = m.step(Event::RepoChecked { ok: true });
    let (m, _) = m.step(Event::HistoryChecked { exists: true });
    let (_, a) = m.step(Event::DiffRead { ok: true, text: "  \n\t \n".to_string() });
    assert_eq!(a, Action::Finish { outcome: Outcome::NothingToCommit });
}

#[test]
fn dry_run_stops_after_report() {
    let (m, _) = Orchestrator::new(config(true, true));
    let (m, _) = m.step(Event::RepoChecked { ok: true });
    let (m, _) = m.step(Event::HistoryChecked { exists: true });
    let (m, _) = m.step(Event::DiffRead { ok: true, text: "+x\n".to_string() });
    let (m, _) = m.step(Event::CredentialResolved { key: Some("k".to_string()) });
    let (m, a) = m.step(Event::CompletionDone {
        result: CompletionOutcome::Success(response_with("Tweak x")),
    });
    assert_eq!(a, Action::Report { message: "Tweak x".to_string() });
    let (m, a) = m.step(Event::Reported);
    assert_eq!(a, Action::Finish { outcome: Outcome::DryRun });
    match m.phase {
        Phase::Finished { outcome } => assert_eq!(exit_code(&outcome), 0),
        other => panic!("expected a finished run, got {:?}", other),
    }
}

#[test]
fn no_push_commits_without_pushing() {
    let (m, _) = Orchestrator::new(config(false, false));
    let (m, _) = m.step(Event::RepoChecked { ok: true });
    let (m, _) = m.step(Event::HistoryChecked { exists: true });
    let (m, _) = m.step(Event::DiffRead { ok: true, text: "+x\n".to_string() });
    let (m, _) = m.step(Event::CredentialResolved { key: Some("k".to_string()) });
    let (m, _) = m.step(Event::CompletionDone {
        result: CompletionOutcome::Success(response_with("Tweak x")),
    });
    let (m, a) = m.step(Event::Reported);
    assert_eq!(a, Action::StageAll);
    let (m, a) = m.step(Event::StageFinished { ok: true });
    assert_eq!(a, Action::Commit { message: "Tweak x".to_string() });
    let (_, a) = m.step(Event::CommitFinished { ok: true });
    assert_eq!(a, Action::Finish { outcome: Outcome::Committed { pushed: false } });
}

#[test]
fn credential_override_is_written_first() {
    let c = RunConfig {
        push_enabled: true,
        dry_run: false,
        language: Lang::En,
        credential_override: Some("NEWKEY".to_string()),
    };
    let (m, a) = Orchestrator::new(c);
    assert_eq!(a, Action::WriteCredential { key: "NEWKEY".to_string() });
    let (_, a) = m.step(Event::CredentialWritten { ok: true });
    assert_eq!(a, Action::CheckRepo);
}

#[test]
fn failed_credential_write_ends_the_run() {
    let c = RunConfig {
        push_enabled: true,
        dry_run: false,
        language: Lang::En,
        credential_override: Some("NEWKEY".to_string()),
    };
    let (m, _) = Orchestrator::new(c);
    let (_, a) = m.step(Event::CredentialWritten { ok: false });
    assert_eq!(a, Action::Finish { outcome: Outcome::Failed(ErrorKind::ConfigurationError) });
}

#[test]
fn missing_credential_is_a_configuration_error() {
    let (m, _) = Orchestrator::new(config(true, false));
    let (m, _) = m.step(Event::RepoChecked { ok: true });
    let (m, _) = m.step(Event::HistoryChecked { exists: true });
    let (m, _) = m.step(Event::DiffRead { ok: true, text: "+x\n".to_string() });
    let (m, a) = m.step(Event::CredentialResolved { key: None });
    assert_eq!(a, Action::Finish { outcome: Outcome::Failed(ErrorKind::ConfigurationError) });
    match m.phase {
        Phase::Finished { outcome } => assert_eq!(exit_code(&outcome), 1),
        other => panic!("expected a finished run, got {:?}", other),
    }
}

#[test]
fn remote_failure_carries_status_and_body() {
    let (m, _) = Orchestrator::new(config(true, false));
    let (m, _) = m.step(Event::RepoChecked { ok: true });
    let (m, _) = m.step(Event::HistoryChecked { exists: true });
    let (m, _) = m.step(Event::DiffRead { ok: true, text: "+x\n".to_string() });
    let (m, _) = m.step(Event::CredentialResolved { key: Some("k".to_string()) });
    let (_, a) = m.step(Event::CompletionDone {
        result: CompletionOutcome::Failure { status: 500, body: "boom".to_string() },
    });
    assert_eq!(
        a,
        Action::Finish {
            outcome: Outcome::Failed(ErrorKind::RemoteServiceError {
                status: 500,
                body: "boom".to_string(),
            }),
        }
    );
}

#[test]
fn unexpected_response_shape_falls_back() {
    let (m, _) = Orchestrator::new(config(true, false));
    let (m, _) = m.step(Event::RepoChecked { ok: true });
    let (m, _) = m.step(Event::HistoryChecked { exists: true });
    let (m, _) = m.step(Event::DiffRead { ok: true, text: "+x\n".to_string() });
    let (m, _) = m.step(Event::CredentialResolved { key: Some("k".to_string()) });
    let (_, a) = m.step(Event::CompletionDone {
        result: CompletionOutcome::Success(GeminiResponse { candidates: vec![] }),
    });
    assert_eq!(a, Action::Report { message: "Generated commit message".to_string() });
}

#[test]
fn subprocess_failures_are_terminal() {
    let failed = |op: Operation| Action::Finish {
        outcome: Outcome::Failed(ErrorKind::SubprocessFailure { operation: op }),
    };

    let (m, _) = Orchestrator::new(config(true, false));
    let (m, _) = m.step(Event::RepoChecked { ok: true });
    let (m, _) = m.step(Event::HistoryChecked { exists: true });
    let (_, a) = m.step(Event::DiffRead { ok: false, text: "".to_string() });
    assert_eq!(a, failed(Operation::Diff));

    let (m, _) = Orchestrator::new(config(true, false));
    let (m, _) = m.step(Event::RepoChecked { ok: true });
    let (m, _) = m.step(Event::HistoryChecked { exists: false });
    let (_, a) = m.step(Event::StatusRead { ok: false, text: "".to_string() });
    assert_eq!(a, failed(Operation::Status));

    let run_to_staging = || {
        let (m, _) = Orchestrator::new(config(true, false));
        let (m, _) = m.step(Event::RepoChecked { ok: true });
        let (m, _) = m.step(Event::HistoryChecked { exists: true });
        let (m, _) = m.step(Event::DiffRead { ok: true, text: "+x\n".to_string() });
        let (m, _) = m.step(Event::CredentialResolved { key: Some("k".to_string()) });
        let (m, _) = m.step(Event::CompletionDone {
            result: CompletionOutcome::Success(response_with("Tweak x")),
        });
        let (m, _) = m.step(Event::Reported);
        m
    };

    let (_, a) = run_to_staging().step(Event::StageFinished { ok: false });
    assert_eq!(a, failed(Operation::Stage));

    let (m, _) = run_to_staging().step(Event::StageFinished { ok: true });
    let (_, a) = m.step(Event::CommitFinished { ok: false });
    assert_eq!(a, failed(Operation::Commit));

    let (m, _) = run_to_staging().step(Event::StageFinished { ok: true });
    let (m, _) = m.step(Event::CommitFinished { ok: true });
    let (_, a) = m.step(Event::PushFinished { ok: false });
    assert_eq!(a, failed(Operation::Push));
}
