use git_ai_commit::completion::Candidate;
use git_ai_commit::completion::ContentText;
use git_ai_commit::completion::GeminiResponse;
use git_ai_commit::completion::PartText;
use git_ai_commit::completion::extract_message;
use git_ai_commit::completion::make_request;
use git_ai_commit::completion::request_url;
use git_ai_commit::config::Cli;
use git_ai_commit::config::Lang;
use git_ai_commit::orchestrator::ErrorKind;
use git_ai_commit::orchestrator::Outcome;
use git_ai_commit::orchestrator::exit_code;
use git_ai_commit::prompt::build_prompt;
use git_ai_commit::status::untracked_summary;

fn response_with(text: &str) -> GeminiResponse {
    GeminiResponse {
        candidates: vec![
            Candidate { content: ContentText { parts: vec![PartText { text: text.to_string() }] } },
        ],
    }
}

#[test]
fn build_prompt_languages_differ() {
    let s = "diff --git a/x b/x";
    assert_ne!(build_prompt(s, "en"), build_prompt(s, "ru"));
}

#[test]
fn build_prompt_is_deterministic() {
    let s = "+added line\n";
    assert_eq!(build_prompt(s, "en"), build_prompt(s, "en"));
    assert_eq!(build_prompt(s, "ru"), build_prompt(s, "ru"));
}

#[test]
fn build_prompt_defaults_to_english() {
    let s = "+line\n";
    assert_eq!(build_prompt(s, "de"), build_prompt(s, "en"));
    assert_eq!(build_prompt(s, ""), build_prompt(s, "en"));
    assert_ne!(build_prompt(s, "ru"), build_prompt(s, "en"));
}

#[test]
fn build_prompt_appends_summary_verbatim() {
    let s = "+added line\n-removed line\n";
    let p = build_prompt(s, "en");
    assert!(p.ends_with(s));
    assert!(p.contains("Here are the changes:"));
    let r = build_prompt(s, "ru");
    assert!(r.ends_with(s));
}

#[test]
fn untracked_summary_two_files() {
    assert_eq!(
        untracked_summary("?? a.txt\n?? b.txt\n"),
        "New file: a.txt\nNew file: b.txt"
    );
}

#[test]
fn untracked_summary_ignores_tracked_lines() {
    assert_eq!(
        untracked_summary(" M src/main.rs\n?? notes.md\nA  staged.rs\n"),
        "New file: notes.md"
    );
}

#[test]
fn untracked_summary_empty_status() {
    assert_eq!(untracked_summary(""), "");
    assert_eq!(untracked_summary(" M a\nA  b\n"), "");
}

#[test]
fn untracked_summary_short_line_is_not_untracked() {
    assert_eq!(untracked_summary("??\n"), "");
}

#[test]
fn untracked_summary_strips_carriage_returns() {
    assert_eq!(untracked_summary("?? a.txt\r\n?? b.txt\r\n"), "New file: a.txt\nNew file: b.txt");
}

#[test]
fn extract_message_trims_candidate_text() {
    let resp = response_with("  Add feature \n");
    assert_eq!(extract_message(&resp), "Add feature");
}

#[test]
fn extract_message_fallback_without_candidates() {
    let resp = GeminiResponse { candidates: vec![] };
    assert_eq!(extract_message(&resp), "Generated commit message");
}

#[test]
fn extract_message_fallback_without_parts() {
    let resp = GeminiResponse {
        candidates: vec![Candidate { content: ContentText { parts: vec![] } }],
    };
    assert_eq!(extract_message(&resp), "Generated commit message");
}

#[test]
fn exit_codes() {
    assert_eq!(exit_code(&Outcome::Committed { pushed: true }), 0);
    assert_eq!(exit_code(&Outcome::Committed { pushed: false }), 0);
    assert_eq!(exit_code(&Outcome::DryRun), 0);
    assert_eq!(exit_code(&Outcome::NothingToCommit), 0);
    assert_eq!(exit_code(&Outcome::Failed(ErrorKind::NotARepository)), 1);
    assert_eq!(exit_code(&Outcome::Failed(ErrorKind::ConfigurationError)), 1);
}

#[test]
fn cli_turns_into_config() {
    let cli = Cli {
        no_push: true,
        dry_run: false,
        lang: "ru".to_string(),
        with_api: Some("k".to_string()),
    };
    let c = cli.into_config();
    assert!(!c.push_enabled);
    assert!(!c.dry_run);
    assert_eq!(c.language, Lang::Ru);
    assert_eq!(c.credential_override, Some("k".to_string()));

    let cli = Cli { no_push: false, dry_run: true, lang: "en".to_string(), with_api: None };
    let c = cli.into_config();
    assert!(c.push_enabled);
    assert!(c.dry_run);
    assert_eq!(c.language, Lang::En);
    assert_eq!(c.credential_override, None);

    let cli = Cli { no_push: false, dry_run: false, lang: "xx".to_string(), with_api: None };
    assert_eq!(cli.into_config().language, Lang::En);
}

#[test]
fn request_carries_prompt_as_single_user_turn() {
    let req = make_request("hello".to_string());
    assert_eq!(req.contents.len(), 1);
    assert_eq!(req.contents[0].role, "user");
    assert_eq!(req.contents[0].parts.len(), 1);
    assert_eq!(req.contents[0].parts[0].text, "hello");
}

#[test]
fn request_url_appends_credential() {
    let u = request_url("SECRET");
    assert_eq!(
        u,
        "https://generativelanguage.googleapis.com/v1beta/models/gemini-2.0-flash:generateContent?key=SECRET"
    );
}
