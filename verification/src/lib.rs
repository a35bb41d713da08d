//! Verified core of a commit-message generation pipeline.
//!
//! The library models the whole run as an explicit state machine: inspect the
//! repository, gather a change summary (a staged diff, or a list of untracked
//! files when no history exists), render a prompt for a remote completion
//! service, extract the generated message, and sequence the stage, commit and
//! push steps under the dry-run and no-push policies. All subprocess, network
//! and file work is performed by an unverified driver that feeds results back
//! in as events; every decision the pipeline takes is verified here.

pub mod config;
pub mod text;
pub mod prompt;
pub mod status;
pub mod completion;
pub mod orchestrator;
