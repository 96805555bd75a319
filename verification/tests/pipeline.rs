//! Scenario tests for the per-job pipeline state machine.

use rust_multi_command::cleanup::CleanupRetry;
use rust_multi_command::command::CommandDetail;
use rust_multi_command::job::{
    ExecutionReference, JobAction, JobState, Outcome, Stage, StageEvent,
};
use rust_multi_command::preparer::Preparer;
use rust_multi_command::report::report_line;

fn detail(repository: &str, label: &str) -> CommandDetail {
    CommandDetail {
        label: label.to_string(),
        prepare: None,
        repository: repository.to_string(),
        command: vec!["cargo".to_string(), "bench".to_string()],
    }
}

#[test]
fn workspace_preexists_fails_immediately() {
    let mut job = ExecutionReference::new("/work", "ws-1", detail("url", "bench"));
    assert_eq!(job.pending_action(), Some(JobAction::CreateWorkspace));
    job.host(StageEvent::WorkspaceFailed {
        cause: "directory already exists".to_string(),
    });
    // No workspace was created, so no teardown is owed and fetch never runs.
    assert_eq!(job.pending_action(), Some(JobAction::Finish));
    assert!(!job.workspace_exists);
    let r = job.finish();
    match &r.outcome {
        Outcome::Failure { stage, cause, .. } => {
            assert_eq!(*stage, Stage::Workspace);
            assert_eq!(cause, "directory already exists");
        }
        _ => panic!("expected a workspace failure"),
    }
    assert!(!r.cleanup_failed);
}

#[test]
fn invalid_url_clone_error_reports_sentinel_and_removes_workspace() {
    let mut job = ExecutionReference::new("/work", "ws-2", detail("not a url", "bench"));
    job.host(StageEvent::WorkspaceCreated);
    assert_eq!(job.pending_action(), Some(JobAction::Fetch));
    job.clone(StageEvent::FetchFailed {
        cause: "invalid URL".to_string(),
    });
    // Only teardown remains after a fetch failure.
    assert_eq!(job.pending_action(), Some(JobAction::RemoveWorkspace));
    job.cleanup(StageEvent::CleanedUp);
    assert!(!job.workspace_exists);
    assert_eq!(job.pending_action(), Some(JobAction::Finish));
    let r = job.finish();
    match &r.outcome {
        Outcome::Failure { stage, cause, .. } => {
            assert_eq!(*stage, Stage::Fetch);
            assert_eq!(cause, "invalid URL");
        }
        _ => panic!("expected a clone failure"),
    }
    assert!(!r.cleanup_failed);
    let line = report_line(&r);
    assert_eq!(line, "ws-2 FAILED bench not a url");
}

#[test]
fn success_path_times_and_removes_workspace() {
    let mut job = ExecutionReference::new("/work", "ws-3", detail("url", "bench"));
    job.host(StageEvent::WorkspaceCreated);
    job.clone(StageEvent::Fetched);
    assert_eq!(job.pending_action(), Some(JobAction::RunPrepare));
    job.prepare(StageEvent::Prepared);
    assert_eq!(job.pending_action(), Some(JobAction::RunBenchmark));
    job.execute(StageEvent::Executed { elapsed_ms: 42 });
    assert_eq!(job.pending_action(), Some(JobAction::RemoveWorkspace));
    job.cleanup(StageEvent::CleanedUp);
    assert_eq!(job.state, JobState::TornDown);
    assert!(!job.workspace_exists);
    let r = job.finish();
    match r.outcome {
        Outcome::Success { elapsed_ms } => assert_eq!(elapsed_ms, 42),
        _ => panic!("expected success"),
    }
    assert!(!r.cleanup_failed);
    assert_eq!(job.pending_action(), None);
}

#[test]
fn cleanup_failure_after_success_is_surfaced() {
    let mut job = ExecutionReference::new("/work", "ws-4", detail("url", "bench"));
    job.host(StageEvent::WorkspaceCreated);
    job.clone(StageEvent::Fetched);
    job.prepare(StageEvent::Prepared);
    job.execute(StageEvent::Executed { elapsed_ms: 7 });
    job.cleanup(StageEvent::CleanupFailed {
        cause: "directory locked".to_string(),
    });
    // The workspace is still on disk; the result must say so.
    assert!(job.workspace_exists);
    let r = job.finish();
    assert!(r.cleanup_failed);
    match &r.outcome {
        Outcome::Failure { stage, .. } => assert_eq!(*stage, Stage::Cleanup),
        _ => panic!("expected a cleanup failure"),
    }
}

#[test]
fn cleanup_failure_does_not_override_earlier_failure() {
    let mut job = ExecutionReference::new("/work", "ws-5", detail("url", "bench"));
    job.host(StageEvent::WorkspaceCreated);
    job.clone(StageEvent::Fetched);
    job.prepare(StageEvent::PrepareFailed {
        step: 1,
        cause: "exit status 2".to_string(),
    });
    assert_eq!(job.pending_action(), Some(JobAction::RemoveWorkspace));
    job.cleanup(StageEvent::CleanupFailed {
        cause: "directory locked".to_string(),
    });
    let r = job.finish();
    // The original cause stands; the teardown failure is attached besides.
    match &r.outcome {
        Outcome::Failure { stage, step, cause } => {
            assert_eq!(*stage, Stage::Prepare);
            assert_eq!(*step, Some(1));
            assert_eq!(cause, "exit status 2");
        }
        _ => panic!("expected a prepare failure"),
    }
    assert!(r.cleanup_failed);
}

#[test]
fn execute_spawn_failure_is_its_own_stage() {
    let mut job = ExecutionReference::new("/work", "ws-6", detail("url", "bench"));
    job.host(StageEvent::WorkspaceCreated);
    job.clone(StageEvent::Fetched);
    job.prepare(StageEvent::Prepared);
    job.execute(StageEvent::ExecuteFailed {
        cause: "no such program".to_string(),
    });
    job.cleanup(StageEvent::CleanedUp);
    let r = job.finish();
    match &r.outcome {
        Outcome::Failure { stage, .. } => assert_eq!(*stage, Stage::Execute),
        _ => panic!("expected an execute failure"),
    }
}

#[test]
fn transient_cleanup_retry_leaves_outcome_unaffected() {
    // Removal fails twice and succeeds on the third attempt, under a cap
    // of five; the job still reports its original outcome.
    let mut retry = CleanupRetry::new(5, 1000);
    let mut failures_left = 2;
    let mut removed = false;
    while retry.should_attempt() {
        if failures_left > 0 {
            failures_left -= 1;
            retry.record(false);
        } else {
            removed = true;
            retry.record(true);
        }
    }
    assert!(removed);
    assert_eq!(retry.attempts, 3);
    assert!(retry.done());
    assert!(!retry.exhausted());

    let mut job = ExecutionReference::new("/work", "ws-7", detail("url", "bench"));
    job.host(StageEvent::WorkspaceCreated);
    job.clone(StageEvent::Fetched);
    job.prepare(StageEvent::Prepared);
    job.execute(StageEvent::Executed { elapsed_ms: 99 });
    job.cleanup(StageEvent::CleanedUp);
    let r = job.finish();
    match r.outcome {
        Outcome::Success { elapsed_ms } => assert_eq!(elapsed_ms, 99),
        _ => panic!("expected success despite retried cleanup"),
    }
    assert!(!r.cleanup_failed);
}

#[test]
fn cleanup_retry_exhausts_at_cap() {
    let mut retry = CleanupRetry::new(2, 10);
    assert!(retry.should_attempt());
    retry.record(false);
    assert!(retry.should_attempt());
    retry.record(false);
    assert!(!retry.should_attempt());
    assert!(retry.done());
    assert!(retry.exhausted());
}

#[test]
fn preparer_runs_steps_in_order_and_stops_at_first_failure() {
    let mut p = Preparer::new(3);
    assert_eq!(p.next_step(), Some(0));
    p.record(true);
    assert_eq!(p.next_step(), Some(1));
    p.record(false);
    // Fail-fast: the remaining step never runs.
    assert_eq!(p.next_step(), None);
    assert!(p.done());
    assert_eq!(p.failed_step(), Some(1));
}

#[test]
fn preparer_empty_list_is_a_noop_success() {
    let p = Preparer::new(0);
    assert_eq!(p.next_step(), None);
    assert!(p.done());
    assert_eq!(p.failed_step(), None);
}
