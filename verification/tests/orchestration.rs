//! Tests for job planning (the cross product) and ordered fan-in.

use rust_multi_command::command::CommandSpec;
use rust_multi_command::job::{
    ExecutionReference, JobResult, JobState, Outcome, StageEvent,
};
use rust_multi_command::orchestrate::{build_job_list, collect_in_spawn_order, plan_all};
use rust_multi_command::report::report_lines;

fn command(label: &str, run: &str) -> CommandSpec {
    CommandSpec {
        label: label.to_string(),
        prepare: Some(vec![vec!["make".to_string(), "setup".to_string()]]),
        run: vec![run.to_string()],
    }
}

#[test]
fn cross_product_has_m_times_n_jobs_in_declaration_order() {
    let commands = vec![command("a", "run-a"), command("b", "run-b")];
    let repositories = vec![
        "r0".to_string(),
        "r1".to_string(),
        "r2".to_string(),
    ];
    let details = build_job_list(&commands, &repositories);
    assert_eq!(details.len(), 6);
    // Commands outer, repositories inner.
    let expected = [
        ("a", "run-a", "r0"),
        ("a", "run-a", "r1"),
        ("a", "run-a", "r2"),
        ("b", "run-b", "r0"),
        ("b", "run-b", "r1"),
        ("b", "run-b", "r2"),
    ];
    for (d, (label, run, repo)) in details.iter().zip(expected.iter()) {
        assert_eq!(d.label, *label);
        assert_eq!(d.command, vec![run.to_string()]);
        assert_eq!(d.repository, *repo);
        assert_eq!(
            d.prepare,
            Some(vec![vec!["make".to_string(), "setup".to_string()]])
        );
    }
}

#[test]
fn planned_jobs_are_fresh_and_own_distinct_workspaces() {
    let commands = vec![command("a", "run-a")];
    let repositories = vec!["r0".to_string(), "r1".to_string()];
    let credential = Some("/home/user/.ssh/key".to_string());
    let jobs = plan_all("/work", &commands, &repositories, &credential);
    assert_eq!(jobs.len(), 2);
    for job in jobs.iter() {
        assert_eq!(job.state, JobState::Created);
        // A fresh hyphenated identifier names the workspace folder; were
        // the identifier source to hand back something empty or fixed,
        // this would fail.
        assert_eq!(job.folder.len(), 36);
        assert_eq!(job.path, format!("/work/{}", job.folder));
        assert_eq!(job.credential, credential);
    }
    assert_ne!(jobs[0].folder, jobs[1].folder);
    assert_eq!(jobs[0].execution.repository, "r0");
    assert_eq!(jobs[1].execution.repository, "r1");
}

fn run_to_success(mut job: ExecutionReference, elapsed_ms: u64) -> JobResult {
    job.host(StageEvent::WorkspaceCreated);
    job.clone(StageEvent::Fetched);
    job.prepare(StageEvent::Prepared);
    job.execute(StageEvent::Executed { elapsed_ms });
    job.cleanup(StageEvent::CleanedUp);
    job.finish()
}

#[test]
fn one_command_two_repositories_report_in_repository_order() {
    let commands = vec![command("a", "bench")];
    let repositories = vec!["repo-a".to_string(), "repo-b".to_string()];
    let jobs = plan_all("/work", &commands, &repositories, &None);
    let mut results_by_completion: Vec<(usize, JobResult)> = Vec::new();
    // The second job happens to finish first.
    for (spawn_index, job) in jobs.into_iter().enumerate().rev() {
        let elapsed = 10 + spawn_index as u64;
        results_by_completion.push((spawn_index, run_to_success(job, elapsed)));
    }
    let ordered = collect_in_spawn_order(2, results_by_completion);
    let lines = report_lines(&ordered);
    assert_eq!(lines.len(), 2);
    // Both succeeded, and the lines follow repository declaration order,
    // not completion order.
    assert!(lines[0].ends_with(" 10 a repo-a"));
    assert!(lines[1].ends_with(" 11 a repo-b"));
}

fn mk_result(tag: u64) -> JobResult {
    JobResult {
        workspace_id: format!("ws-{}", tag),
        label: "bench".to_string(),
        repository: format!("repo-{}", tag),
        outcome: Outcome::Success { elapsed_ms: tag },
        cleanup_failed: false,
    }
}

#[test]
fn report_order_is_invariant_under_completion_order() {
    // The same three results delivered in two different completion
    // orders collect to identical reports.
    let d1 = vec![(2usize, mk_result(2)), (0, mk_result(0)), (1, mk_result(1))];
    let d2 = vec![(0usize, mk_result(0)), (1, mk_result(1)), (2, mk_result(2))];
    let out1 = collect_in_spawn_order(3, d1);
    let out2 = collect_in_spawn_order(3, d2);
    let lines1 = report_lines(&out1);
    let lines2 = report_lines(&out2);
    assert_eq!(lines1, lines2);
    assert_eq!(lines1[0], "ws-0 0 bench repo-0");
    assert_eq!(lines1[1], "ws-1 1 bench repo-1");
    assert_eq!(lines1[2], "ws-2 2 bench repo-2");
}

#[test]
fn empty_repository_list_yields_no_jobs() {
    let commands = vec![command("a", "bench")];
    let repositories: Vec<String> = Vec::new();
    let details = build_job_list(&commands, &repositories);
    assert!(details.is_empty());
}
