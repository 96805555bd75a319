//! Tests for the fetch progress protocol and the report formatting.

use rust_multi_command::job::{JobResult, Outcome, Stage};
use rust_multi_command::progress::{parse_progress_counts, Phase, ProgressTracker};
use rust_multi_command::report::{report_line, u64_to_string};

#[test]
fn phase_switches_exactly_once_when_received_reaches_total() {
    let mut tracker = ProgressTracker::new();
    let observations = [
        (0u64, 10u64),
        (4, 10),
        (9, 10),
        (10, 10),
        (10, 10),
        (10, 10),
    ];
    let mut phases = Vec::new();
    for (received, total) in observations {
        let ev = tracker.observe(received, total, 0, 5);
        phases.push(ev.phase);
    }
    let transitions = phases
        .windows(2)
        .filter(|w| w[0] == Phase::Transferring && w[1] == Phase::CheckingOut)
        .count();
    assert_eq!(transitions, 1);
    // The switch happens precisely at the first report with received ==
    // total, and never reverts.
    assert_eq!(
        phases,
        vec![
            Phase::Transferring,
            Phase::Transferring,
            Phase::Transferring,
            Phase::CheckingOut,
            Phase::CheckingOut,
            Phase::CheckingOut,
        ]
    );
}

#[test]
fn transfer_events_carry_object_counts() {
    let mut tracker = ProgressTracker::new();
    let ev = tracker.observe(3, 10, 0, 5);
    assert_eq!(ev.phase, Phase::Transferring);
    assert_eq!(ev.current, 3);
    assert_eq!(ev.total, 10);
}

#[test]
fn checkout_events_carry_file_counts() {
    let mut tracker = ProgressTracker::new();
    let ev = tracker.observe(10, 10, 2, 5);
    assert_eq!(ev.phase, Phase::CheckingOut);
    assert_eq!(ev.current, 2);
    assert_eq!(ev.total, 5);
}

#[test]
fn empty_transfer_checks_out_immediately() {
    let mut tracker = ProgressTracker::new();
    let ev = tracker.observe(0, 0, 0, 0);
    assert_eq!(ev.phase, Phase::CheckingOut);
}

#[test]
fn progress_counts_come_from_the_final_group() {
    assert_eq!(
        parse_progress_counts(
            "Receiving objects:  45% (450/1000), 2.30 MiB | 1.20 MiB/s".as_bytes()
        ),
        Some((450, 1000))
    );
    assert_eq!(
        parse_progress_counts("Resolving deltas: 100% (3/3), done.".as_bytes()),
        Some((3, 3))
    );
    // The last parenthesized group decides.
    assert_eq!(
        parse_progress_counts("(1/2) then (30/40)".as_bytes()),
        Some((30, 40))
    );
}

#[test]
fn progress_counts_need_a_complete_group() {
    assert_eq!(parse_progress_counts(b"no counts here"), None);
    assert_eq!(parse_progress_counts(b"(12/)"), None);
    assert_eq!(parse_progress_counts(b"(/34)"), None);
    assert_eq!(parse_progress_counts(b"(12 of 34)"), None);
    assert_eq!(parse_progress_counts(b"unclosed (12/34"), None);
    assert_eq!(parse_progress_counts(b"(18446744073709551616/1)"), None);
}

#[test]
fn decimal_rendering_is_exact() {
    assert_eq!(u64_to_string(0), "0");
    assert_eq!(u64_to_string(7), "7");
    assert_eq!(u64_to_string(10), "10");
    assert_eq!(u64_to_string(1234), "1234");
    assert_eq!(u64_to_string(u64::MAX), "18446744073709551615");
}

#[test]
fn success_line_lists_id_duration_label_repository() {
    let r = JobResult {
        workspace_id: "ws".to_string(),
        label: "warm cache".to_string(),
        repository: "https://example.invalid/repo".to_string(),
        outcome: Outcome::Success { elapsed_ms: 1500 },
        cleanup_failed: false,
    };
    assert_eq!(
        report_line(&r),
        "ws 1500 warm cache https://example.invalid/repo"
    );
}

#[test]
fn failure_line_uses_the_sentinel() {
    let r = JobResult {
        workspace_id: "ws".to_string(),
        label: "warm cache".to_string(),
        repository: "url".to_string(),
        outcome: Outcome::Failure {
            stage: Stage::Fetch,
            step: None,
            cause: "network unreachable".to_string(),
        },
        cleanup_failed: false,
    };
    let line = report_line(&r);
    assert_eq!(line, "ws FAILED warm cache url");
    // The sentinel is no decimal numeral, so it cannot collide with a
    // real duration.
    assert!(line.split(' ').nth(1).unwrap().parse::<u64>().is_err());
}
