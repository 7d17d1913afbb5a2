//! Exit codes of runs.

use procguard::process::{RawExitStatus, ResourceUsage};
use procguard::runner::{HookResult, RunResult, TimeoutReason};
use procguard::signal::Signal;

#[test]
fn test_run_result_exit_code_timeout() {
    let result = RunResult::TimedOut {
        signal: Signal::SIGTERM,
        killed: false,
        status: None,
        rusage: None,
        hook: None,
        reason: TimeoutReason::WallClock,
    };

    assert_eq!(result.exit_code(false, 124), 124);
    assert_eq!(result.exit_code(true, 124), 143);
}

#[test]
fn test_run_result_exit_code_killed() {
    let result = RunResult::TimedOut {
        signal: Signal::SIGTERM,
        killed: true,
        status: None,
        rusage: None,
        hook: None,
        reason: TimeoutReason::WallClock,
    };

    assert_eq!(result.exit_code(false, 124), 124);
    assert_eq!(result.exit_code(true, 124), 137);
}

#[test]
fn test_custom_timeout_exit_code() {
    let result = RunResult::TimedOut {
        signal: Signal::SIGTERM,
        killed: false,
        status: None,
        rusage: None,
        hook: None,
        reason: TimeoutReason::WallClock,
    };

    assert_eq!(result.exit_code(false, 42), 42);
    assert_eq!(result.exit_code(false, 0), 0);
}

fn usage(max_rss_kb: u64) -> ResourceUsage {
    ResourceUsage { user_time_ms: 3, system_time_ms: 4, max_rss_kb }
}

#[test]
fn completed_command_gives_its_own_code() {
    let completed = |raw: i32| RunResult::Completed {
        status: RawExitStatus::from_raw(raw),
        rusage: usage(100),
    };
    assert_eq!(completed(0).exit_code(false, 124), 0);
    assert_eq!(completed(42 << 8).exit_code(false, 124), 42);
    assert_eq!(completed(255 << 8).exit_code(true, 1), 255);
    /* killed by SIGKILL */
    assert_eq!(completed(9).exit_code(false, 124), 137);
    /* killed by SIGXCPU, with a core */
    assert_eq!(completed(24 | 0x80).exit_code(false, 124), 152);
    /* stopped: neither */
    assert_eq!(completed(0x7f | (17 << 8)).exit_code(false, 124), 1);
}

#[test]
fn stopped_command_gives_its_status_where_it_is_known() {
    let result = RunResult::TimedOut {
        signal: Signal::SIGTERM,
        killed: true,
        status: Some(RawExitStatus::from_raw(7 << 8)),
        rusage: Some(usage(1)),
        hook: Some(HookResult::default()),
        reason: TimeoutReason::StdinIdle,
    };
    assert_eq!(result.exit_code(true, 124), 7);
    assert_eq!(result.exit_code(false, 99), 99);
}

#[test]
fn memory_limit_gives_the_code_of_a_timeout() {
    let result = RunResult::MemoryLimitExceeded {
        signal: Signal::SIGINT,
        killed: false,
        status: None,
        rusage: None,
        limit_bytes: 10,
        actual_bytes: 11,
    };
    assert_eq!(result.exit_code(false, 124), 124);
    assert_eq!(result.exit_code(true, 124), 130);
}

#[test]
fn forwarded_signal_ignores_the_timeout_code() {
    let result =
        RunResult::SignalForwarded { signal: Signal::SIGHUP, status: None, rusage: None };
    assert_eq!(result.exit_code(false, 124), 129);
    assert_eq!(result.exit_code(true, 124), 129);
    let result = RunResult::SignalForwarded {
        signal: Signal::SIGHUP,
        status: Some(RawExitStatus::from_raw(5 << 8)),
        rusage: None,
    };
    assert_eq!(result.exit_code(false, 124), 5);
}

#[test]
fn resource_usage_is_given_where_it_is_known() {
    let completed =
        RunResult::Completed { status: RawExitStatus::from_raw(0), rusage: usage(77) };
    assert_eq!(completed.resource_usage().map(|u| u.max_rss_kb), Some(77));
    let forwarded =
        RunResult::SignalForwarded { signal: Signal::SIGHUP, status: None, rusage: None };
    assert!(forwarded.resource_usage().is_none());
    let forwarded = RunResult::SignalForwarded {
        signal: Signal::SIGHUP,
        status: None,
        rusage: Some(usage(5)),
    };
    assert_eq!(forwarded.resource_usage(), Some(&usage(5)));
}

#[test]
fn wait_status_is_an_exit_or_a_signal() {
    let exited = RawExitStatus::from_raw(3 << 8);
    assert_eq!(exited.code(), Some(3));
    assert_eq!(exited.signal(), None);
    let killed = RawExitStatus::from_raw(15);
    assert_eq!(killed.code(), None);
    assert_eq!(killed.signal(), Some(15));
    let stopped = RawExitStatus::from_raw(0x7f | (19 << 8));
    assert_eq!(stopped.code(), None);
    assert_eq!(stopped.signal(), None);
}

#[test]
fn reason_defaults_to_the_wall_clock() {
    assert_eq!(TimeoutReason::default(), TimeoutReason::WallClock);
    assert!(!HookResult::default().ran);
}
