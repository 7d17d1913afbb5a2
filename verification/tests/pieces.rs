//! The pieces that runs are made of, one by one.

use procguard::args::Confine;
use procguard::attempts::{AttemptResult, Attempts, MAX_RETRIES};
use procguard::config::RunConfig;
use procguard::error::{InternalError, SpawnError, TimeoutError};
use procguard::forwarding::{
    cleanup_signal_forwarding, setup_signal_forwarding, CleanupAction, CleanupEvent, SetupAction,
    SetupEvent,
};
use procguard::hook::{
    expand_hook, hook_request, HookAction, HookEvent, HookRun, HookWait, HookWaitAction,
    HookWaitEvent, HookWaitResult,
};
use procguard::kqueue::{
    read_signal_from_pipe, signal_handler, stdin_poll_status, watch_exit, watch_read, watch_timer,
    KernelEvent, StdinPollResult, EVFILT_PROC, EVFILT_READ, EVFILT_TIMER, EV_ADD, EV_DELETE,
    EV_EOF, EV_ERROR,
};
use procguard::monitor::{Monitor, MonitorAction, MonitorEvent};
use procguard::notice::{HookError, Notice};
use procguard::outcome::{RunResult, TimeoutReason};
use procguard::process::{RawExitStatus, ResourceUsage};
use procguard::retry::{retry_delay, run_with_retry, RetryAction, RetryEvent};
use procguard::send::{send_signal, SendAction};
use procguard::signal::Signal;
use procguard::text::{parse_u32, text_with_signed};
use procguard::throttle::{CpuThrottleConfig, CpuThrottleState};
use procguard::time::{
    advance_ns, deadline_reached, duration_ms, duration_to_ns, elapsed_ms, elapsed_ns,
    remaining_ns, saturating_mul, time_to_idle_timeout, Duration, MAX_TIMER_NS,
};
use procguard::wait::{
    HeartbeatConfig, MemoryLimitConfig, StdinMode, StdinTimeoutConfig, ThrottleTiming, Wait,
    WaitAction, WaitEvent, WaitResult, WaitSetup,
};

const USAGE: ResourceUsage = ResourceUsage { user_time_ms: 1, system_time_ms: 2, max_rss_kb: 3 };

/* Time. */

#[test]
fn durations_become_timers() {
    assert_eq!(duration_to_ns(Duration::from_millis(1500)), 1_500_000_000);
    assert_eq!(duration_to_ns(Duration::from_secs(u64::MAX)), MAX_TIMER_NS);
    assert_eq!(duration_ms(Duration::from_millis(1500)), 1500);
    assert_eq!(duration_ms(Duration::from_secs(u64::MAX)), u64::MAX);
    assert_eq!(Duration::from_nanos(2_000_999_999).unwrap().subsec_millis(), 0);
    assert_eq!(duration_ms(Duration::from_nanos(2_001_999_999).unwrap()), 2001);
    assert!(Duration::from_nanos(u128::MAX).is_none());
    assert!(Duration::from_millis(1001).longer_than(&Duration::from_secs(1)));
    assert!(!Duration::from_secs(1).longer_than(&Duration::from_secs(1)));
}

#[test]
fn instants_do_not_wrap() {
    assert_eq!(advance_ns(5, 7), 12);
    assert_eq!(advance_ns(u64::MAX - 1, 7), u64::MAX);
    assert!(deadline_reached(7, 7) && !deadline_reached(6, 7));
    assert_eq!(remaining_ns(3, 10), 7);
    assert_eq!(remaining_ns(11, 10), 0);
    assert_eq!(elapsed_ns(3, 10), Some(7));
    assert_eq!(elapsed_ns(10, 3), None);
    assert_eq!(elapsed_ms(1_000_000, 3_999_999), 2);
    assert_eq!(elapsed_ms(10, 3), 0);
    assert_eq!(time_to_idle_timeout(100, 130, 50), Some(20));
    assert_eq!(time_to_idle_timeout(100, 151, 50), Some(0));
    assert_eq!(time_to_idle_timeout(100, 99, 50), None);
    assert_eq!(saturating_mul(1 << 40, 1 << 40), u64::MAX);
    assert_eq!(saturating_mul(6, 7), 42);
}

/* Sending. */

#[test]
fn test_send_signal_to_nonexistent_process() {
    let fake_pid = 99999i32;
    let (sending, action) = send_signal(fake_pid, Signal::SIGTERM, true);
    assert!(matches!(action, SendAction::Kill { pid: 99999, number: 15 }));
    /* no such process */
    let (_, action) = sending.step(-1, libc::ESRCH);
    match action {
        SendAction::Return(result) => {
            assert!(result.is_ok(), "ESRCH should be handled gracefully");
        }
        _ => panic!("expected the end"),
    }
}

#[test]
fn group_that_is_gone_leaves_the_process() {
    let (sending, action) = send_signal(17, Signal::SIGINT, false);
    assert!(matches!(action, SendAction::KillGroup { pid: 17, number: 2 }));
    let (sending, action) = sending.step(-1, libc::ESRCH);
    assert!(matches!(action, SendAction::Kill { pid: 17, number: 2 }));
    assert!(matches!(sending.step(0, 0).1, SendAction::Return(Ok(()))));
    assert!(matches!(sending.step(-1, libc::ESRCH).1, SendAction::Return(Ok(()))));
    assert!(matches!(
        sending.step(-1, libc::EPERM).1,
        SendAction::Return(Err(TimeoutError::SignalError(1)))
    ));
}

#[test]
fn refused_signal_is_an_error() {
    for foreground in [true, false] {
        let (sending, _) = send_signal(17, Signal::SIGINT, foreground);
        assert!(matches!(
            sending.step(-1, libc::EPERM).1,
            SendAction::Return(Err(TimeoutError::SignalError(1)))
        ));
        assert!(matches!(sending.step(0, 0).1, SendAction::Return(Ok(()))));
    }
}

/* Attempts. */

#[test]
fn attempts_are_kept_in_order_up_to_the_limit() {
    let mut attempts = Attempts::new();
    assert!(attempts.is_empty());
    assert_eq!(Attempts::default().len(), 0);
    for n in 0..40u64 {
        attempts.push(AttemptResult { status: "timeout", exit_code: None, elapsed_ms: n });
    }
    assert_eq!(attempts.len(), MAX_RETRIES);
    assert_eq!(attempts.as_slice().len(), 32);
    for (n, attempt) in attempts.as_slice().iter().enumerate() {
        assert_eq!(attempt.elapsed_ms, n as u64);
    }
    let none = AttemptResult::default();
    assert_eq!((none.status, none.exit_code, none.elapsed_ms), ("", None, 0));
}

#[test]
fn delays_grow_with_backoff() {
    let config = |delay_ms: u64, backoff: u32| RunConfig {
        retry_delay: Duration::from_millis(delay_ms),
        retry_backoff: backoff,
        ..RunConfig::default()
    };
    let ms = |config: &RunConfig, attempt: u32| duration_ms(retry_delay(config, attempt));
    let growing = config(100, 2);
    assert_eq!(ms(&growing, 0), 100);
    assert_eq!(ms(&growing, 1), 200);
    assert_eq!(ms(&growing, 2), 400);
    assert_eq!(ms(&growing, 11), 204_800);
    assert_eq!(ms(&growing, 12), 300_000);
    assert_eq!(ms(&growing, 31), 300_000);
    assert_eq!(ms(&config(1, u32::MAX), 31), 300_000);
    assert_eq!(ms(&config(0, u32::MAX), 31), 0);
    /* without a backoff nothing is cut off */
    assert_eq!(ms(&config(900_000, 1), 5), 900_000);
    assert_eq!(ms(&config(900_000, 2), 0), 300_000);
}

/* The pipe and input. */

#[test]
fn signals_go_through_the_pipe() {
    for n in [15, 2, 1, 3, 30, 31] {
        let byte = signal_handler(9, n).expect("a byte");
        assert_eq!(read_signal_from_pipe(1, byte), Signal::try_from_raw(n));
    }
    assert_eq!(signal_handler(-1, 15), None);
    assert_eq!(read_signal_from_pipe(-1, 15), None);
    assert_eq!(read_signal_from_pipe(0, 15), None);
    /* what is no signal is taken for SIGTERM */
    assert_eq!(read_signal_from_pipe(1, 200), Some(Signal::SIGTERM));
    assert_eq!(read_signal_from_pipe(1, 0), Some(Signal::SIGTERM));
}

#[test]
fn polling_tells_data_from_the_end() {
    assert_eq!(stdin_poll_status(0, libc::POLLIN), StdinPollResult::Idle);
    assert_eq!(stdin_poll_status(-1, libc::POLLHUP), StdinPollResult::Idle);
    assert_eq!(stdin_poll_status(1, libc::POLLIN), StdinPollResult::Readable);
    assert_eq!(stdin_poll_status(1, libc::POLLIN | libc::POLLHUP), StdinPollResult::Readable);
    assert_eq!(stdin_poll_status(1, libc::POLLHUP), StdinPollResult::Eof);
    assert_eq!(stdin_poll_status(1, libc::POLLERR), StdinPollResult::Idle);
}

/* Waiting. */

fn plain(wall_timeout: Option<Duration>) -> WaitSetup {
    WaitSetup {
        pid: 50,
        wall_timeout,
        heartbeat: None,
        stdin_timeout: None,
        throttle: None,
        memory_limit: None,
        confine: Confine::Wall,
    }
}

/// A wait with a queue, about to look at the clock.
fn queued(setup: WaitSetup, start: u64, signal_fd: i32) -> Wait {
    let (wait, action) = Wait::start(setup, signal_fd);
    assert!(matches!(action, WaitAction::ReadClock { confine: Confine::Wall }));
    let (mut wait, mut action) = wait.step(WaitEvent::Clock(Ok(start)));
    if matches!(action, WaitAction::StatStdin) {
        (wait, action) = wait.step(WaitEvent::StdinStat(0));
    }
    if matches!(action, WaitAction::PollStdin) {
        (wait, action) = wait.step(WaitEvent::Polled { ready: 0, revents: 0 });
    }
    assert!(matches!(action, WaitAction::OpenQueue));
    let (wait, action) = wait.step(WaitEvent::Queue { fd: 3, errno: 0 });
    assert!(matches!(action, WaitAction::ReadClock { confine: Confine::Wall }));
    wait
}

/// A wait that waits on its queue.
fn waiting(setup: WaitSetup, signal_fd: i32) -> Wait {
    let (wait, action) = queued(setup, 1_000, signal_fd).step(WaitEvent::Clock(Ok(1_000)));
    assert!(matches!(action, WaitAction::Submit { queue: 3, .. }));
    wait
}

fn event(filter: i16, ident: u64, flags: u16, data: i64) -> WaitEvent {
    WaitEvent::Kernel(Ok(KernelEvent { ident, filter, flags, data }))
}

fn after_close(wait: Wait, event: WaitEvent) -> (Wait, WaitAction) {
    let (wait, action) = wait.step(event);
    assert!(matches!(action, WaitAction::CloseQueue { queue: 3 }));
    wait.step(WaitEvent::Closed)
}

#[test]
fn timer_is_set_to_the_first_moment_that_matters() {
    let mut setup = plain(Some(Duration::from_nanos(900).unwrap()));
    let wake = |setup: WaitSetup, now: u64| {
        match queued(setup, 1_000, -1).step(WaitEvent::Clock(Ok(now))).1 {
            WaitAction::Submit { wake_ns, .. } => wake_ns,
            _ => panic!("expected to sleep"),
        }
    };
    assert_eq!(wake(setup, 1_000), 900);
    assert_eq!(wake(setup, 1_400), 500);
    setup.memory_limit = Some(MemoryLimitConfig { limit_bytes: 1, check_interval_ns: 700 });
    assert_eq!(wake(setup, 1_000), 700);
    setup.heartbeat =
        Some(HeartbeatConfig { interval_ns: 600, quiet: false, pid: 50, start_ns: 1_000 });
    assert_eq!(wake(setup, 1_000), 600);
    setup.throttle = Some(ThrottleTiming { interval_ns: 500, last_wall_ns: 1_000 });
    assert_eq!(wake(setup, 1_000), 500);
    setup.stdin_timeout = Some(StdinTimeoutConfig {
        timeout_ns: 400,
        last_activity_ns: 1_000,
        mode: StdinMode::Consume,
    });
    assert_eq!(wake(setup, 1_000), 400);
    /* what is overdue is done at once */
    assert_eq!(wake(plain(None), u64::MAX - 1), 1);
    assert_eq!(wake(plain(None), 0), MAX_TIMER_NS);
    /* the clock went backwards */
    assert_eq!(wake(setup, 900), 0);
}

#[test]
fn filters_are_those_that_matter() {
    let mut setup = plain(Some(Duration::from_secs(1)));
    let wait = queued(setup, 0, -1);
    assert_eq!(wait.changes(77), vec![watch_exit(50), watch_timer(1, 77)]);
    let wait = queued(setup, 0, 9);
    assert_eq!(
        wait.changes(77),
        vec![watch_exit(50), watch_timer(1, 77), watch_read(9, EV_ADD)]
    );
    setup.stdin_timeout = Some(StdinTimeoutConfig {
        timeout_ns: 400,
        last_activity_ns: 0,
        mode: StdinMode::Consume,
    });
    /* input is watched whether or not there is a signal pipe */
    let wait = waiting_at_zero(setup, -1);
    assert_eq!(
        wait.changes(77),
        vec![watch_exit(50), watch_timer(1, 77), watch_read(0, EV_ADD)]
    );
    /* once it has ended its filter is deleted, once */
    let (wait, _) = wait.step(event(EVFILT_READ, 0, EV_EOF, 0));
    assert_eq!(
        wait.changes(5),
        vec![watch_exit(50), watch_timer(1, 5), watch_read(0, EV_DELETE)]
    );
    let (wait, _) = wait.step(WaitEvent::Clock(Ok(10)));
    let (wait, _) = wait.step(WaitEvent::Kernel(Err(libc::EINTR)));
    assert_eq!(wait.changes(5), vec![watch_exit(50), watch_timer(1, 5)]);
    /* passed-through input is not watched by the queue */
    setup.stdin_timeout = Some(StdinTimeoutConfig {
        timeout_ns: 400,
        last_activity_ns: 0,
        mode: StdinMode::Passthrough,
    });
    assert_eq!(queued(setup, 0, -1).changes(5), vec![watch_exit(50), watch_timer(1, 5)]);
    let change = watch_exit(50);
    assert_eq!((change.filter, change.flags, change.fflags), (-5, 0x11, 0x8000_0000));
    let change = watch_timer(1, 5);
    assert_eq!((change.filter, change.flags, change.fflags, change.data), (-7, 0x11, 4, 5));
}

fn waiting_at_zero(setup: WaitSetup, signal_fd: i32) -> Wait {
    queued(setup, 0, signal_fd).step(WaitEvent::Clock(Ok(0))).0
}

#[test]
fn interrupted_wait_goes_on() {
    let wait = waiting(plain(Some(Duration::from_secs(1))), -1);
    let (wait, action) = wait.step(WaitEvent::Kernel(Err(libc::EINTR)));
    assert!(matches!(action, WaitAction::ReadClock { confine: Confine::Wall }));
    let (_, action) = wait.step(WaitEvent::Clock(Ok(1_500)));
    assert!(matches!(action, WaitAction::Submit { wake_ns: 999_999_500, .. }));
}

#[test]
fn vanished_child_is_collected() {
    let status = RawExitStatus::from_raw(4 << 8);
    for gone in [
        WaitEvent::Kernel(Err(libc::ESRCH)),
        event(EVFILT_PROC, 50, EV_ERROR, libc::ESRCH as i64),
    ] {
        let (wait, action) = after_close(waiting(plain(None), -1), gone);
        assert!(matches!(action, WaitAction::TryReap));
        let (_, action) = wait.step(WaitEvent::TryReaped(Ok(Some((status, USAGE)))));
        assert!(matches!(
            action,
            WaitAction::Return(Ok(WaitResult::Exited(s, _))) if s == status
        ));
        /* not at once: wait for it */
        let (wait, action) = wait.step(WaitEvent::TryReaped(Ok(None)));
        assert!(matches!(action, WaitAction::Reap));
        assert!(matches!(
            wait.step(WaitEvent::Reaped(Ok((status, USAGE)))).1,
            WaitAction::Return(Ok(WaitResult::Exited(s, _))) if s == status
        ));
        /* someone else collected it */
        assert!(matches!(
            wait.step(WaitEvent::Reaped(Err(SpawnError::Wait(libc::ECHILD)))).1,
            WaitAction::Return(Ok(WaitResult::TimedOut(TimeoutReason::WallClock)))
        ));
        match wait.step(WaitEvent::Reaped(Err(SpawnError::Wait(5)))).1 {
            WaitAction::Return(Err(error)) => {
                assert_eq!(error.message(), "wait failed: wait failed: errno 5");
            }
            _ => panic!("expected an error"),
        }
    }
}

#[test]
fn try_reap_failure_waits_too() {
    let (wait, _) =
        after_close(waiting(plain(None), -1), WaitEvent::Kernel(Err(libc::ESRCH)));
    let (_, action) = wait.step(WaitEvent::TryReaped(Err(SpawnError::Wait(libc::ECHILD))));
    assert!(matches!(action, WaitAction::Reap));
}

#[test]
fn other_queue_failures_are_errors() {
    let (_, action) = after_close(waiting(plain(None), -1), WaitEvent::Kernel(Err(22)));
    match action {
        WaitAction::Return(Err(error)) => {
            assert_eq!(error.message(), "kevent failed: errno 22");
            assert_eq!(error.exit_code(), 125);
        }
        _ => panic!("expected an error"),
    }
    let (_, action) =
        after_close(waiting(plain(None), -1), event(EVFILT_PROC, 50, EV_ERROR, 12));
    match action {
        WaitAction::Return(Err(error)) => {
            assert_eq!(error.message(), "kqueue event registration failed: errno 12");
        }
        _ => panic!("expected an error"),
    }
    let (wait, _) = Wait::start(plain(None), -1);
    let (wait, _) = wait.step(WaitEvent::Clock(Ok(0)));
    match wait.step(WaitEvent::Queue { fd: -1, errno: 24 }).1 {
        WaitAction::Return(Err(error)) => {
            assert_eq!(error.message(), "kqueue failed: errno 24");
        }
        _ => panic!("expected an error"),
    }
}

#[test]
fn failing_clock_ends_the_wait() {
    let (wait, _) = Wait::start(plain(None), -1);
    assert!(matches!(
        wait.step(WaitEvent::Clock(Err(TimeoutError::TimebaseError))).1,
        WaitAction::Return(Err(TimeoutError::TimebaseError))
    ));
    let wait = queued(plain(None), 0, -1);
    assert!(matches!(
        wait.step(WaitEvent::Clock(Err(TimeoutError::TimebaseError))).1,
        WaitAction::Return(Err(TimeoutError::TimebaseError))
    ));
}

#[test]
fn exit_is_collected() {
    let (wait, action) = after_close(waiting(plain(None), -1), event(EVFILT_PROC, 50, 0, 0));
    assert!(matches!(action, WaitAction::Reap));
    assert!(matches!(
        wait.step(WaitEvent::Reaped(Ok((RawExitStatus::from_raw(0), USAGE)))).1,
        WaitAction::Return(Ok(WaitResult::Exited(_, _)))
    ));
    assert!(matches!(
        wait.step(WaitEvent::Reaped(Err(SpawnError::Wait(10)))).1,
        WaitAction::Return(Err(TimeoutError::SpawnError(10)))
    ));
    assert!(matches!(
        wait.step(WaitEvent::Reaped(Err(SpawnError::InvalidArg))).1,
        WaitAction::Return(Err(TimeoutError::Internal(InternalError::WaitFailed)))
    ));
}

#[test]
fn signal_pipe_is_read() {
    let (wait, action) = after_close(waiting(plain(None), 9), event(EVFILT_READ, 9, 0, 1));
    assert!(matches!(action, WaitAction::ReadSignal { fd: 9 }));
    assert!(matches!(
        wait.step(WaitEvent::SignalByte { count: 1, byte: 2 }).1,
        WaitAction::Return(Ok(WaitResult::ReceivedSignal(Signal::SIGINT)))
    ));
    assert!(matches!(
        wait.step(WaitEvent::SignalByte { count: -1, byte: 0 }).1,
        WaitAction::Return(Ok(WaitResult::TimedOut(TimeoutReason::WallClock)))
    ));
    /* readable without a pipe */
    let (_, action) = after_close(waiting(plain(None), -1), event(EVFILT_READ, 9, 0, 1));
    assert!(matches!(
        action,
        WaitAction::Return(Ok(WaitResult::TimedOut(TimeoutReason::WallClock)))
    ));
    /* some other filter */
    let (_, action) = after_close(waiting(plain(None), -1), event(-3, 9, 0, 1));
    assert!(matches!(
        action,
        WaitAction::Return(Ok(WaitResult::TimedOut(TimeoutReason::WallClock)))
    ));
}

fn watching_input() -> WaitSetup {
    WaitSetup {
        stdin_timeout: Some(StdinTimeoutConfig {
            timeout_ns: 400,
            last_activity_ns: 1_000,
            mode: StdinMode::Consume,
        }),
        ..plain(None)
    }
}

#[test]
fn input_filter_that_is_refused_is_dropped() {
    let wait = waiting(watching_input(), -1);
    /* the filter of input went bad; it is told by its number, as it is no read event */
    let (dropped, action) = wait.step(event(-3, 0, EV_ERROR, libc::EBADF as i64));
    assert!(matches!(action, WaitAction::ReadClock { confine: Confine::Wall }));
    assert_eq!(dropped.stdin, None);
    assert_eq!(dropped.changes(5).len(), 3);
    /* there is no such filter */
    let (kept, action) = wait.step(event(-3, 0, EV_ERROR, libc::ENOENT as i64));
    assert!(matches!(action, WaitAction::ReadClock { confine: Confine::Wall }));
    assert!(kept.stdin.is_some());
    assert_eq!(kept.changes(5)[2], watch_read(0, 0));
    /* errors of other descriptors are not forgiven */
    let (_, action) = wait.step(event(EVFILT_READ, 9, EV_ERROR, libc::EBADF as i64));
    assert!(matches!(action, WaitAction::CloseQueue { .. }));
}

#[test]
fn input_that_cannot_be_read_just_now_changes_nothing() {
    let wait = waiting(watching_input(), -1);
    let (wait, action) = wait.step(event(EVFILT_READ, 0, 0, 1));
    assert!(matches!(action, WaitAction::DrainStdin));
    let (again, action) = wait.step(WaitEvent::Drained(-1));
    assert!(matches!(action, WaitAction::ReadClock { confine: Confine::Wall }));
    assert_eq!(again.stdin, watching_input().stdin_timeout);
    /* data counts from the time it is read */
    let (active, action) = wait.step(WaitEvent::Drained(100));
    assert!(matches!(action, WaitAction::ReadClock { confine: Confine::Wall }));
    let (active, _) = active.step(WaitEvent::Clock(Ok(1_300)));
    assert_eq!(active.stdin.unwrap().last_activity_ns, 1_300);
}

#[test]
fn throttle_and_memory_are_looked_after_when_the_timer_fires() {
    let setup = WaitSetup {
        throttle: Some(ThrottleTiming { interval_ns: 100, last_wall_ns: 1_000 }),
        memory_limit: Some(MemoryLimitConfig { limit_bytes: 10, check_interval_ns: 100 }),
        ..plain(None)
    };
    let (wait, _) = waiting(setup, -1).step(event(EVFILT_TIMER, 1, 0, 0));
    let (wait, action) = wait.step(WaitEvent::Clock(Ok(1_100)));
    assert!(matches!(action, WaitAction::UpdateThrottle { now_ns: 1_100 }));
    assert!(matches!(
        wait.step(WaitEvent::Throttled(Err(TimeoutError::SignalError(1)))).1,
        WaitAction::Return(Err(TimeoutError::SignalError(1)))
    ));
    let (wait, action) = wait.step(WaitEvent::Throttled(Ok(())));
    assert!(matches!(action, WaitAction::MeasureMemory));
    assert_eq!(wait.next_throttle_ns, 1_200);
    let (over, action) = wait.step(WaitEvent::Memory(Some(11)));
    assert!(matches!(action, WaitAction::CloseQueue { queue: 3 }));
    assert!(matches!(
        over.step(WaitEvent::Closed).1,
        WaitAction::Return(Ok(WaitResult::MemoryLimitExceeded {
            limit_bytes: 10,
            actual_bytes: 11
        }))
    ));
    for fine in [Some(10), None] {
        let (within, action) = wait.step(WaitEvent::Memory(fine));
        assert!(matches!(action, WaitAction::ReadClock { confine: Confine::Wall }));
        assert_eq!(within.next_memory_check_ns, 1_200);
    }
}

#[test]
fn zero_deadline_has_come_and_none_never_does() {
    let wait = queued(plain(Some(Duration::zero())), 1_000, -1);
    let (wait, action) = wait.step(WaitEvent::Clock(Ok(1_000)));
    assert!(matches!(action, WaitAction::CloseQueue { .. }));
    assert!(matches!(
        wait.step(WaitEvent::Closed).1,
        WaitAction::Return(Ok(WaitResult::TimedOut(TimeoutReason::WallClock)))
    ));
    let wait = queued(plain(None), 1_000, -1);
    let (_, action) = wait.step(WaitEvent::Clock(Ok(u64::MAX - 1)));
    assert!(matches!(action, WaitAction::Submit { .. }));
}

/* The hook. */

#[test]
fn hooks_are_expanded_from_left_to_right() {
    assert_eq!(expand_hook("kill %p; echo 100%%", 77), "kill 77; echo 100%");
    assert_eq!(expand_hook("%%p %%%p %p%p", 77), "%p %77 7777");
    assert_eq!(expand_hook("% %x %", 77), "% %x %");
    assert_eq!(expand_hook("", 77), "");
    assert_eq!(expand_hook("%P", 77), "%P");
}

#[test]
fn hooks_are_run_by_the_shell() {
    let request = hook_request("echo '100%%' %p %%p %d", 42);
    assert_eq!(request.command, "sh");
    assert_eq!(request.args, vec!["-c".to_string(), "echo '100%' 42 %p %d".to_string()]);
    assert!(request.use_process_group);
    assert!(request.limits.is_none());
}

#[test]
fn quiet_hook_is_started_killed_and_collected() {
    let config = RunConfig::default();
    let (run, action) = HookRun::start("echo '100%%' %p %%p %d", 42, &config);
    assert!(matches!(action, HookAction::ReadClock { confine: Confine::Wall }));
    let (run, action) = run.step(HookEvent::Clock(Ok(1_000_000)), &config);
    match action {
        HookAction::Spawn(request) => {
            assert_eq!(request.command, "sh");
            assert_eq!(request.args, vec!["-c".to_string(), "echo '100%' 42 %p %d".to_string()]);
            assert!(request.use_process_group);
        }
        _ => panic!("the hook is to be started"),
    }
    let (run, action) = run.step(HookEvent::Spawned(Ok(60)), &config);
    assert!(matches!(action, HookAction::Wait { pid: 60, .. }));
    let (run, action) = run.step(HookEvent::Waited(HookWaitResult::TimedOut), &config);
    assert!(matches!(action, HookAction::ReadClock { confine: Confine::Wall }));
    let (run, action) = run.step(HookEvent::Clock(Ok(8_000_000)), &config);
    assert!(matches!(action, HookAction::KillGroup { pid: 60, signal: Signal::SIGKILL }));
    let (run, action) = run.step(HookEvent::Killed, &config);
    assert!(matches!(action, HookAction::Reap { pid: 60 }));
    let (_, action) = run.step(HookEvent::Reaped, &config);
    match action {
        HookAction::Return(result) => {
            assert!(result.ran && result.timed_out);
            assert_eq!(result.elapsed_ms, 7);
        }
        _ => panic!("the hook is over"),
    }
}

#[test]
fn hook_is_announced_by_what_is_run() {
    let config = RunConfig { verbose: true, ..RunConfig::default() };
    let (run, _) = HookRun::start("kill %p", 42, &config);
    let (run, action) = run.step(HookEvent::Clock(Ok(1_000_000)), &config);
    match action {
        HookAction::Say(Notice::HookRunning(command)) => assert_eq!(command, "kill 42"),
        _ => panic!("the hook is to be announced"),
    }
    let (_, action) = run.step(HookEvent::Said, &config);
    match action {
        HookAction::Spawn(request) => assert_eq!(request.args[1], "kill 42"),
        _ => panic!("the hook is to be started"),
    }
}

fn hook_waiting() -> HookWait {
    let (wait, action) = HookWait::start(60, Duration::from_nanos(500).unwrap(), Confine::Wall);
    assert!(matches!(action, HookWaitAction::ReadClock { confine: Confine::Wall }));
    let (wait, action) = wait.step(HookWaitEvent::Clock(Ok(1_000)));
    assert!(matches!(action, HookWaitAction::OpenQueue));
    let (wait, _) = wait.step(HookWaitEvent::Queue { fd: 4, errno: 0 });
    let (wait, action) = wait.step(HookWaitEvent::Clock(Ok(1_200)));
    assert!(matches!(action, HookWaitAction::Submit { queue: 4, wake_ns: 300 }));
    assert_eq!(wait.changes(300), vec![watch_exit(60), watch_timer(2, 300)]);
    wait
}

fn hook_event(filter: i16, flags: u16, data: i64) -> HookWaitEvent {
    HookWaitEvent::Kernel(Ok(KernelEvent { ident: 60, filter, flags, data }))
}

fn after_hook_close(event: HookWaitEvent) -> (HookWait, HookWaitAction) {
    let (wait, action) = hook_waiting().step(event);
    assert!(matches!(action, HookWaitAction::CloseQueue { queue: 4 }));
    wait.step(HookWaitEvent::Closed)
}

#[test]
fn hook_is_waited_for() {
    let status = RawExitStatus::from_raw(1 << 8);
    for ended in [
        hook_event(EVFILT_PROC, 0, 0),
        hook_event(EVFILT_PROC, EV_ERROR, libc::ESRCH as i64),
    ] {
        let (wait, action) = after_hook_close(ended);
        assert!(matches!(action, HookWaitAction::Reap));
        assert!(matches!(
            wait.step(HookWaitEvent::Reaped(Ok(status))).1,
            HookWaitAction::Return(HookWaitResult::Exited(s)) if s == status
        ));
        assert!(matches!(
            wait.step(HookWaitEvent::Reaped(Err(SpawnError::Wait(10)))).1,
            HookWaitAction::Return(HookWaitResult::Error(HookError::Reap(SpawnError::Wait(10))))
        ));
    }
    let (_, action) = after_hook_close(hook_event(EVFILT_TIMER, 0, 0));
    assert!(matches!(action, HookWaitAction::Return(HookWaitResult::TimedOut)));
    let (_, action) = after_hook_close(hook_event(EVFILT_PROC, EV_ERROR, 12));
    assert!(matches!(
        action,
        HookWaitAction::Return(HookWaitResult::Error(HookError::RegistrationFailed(12)))
    ));
    let (_, action) = after_hook_close(HookWaitEvent::Kernel(Err(22)));
    assert!(matches!(
        action,
        HookWaitAction::Return(HookWaitResult::Error(HookError::KeventFailed(22)))
    ));
    let (wait, action) = after_hook_close(HookWaitEvent::Kernel(Err(libc::ESRCH)));
    assert!(matches!(action, HookWaitAction::TryReap));
    assert!(matches!(
        wait.step(HookWaitEvent::TryReaped(Ok(Some(status)))).1,
        HookWaitAction::Return(HookWaitResult::Exited(_))
    ));
    assert!(matches!(wait.step(HookWaitEvent::TryReaped(Ok(None))).1, HookWaitAction::Reap));
    assert!(matches!(
        wait.step(HookWaitEvent::TryReaped(Err(SpawnError::InvalidArg))).1,
        HookWaitAction::Return(HookWaitResult::Error(HookError::Reap(_)))
    ));
    let (_, action) = hook_waiting().step(HookWaitEvent::Kernel(Err(libc::EINTR)));
    assert!(matches!(action, HookWaitAction::ReadClock { confine: Confine::Wall }));
}

#[test]
fn hook_without_a_clock_times_out() {
    let (wait, _) = HookWait::start(60, Duration::from_secs(1), Confine::Wall);
    let (wait, _) = wait.step(HookWaitEvent::Clock(Err(TimeoutError::TimebaseError)));
    assert_eq!(wait.deadline_ns, 1_000_000_000);
    let (failed, action) = wait.step(HookWaitEvent::Queue { fd: -1, errno: 24 });
    assert!(matches!(
        action,
        HookWaitAction::Return(HookWaitResult::Error(HookError::KqueueFailed(24)))
    ));
    assert_eq!(failed.pid, 60);
    let (wait, _) = wait.step(HookWaitEvent::Queue { fd: 4, errno: 0 });
    let (wait, action) = wait.step(HookWaitEvent::Clock(Err(TimeoutError::TimebaseError)));
    assert!(matches!(action, HookWaitAction::CloseQueue { queue: 4 }));
    assert!(matches!(
        wait.step(HookWaitEvent::Closed).1,
        HookWaitAction::Return(HookWaitResult::TimedOut)
    ));
}

/* Watching over a command. */

#[test]
fn one_clock_counts_in_all_of_a_run() {
    for confine in [Confine::Wall, Confine::Active] {
        let config = RunConfig {
            confine,
            timeout: Duration::from_secs(1),
            kill_after: Some(Duration::from_secs(2)),
            ..RunConfig::default()
        };

        let (monitor, action) = Monitor::start(70, &config);
        match action {
            MonitorAction::ReadClock { confine: clock } => assert_eq!(clock, confine),
            _ => panic!("the clock is to be read"),
        }
        let (monitor, action) = monitor.step(MonitorEvent::Clock(Ok(5_000)), &config);
        let setup = match action {
            MonitorAction::Wait(setup) => setup,
            _ => panic!("the command is to be waited for"),
        };
        assert_eq!(setup.confine, confine);
        let timed_out = || MonitorEvent::Waited(Ok(WaitResult::TimedOut(TimeoutReason::WallClock)));
        let (monitor, action) = monitor.step(timed_out(), &config);
        assert!(matches!(action, MonitorAction::Send { pid: 70, .. }));
        match monitor.step(MonitorEvent::Sent(Ok(())), &config).1 {
            MonitorAction::Wait(grace) => assert_eq!(grace.confine, confine),
            _ => panic!("the command is given time to stop"),
        }

        let (wait, action) = Wait::start(setup, -1);
        match action {
            WaitAction::ReadClock { confine: clock } => assert_eq!(clock, confine),
            _ => panic!("the clock is to be read"),
        }
        let (wait, _) = wait.step(WaitEvent::Clock(Ok(5_000)));
        match wait.step(WaitEvent::Queue { fd: 3, errno: 0 }).1 {
            WaitAction::ReadClock { confine: clock } => assert_eq!(clock, confine),
            _ => panic!("the clock is to be read"),
        }

        let (run, action) = HookRun::start("true", 70, &config);
        match action {
            HookAction::ReadClock { confine: clock } => assert_eq!(clock, confine),
            _ => panic!("the clock is to be read"),
        }
        let (run, _) = run.step(HookEvent::Clock(Ok(1)), &config);
        let (pid, limit, clock) = match run.step(HookEvent::Spawned(Ok(60)), &config).1 {
            HookAction::Wait { pid, limit, confine } => (pid, limit, confine),
            _ => panic!("the hook is to be waited for"),
        };
        assert_eq!(clock, confine);
        match HookWait::start(pid, limit, clock).1 {
            HookWaitAction::ReadClock { confine: clock } => assert_eq!(clock, confine),
            _ => panic!("the clock is to be read"),
        }

        let (retry, action) = run_with_retry("true", &[], &config, -1);
        match action {
            RetryAction::ReadClock { confine: clock } => assert_eq!(clock, confine),
            _ => panic!("the clock is to be read"),
        }
        let (retry, _) = retry.step(RetryEvent::Clock(Ok(1)), &config);
        let signal = Signal::SIGTERM;
        let ended = RunResult::SignalForwarded { signal, status: None, rusage: None };
        match retry.step(RetryEvent::Ran(Ok(ended)), &config).1 {
            RetryAction::ReadClock { confine: clock } => assert_eq!(clock, confine),
            _ => panic!("the clock is to be read"),
        }
    }
}

#[test]
fn throttle_that_cannot_start_is_done_without() {
    let mut config = RunConfig {
        cpu_throttle: Some(CpuThrottleConfig { percent: 50, interval_ns: 100, sleep_ns: 50 }),
        ..RunConfig::default()
    };
    let started = |config: &RunConfig| {
        let (monitor, _) = Monitor::start(70, config);
        let (monitor, action) = monitor.step(MonitorEvent::Clock(Ok(5_000)), config);
        assert!(matches!(action, MonitorAction::StartThrottle { pid: 70, start_ns: 5_000 }));
        monitor
    };
    let failed = || MonitorEvent::ThrottleStarted(Err(TimeoutError::SpawnError(3)));
    let (monitor, action) = started(&config).step(failed(), &config);
    match action {
        MonitorAction::Say(notice) => assert_eq!(
            notice.message(),
            "timeout: warning: CPU throttle disabled (failed to spawn process: errno 3)"
        ),
        _ => panic!("expected a warning"),
    }
    let (_, action) = monitor.step(MonitorEvent::Said, &config);
    assert!(matches!(action, MonitorAction::Wait(WaitSetup { throttle: None, pid: 70, .. })));
    config.quiet = true;
    let (_, action) = started(&config).step(failed(), &config);
    assert!(matches!(action, MonitorAction::Wait(WaitSetup { throttle: None, .. })));
    let (_, action) = started(&config).step(MonitorEvent::ThrottleStarted(Ok(())), &config);
    assert!(matches!(
        action,
        MonitorAction::Wait(WaitSetup {
            throttle: Some(ThrottleTiming { interval_ns: 100, last_wall_ns: 5_000 }),
            ..
        })
    ));
}

#[test]
fn failures_end_the_watch() {
    let config = RunConfig::default();
    let (monitor, _) = Monitor::start(70, &config);
    assert!(matches!(
        monitor.step(MonitorEvent::Clock(Err(TimeoutError::TimebaseError)), &config).1,
        MonitorAction::Return(Err(TimeoutError::TimebaseError))
    ));
    let (monitor, _) = monitor.step(MonitorEvent::Clock(Ok(1)), &config);
    assert!(matches!(
        monitor
            .step(MonitorEvent::Waited(Err(TimeoutError::SpawnError(10))), &config)
            .1,
        MonitorAction::Return(Err(TimeoutError::SpawnError(10)))
    ));
    let (monitor, action) = monitor.step(
        MonitorEvent::Waited(Ok(WaitResult::TimedOut(TimeoutReason::WallClock))),
        &config,
    );
    assert!(matches!(
        action,
        MonitorAction::Send { pid: 70, signal: Signal::SIGTERM, foreground: false }
    ));
    assert!(matches!(
        monitor.step(MonitorEvent::Sent(Err(TimeoutError::SignalError(1))), &config).1,
        MonitorAction::Return(Err(TimeoutError::SignalError(1)))
    ));
    let (monitor, action) = monitor.step(MonitorEvent::Sent(Ok(())), &config);
    assert!(matches!(action, MonitorAction::Reap));
    assert!(matches!(
        monitor.step(MonitorEvent::Reaped(Err(SpawnError::Wait(10))), &config).1,
        MonitorAction::Return(Err(TimeoutError::SpawnError(10)))
    ));
    assert!(matches!(
        monitor.step(MonitorEvent::Reaped(Err(SpawnError::InvalidArg)), &config).1,
        MonitorAction::Return(Err(TimeoutError::Internal(InternalError::WaitFailed)))
    ));
}

#[test]
fn forwarded_signal_does_not_need_the_status() {
    let config = RunConfig::default();
    let (monitor, _) = Monitor::start(70, &config);
    let (monitor, _) = monitor.step(MonitorEvent::Clock(Ok(1)), &config);
    let (monitor, _) = monitor.step(
        MonitorEvent::Waited(Ok(WaitResult::ReceivedSignal(Signal::SIGQUIT))),
        &config,
    );
    let (monitor, _) = monitor.step(MonitorEvent::Sent(Ok(())), &config);
    match monitor.step(MonitorEvent::Reaped(Err(SpawnError::Wait(10))), &config).1 {
        MonitorAction::Return(Ok(result)) => {
            assert_eq!(result.exit_code(false, 124), 131);
            assert!(result.resource_usage().is_none());
        }
        _ => panic!("expected a result"),
    }
}

/* The throttle. */

#[test]
fn throttle_stops_and_continues() {
    let cfg = CpuThrottleConfig { percent: 50, interval_ns: 100, sleep_ns: 50 };
    let mut state = CpuThrottleState::new(80, 1_000, Ok(200)).unwrap();
    assert_eq!(state.last_wall_ns, 1_000);
    /* 60 of 100 */
    assert_eq!(state.update(&cfg, 1_100, Ok(260)).unwrap(), Some(Signal::SIGSTOP));
    assert!(state.suspended);
    /* 60 of 119, then of 120 */
    assert_eq!(state.update(&cfg, 1_119, Ok(260)).unwrap(), Some(Signal::SIGSTOP));
    assert_eq!(state.update(&cfg, 1_120, Ok(260)).unwrap(), Some(Signal::SIGCONT));
    assert!(!state.suspended);
    assert_eq!(state.resume(), None);
    assert_eq!(state.update(&cfg, 1_120, Ok(261)).unwrap(), Some(Signal::SIGSTOP));
    assert_eq!(state.resume(), Some(Signal::SIGCONT));
    assert_eq!(state.resume(), None);
    assert!(matches!(
        state.update(&cfg, 9_999, Err(TimeoutError::SpawnError(3))),
        Err(TimeoutError::SpawnError(3))
    ));
    assert_eq!(state.last_wall_ns, 1_120);
    state.mark_process_exited();
    assert_eq!(state.update(&cfg, 1_121, Ok(9_999)).unwrap(), None);
    assert_eq!(state.resume(), None);
    assert!(CpuThrottleState::new(80, 0, Err(TimeoutError::SpawnError(3))).is_err());
}

#[test]
fn throttle_counts_all_cores() {
    let cfg = CpuThrottleConfig { percent: 200, interval_ns: 100, sleep_ns: 50 };
    let mut state = CpuThrottleState::new(80, 0, Ok(0)).unwrap();
    assert_eq!(state.update(&cfg, 100, Ok(200)).unwrap(), Some(Signal::SIGCONT));
    assert_eq!(state.update(&cfg, 100, Ok(201)).unwrap(), Some(Signal::SIGSTOP));
    let cfg = CpuThrottleConfig { percent: u32::MAX, ..cfg };
    assert_eq!(state.update(&cfg, u64::MAX, Ok(u64::MAX)).unwrap(), Some(Signal::SIGCONT));
}

/* Signal forwarding. */

/// The part of a process that setting up and cleaning up act on.
struct Process {
    next_fd: i32,
    open: Vec<i32>,
    read_slot: i32,
    write_slot: i32,
    handlers: Vec<Signal>,
    /// The number of the call that fails, counted from zero.
    fails: Option<u32>,
}

impl Process {
    fn new() -> Process {
        Process {
            next_fd: 10,
            open: Vec::new(),
            read_slot: -1,
            write_slot: -1,
            handlers: Vec::new(),
            fails: None,
        }
    }

    fn call(&mut self) -> bool {
        match self.fails {
            Some(0) => {
                self.fails = None;
                false
            }
            Some(n) => {
                self.fails = Some(n - 1);
                true
            }
            None => true,
        }
    }

    fn close(&mut self, fd: i32) {
        let place = self.open.iter().position(|&o| o == fd).expect("an open descriptor");
        self.open.remove(place);
    }

    fn setup(&mut self) -> Option<i32> {
        let (mut setup, mut action) = setup_signal_forwarding();
        loop {
            let event = match action {
                SetupAction::CreatePipe => SetupEvent::Pipe(if self.call() {
                    let ends = (self.next_fd, self.next_fd + 1);
                    self.next_fd += 2;
                    self.open.push(ends.0);
                    self.open.push(ends.1);
                    Some(ends)
                } else {
                    None
                }),
                SetupAction::GetFlags { .. } => {
                    SetupEvent::Flags(if self.call() { 2 } else { -1 })
                }
                SetupAction::SetNonblocking { flags, .. } => {
                    assert_eq!(flags, 2);
                    SetupEvent::FlagsSet(if self.call() { 0 } else { -1 })
                }
                SetupAction::SetCloseOnExec { .. } => {
                    SetupEvent::FlagsSet(if self.call() { 0 } else { -1 })
                }
                SetupAction::Claim { fd } => {
                    let empty = self.read_slot == -1;
                    if empty {
                        self.read_slot = fd;
                    }
                    SetupEvent::Claimed(empty)
                }
                SetupAction::StoreWrite { fd } => {
                    self.write_slot = fd;
                    SetupEvent::Stored
                }
                SetupAction::Install { signal } => {
                    assert!(self.open.contains(&self.write_slot), "a handler needs a pipe");
                    self.handlers.push(signal);
                    SetupEvent::Installed
                }
                SetupAction::Close { fd } => {
                    self.close(fd);
                    SetupEvent::Closed
                }
                SetupAction::LoadRead => SetupEvent::Loaded(self.read_slot),
                SetupAction::Return(fd) => return fd,
            };
            let (next, wanted) = setup.step(event);
            setup = next;
            action = wanted;
        }
    }

    fn cleanup(&mut self) {
        let (mut cleanup, mut action) = cleanup_signal_forwarding();
        loop {
            let event = match action {
                CleanupAction::Reset { signal } => {
                    self.handlers.retain(|&s| s != signal);
                    CleanupEvent::Reset
                }
                CleanupAction::TakeWrite => {
                    assert!(self.handlers.is_empty(), "no handler is left");
                    let fd = self.write_slot;
                    self.write_slot = -1;
                    CleanupEvent::Taken(fd)
                }
                CleanupAction::TakeRead => {
                    let fd = self.read_slot;
                    self.read_slot = -1;
                    CleanupEvent::Taken(fd)
                }
                CleanupAction::Close { fd } => {
                    self.close(fd);
                    CleanupEvent::Closed
                }
                CleanupAction::Return => return,
            };
            let (next, wanted) = cleanup.step(event);
            cleanup = next;
            action = wanted;
        }
    }
}

#[test]
fn library_cleanup_signal_forwarding_is_idempotent() {
    let mut process = Process::new();
    process.cleanup();
    process.cleanup();
    assert!(process.open.is_empty());
    process.setup();
    process.cleanup();
    process.cleanup();
    assert!(process.open.is_empty());
}

#[test]
fn library_setup_cleanup_cycle() {
    let mut process = Process::new();
    for _ in 0..3 {
        let fd = process.setup();
        assert!(fd.is_some(), "setup should return valid fd");
        assert_eq!(fd, Some(process.read_slot));
        assert_eq!(
            process.handlers,
            vec![
                Signal::SIGTERM,
                Signal::SIGINT,
                Signal::SIGHUP,
                Signal::SIGQUIT,
                Signal::SIGUSR1,
                Signal::SIGUSR2
            ]
        );
        process.cleanup();
        assert!(process.open.is_empty() && process.handlers.is_empty());
        assert_eq!((process.read_slot, process.write_slot), (-1, -1));
    }
}

#[test]
fn second_setup_gives_the_pipe_that_is_there() {
    let mut process = Process::new();
    let first = process.setup();
    assert_eq!(process.setup(), first);
    assert_eq!(process.open.len(), 2, "no descriptor is lost");
}

#[test]
fn failed_setup_leaves_nothing_behind() {
    for n in 0..5 {
        let mut process = Process::new();
        process.fails = Some(n);
        assert_eq!(process.setup(), None);
        assert!(process.open.is_empty() && process.handlers.is_empty());
        assert_eq!(process.read_slot, -1);
    }
    /* closing on exec is as well as it goes */
    for n in 5..7 {
        let mut process = Process::new();
        process.fails = Some(n);
        assert!(process.setup().is_some());
    }
}

/* Words. */

#[test]
fn errors_have_words_and_codes() {
    let internal = |e: InternalError| TimeoutError::Internal(e).message();
    assert_eq!(internal(InternalError::InvalidArgument), "invalid argument");
    assert_eq!(internal(InternalError::WaitFailed), "wait failed");
    assert_eq!(internal(InternalError::KqueueFailed(24)), "kqueue failed: errno 24");
    assert_eq!(internal(InternalError::KeventFailed(-1)), "kevent failed: errno -1");
    assert_eq!(
        internal(InternalError::InvalidRetryCount("x".to_string())),
        "invalid retry count: 'x'"
    );
    assert_eq!(
        internal(InternalError::InvalidRetryBackoff("y".to_string())),
        "invalid retry backoff: 'y' (use e.g., 2x)"
    );
    assert_eq!(
        internal(InternalError::PassthroughNeedsTimeout),
        "--stdin-passthrough requires --stdin-timeout"
    );
    let error = TimeoutError::CommandNotFound("c".to_string());
    assert_eq!((error.exit_code(), error.message()), (127, "command not found: c".to_string()));
    let error = TimeoutError::PermissionDenied("c".to_string());
    assert_eq!((error.exit_code(), error.message()), (126, "permission denied: c".to_string()));
    let error = TimeoutError::SignalError(1);
    assert_eq!(
        (error.exit_code(), error.message()),
        (125, "failed to send signal: errno 1".to_string())
    );
    assert_eq!(TimeoutError::TimebaseError.message(), "invalid time base");
    assert_eq!(
        TimeoutError::InvalidMemoryLimit("m".to_string()).message(),
        "invalid memory limit: 'm'"
    );
    assert_eq!(
        TimeoutError::InvalidCpuPercent("p".to_string()).message(),
        "invalid cpu percent: 'p'"
    );
    assert_eq!(SpawnError::NotFound("n".to_string()).message(), "command not found: n");
    assert_eq!(SpawnError::PermissionDenied("n".to_string()).message(), "permission denied: n");
    assert_eq!(SpawnError::InvalidArg.message(), "invalid argument");
}

#[test]
fn notices_have_words() {
    assert_eq!(
        Notice::HookWaitFailed(HookError::RegistrationFailed(2)).message(),
        "timeout: on-timeout hook wait failed: kqueue registration failed: errno 2"
    );
    assert_eq!(
        Notice::HookWaitFailed(HookError::Reap(SpawnError::Wait(10))).message(),
        "timeout: on-timeout hook wait failed: wait failed: errno 10"
    );
    assert_eq!(HookError::KqueueFailed(1).message(), "kqueue failed: errno 1");
    assert_eq!(HookError::KeventFailed(1).message(), "kevent failed: errno 1");
    assert_eq!(
        Notice::Heartbeat { elapsed_ns: 59_999_999_999, pid: 1 }.message(),
        "timeout: heartbeat: 59s elapsed, command still running (pid 1)"
    );
    assert_eq!(
        Notice::Heartbeat { elapsed_ns: 60_000_000_000, pid: -1 }.message(),
        "timeout: heartbeat: 1m 0s elapsed, command still running (pid -1)"
    );
}

#[test]
fn numbers_are_read_and_written() {
    let read = |text: &str| parse_u32(&text.chars().collect());
    assert_eq!(read("0"), Some(0));
    assert_eq!(read("+12"), Some(12));
    assert_eq!(read("0004294967295"), Some(u32::MAX));
    assert_eq!(read("4294967296"), None);
    assert_eq!(read(""), None);
    assert_eq!(read("+"), None);
    assert_eq!(read("++1"), None);
    assert_eq!(read("-1"), None);
    assert_eq!(text_with_signed("<", i32::MIN, ">"), "<-2147483648>");
    assert_eq!(text_with_signed("", 0, ""), "0");
}
