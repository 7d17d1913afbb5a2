//! What a watched command is told, what is waited for, and what is told of it.
//!
//! Everything here is stated over the events of a run: what the waits, the hook
//! and the system came to.

use vstd::prelude::*;

use crate::config::RunConfig;
use crate::error::{SpawnError, TimeoutError};
use crate::monitor::{Cause, Monitor, MonitorAction, MonitorEvent, MonitorPhase, Purpose};
use crate::notice::Notice;
use crate::outcome::{HookResult, RunResult, TimeoutReason};
use crate::process::{RawExitStatus, ResourceUsage};
use crate::signal::Signal;
use crate::time::{law_numbers_are_cut_off_at_the_largest, law_timer_takes_the_whole_span, Duration};
use crate::wait::{Wait, WaitEvent, WaitResult, WaitSetup};
use crate::wait_laws::law_deadline_is_fixed;

verus! {

/// What the first wait of a row of events came to.
pub open spec fn first_wait(events: Seq<MonitorEvent>) -> Option<WaitResult>
    decreases events.len(),
{
    if events.len() == 0 {
        None
    } else {
        match first_wait(events.drop_last()) {
            Some(result) => Some(result),
            None => match events.last() {
                MonitorEvent::Waited(Ok(result)) => Some(result),
                _ => None,
            },
        }
    }
}

/// What the last wait of a row of events came to.
pub open spec fn last_wait(events: Seq<MonitorEvent>) -> Option<WaitResult>
    decreases events.len(),
{
    if events.len() == 0 {
        None
    } else {
        match events.last() {
            MonitorEvent::Waited(Ok(result)) => Some(result),
            _ => last_wait(events.drop_last()),
        }
    }
}

/// How many waits there were in a row of events.
pub open spec fn waits(events: Seq<MonitorEvent>) -> nat
    decreases events.len(),
{
    if events.len() == 0 {
        0
    } else {
        waits(events.drop_last()) + if events.last() is Waited {
            1nat
        } else {
            0
        }
    }
}

/// How the command ended and what it used, as a row of events collected it.
pub open spec fn collected(events: Seq<MonitorEvent>) -> Option<(RawExitStatus, ResourceUsage)>
    decreases events.len(),
{
    if events.len() == 0 {
        None
    } else {
        match events.last() {
            MonitorEvent::Waited(Ok(WaitResult::Exited(status, rusage))) => Some((status, rusage)),
            MonitorEvent::Reaped(Ok((status, rusage))) => Some((status, rusage)),
            _ => collected(events.drop_last()),
        }
    }
}

/// What became of the hook in a row of events.
pub open spec fn hook_came_to(events: Seq<MonitorEvent>) -> Option<HookResult>
    decreases events.len(),
{
    if events.len() == 0 {
        None
    } else {
        match events.last() {
            MonitorEvent::HookRan(hook) => Some(hook),
            _ => hook_came_to(events.drop_last()),
        }
    }
}

/// The first reading of the clock in a row of events.
pub open spec fn started_at(events: Seq<MonitorEvent>) -> Option<u64>
    decreases events.len(),
{
    if events.len() == 0 {
        None
    } else {
        match started_at(events.drop_last()) {
            Some(now) => Some(now),
            None => match events.last() {
                MonitorEvent::Clock(Ok(now)) => Some(now),
                _ => None,
            },
        }
    }
}

/// Could the processor time be watched?
pub open spec fn throttle_began(events: Seq<MonitorEvent>) -> bool
    decreases events.len(),
{
    events.len() > 0 && (throttle_began(events.drop_last()) || (events.last() matches
        MonitorEvent::ThrottleStarted(Ok(_))))
}

/// Is this cause what the events came to?
spec fn cause_found(cause: Cause, events: Seq<MonitorEvent>) -> bool {
    match cause {
        Cause::Timeout { reason, hook } => first_wait(events) == Some(WaitResult::TimedOut(reason))
            && hook_came_to(events) == hook,
        Cause::Memory { limit_bytes, actual_bytes } => first_wait(events) == Some(
            WaitResult::MemoryLimitExceeded { limit_bytes, actual_bytes },
        ),
    }
}

/// Does the outcome tell what the events came to? A command that completed was
/// found to have ended. One that ran out of something was found to; how it ended
/// and what it used is as it was collected, and the hook's result as the hook came
/// back. A signal that was passed on came during the last wait.
pub open spec fn tells(result: RunResult, events: Seq<MonitorEvent>) -> bool {
    match result {
        RunResult::Completed { status, rusage } => first_wait(events) == Some(
            WaitResult::Exited(status, rusage),
        ),
        RunResult::TimedOut { reason, hook, status, rusage, .. } => {
            &&& first_wait(events) == Some(WaitResult::TimedOut(reason))
            &&& hook_came_to(events) == hook
            &&& status is Some && rusage is Some
            &&& collected(events) == Some((status->0, rusage->0))
        },
        RunResult::MemoryLimitExceeded { limit_bytes, actual_bytes, status, rusage, .. } => {
            &&& first_wait(events) == Some(
                WaitResult::MemoryLimitExceeded { limit_bytes, actual_bytes },
            )
            &&& status is Some && rusage is Some
            &&& collected(events) == Some((status->0, rusage->0))
        },
        RunResult::SignalForwarded { signal, status, rusage } => {
            &&& last_wait(events) == Some(WaitResult::ReceivedSignal(signal))
            &&& first_wait(events) == last_wait(events) || first_wait(events)->0 is TimedOut
            &&& status is Some <==> rusage is Some
            &&& status is Some ==> collected(events) == Some((status->0, rusage->0))
            &&& status is None ==> collected(events) is None
        },
    }
}

/// Was the command killed?
pub open spec fn told_killed(result: RunResult) -> bool {
    match result {
        RunResult::TimedOut { killed, .. } => killed,
        RunResult::MemoryLimitExceeded { killed, .. } => killed,
        _ => false,
    }
}

/// Did the first wait find that the command ran out of something?
pub open spec fn found_running_out(events: Seq<MonitorEvent>) -> bool {
    first_wait(events) matches Some(WaitResult::TimedOut(_)) || first_wait(events) matches Some(
        WaitResult::MemoryLimitExceeded { .. },
    )
}

/// Does a command that had a second wait have to be killed? Not if it ended in
/// time, nor if it ran out of time and a signal came that is to be passed on.
pub open spec fn outlasted_grace(events: Seq<MonitorEvent>) -> bool {
    match last_wait(events) {
        Some(WaitResult::Exited(_, _)) => false,
        Some(WaitResult::ReceivedSignal(_)) => !(first_wait(events)->0 is TimedOut),
        _ => true,
    }
}

/// What has been found, by where the monitor is.
spec fn found(phase: MonitorPhase, events: Seq<MonitorEvent>, config: RunConfig) -> bool {
    match phase {
        MonitorPhase::Starting | MonitorPhase::StartingThrottle | MonitorPhase::SayingNoThrottle
        | MonitorPhase::Waiting => {
            &&& first_wait(events) is None
            &&& last_wait(events) is None
            &&& waits(events) == 0
            &&& collected(events) is None
            &&& hook_came_to(events) is None
        },
        MonitorPhase::SayingReason(reason) | MonitorPhase::Hooking(reason) => {
            &&& first_wait(events) == Some(WaitResult::TimedOut(reason))
            &&& last_wait(events) == first_wait(events)
            &&& waits(events) == 1
            &&& collected(events) is None
            &&& hook_came_to(events) is None
        },
        MonitorPhase::Saying(purpose) | MonitorPhase::Resuming(purpose)
        | MonitorPhase::Sending(purpose) | MonitorPhase::Reaping(purpose) => {
            &&& collected(events) is None
            &&& match purpose {
                Purpose::Forward(signal) => {
                    &&& last_wait(events) == Some(WaitResult::ReceivedSignal(signal))
                    &&& waits(events) == 1 && first_wait(events) == last_wait(events) || waits(
                        events,
                    ) == 2 && first_wait(events)->0 is TimedOut && first_wait(events) is Some
                        && config.kill_after is Some
                },
                Purpose::Stop(cause) => {
                    &&& cause_found(cause, events)
                    &&& last_wait(events) == first_wait(events)
                    &&& waits(events) == 1
                    &&& phase is Reaping ==> config.kill_after is None
                },
                Purpose::Kill(cause) => {
                    &&& cause_found(cause, events)
                    &&& waits(events) == 2
                    &&& outlasted_grace(events)
                    &&& config.kill_after is Some
                },
            }
        },
        MonitorPhase::Grace(cause) => {
            &&& cause_found(cause, events)
            &&& last_wait(events) == first_wait(events)
            &&& waits(events) == 1
            &&& collected(events) is None
            &&& config.kill_after is Some
        },
        MonitorPhase::Marking(result) => tells_all(result, events, config),
        MonitorPhase::Done => true,
    }
}

/// Does the outcome tell what was found, and what was done about it?
pub open spec fn tells_all(
    result: RunResult,
    events: Seq<MonitorEvent>,
    config: RunConfig,
) -> bool {
    &&& tells(result, events)
    &&& waits(events) == if found_running_out(events) && config.kill_after is Some {
        2nat
    } else {
        1
    }
    &&& told_killed(result) <==> waits(events) == 2 && outlasted_grace(events)
}

#[verifier::rlimit(60)]
proof fn lemma_step_finds(
    monitor: Monitor,
    before: Seq<MonitorEvent>,
    event: MonitorEvent,
    config: RunConfig,
)
    requires
        monitor.awaits(event),
        found(monitor.phase, before, config),
    ensures
        found(monitor.next(event, config).0.phase, before.push(event), config),
        monitor.next(event, config).1 matches MonitorAction::Return(Ok(result)) ==> tells_all(
            result,
            before.push(event),
            config,
        ),
{
    let events = before.push(event);
    assert(events.drop_last() =~= before);
    assert(events.last() == event);
    match (monitor.phase, event) {
        (MonitorPhase::Starting, _) => {},
        (MonitorPhase::Waiting, MonitorEvent::Waited(Ok(WaitResult::TimedOut(_)))) => {},
        (MonitorPhase::Waiting, MonitorEvent::Waited(Ok(WaitResult::Exited(_, _)))) => {},
        (MonitorPhase::Waiting, _) => {},
        (MonitorPhase::SayingReason(_), _) => {},
        (MonitorPhase::Hooking(_), _) => {},
        (MonitorPhase::Saying(_), _) => {},
        (MonitorPhase::Sending(_), _) => {},
        (MonitorPhase::Grace(_), MonitorEvent::Waited(Ok(WaitResult::ReceivedSignal(_)))) => {},
        (MonitorPhase::Grace(_), _) => {},
        (MonitorPhase::Reaping(_), _) => {},
        (MonitorPhase::Marking(_), _) => {},
        _ => {},
    }
}

proof fn lemma_finds(pid: i32, events: Seq<MonitorEvent>, config: RunConfig)
    requires
        Monitor::begun(pid).answered_by(events, config),
    ensures
        found(Monitor::begun(pid).after(events, config).phase, events, config),
    decreases events.len(),
{
    if events.len() > 0 {
        let before = events.drop_last();
        lemma_finds(pid, before, config);
        lemma_step_finds(
            Monitor::begun(pid).after(before, config),
            before,
            events.last(),
            config,
        );
        assert(before.push(events.last()) =~= events);
    }
}

/// The outcome tells what was found: how the command ended as it was collected,
/// what it ran out of as the first wait reported it, the hook's result as the hook
/// came back, and a signal as it was taken in. Nothing is made up and nothing is
/// lost.
pub proof fn law_outcome_tells_what_was_found(
    pid: i32,
    events: Seq<MonitorEvent>,
    config: RunConfig,
    result: RunResult,
)
    requires
        events.len() > 0,
        Monitor::begun(pid).answered_by(events, config),
        Monitor::begun(pid).wants(events, config) == MonitorAction::Return(Ok(result)),
    ensures
        tells(result, events),
{
    let before = events.drop_last();
    lemma_finds(pid, before, config);
    lemma_step_finds(Monitor::begun(pid).after(before, config), before, events.last(), config);
    assert(before.push(events.last()) =~= events);
}

/// A command that ran out of something has a grace period exactly if one is
/// configured. It is killed exactly if it outlasts that: if it ends by itself
/// meanwhile it is not, nor if it ran out of time and a signal comes that is
/// passed on instead.
pub proof fn law_command_is_killed_if_it_outlasts_grace(
    pid: i32,
    events: Seq<MonitorEvent>,
    config: RunConfig,
    result: RunResult,
)
    requires
        events.len() > 0,
        Monitor::begun(pid).answered_by(events, config),
        Monitor::begun(pid).wants(events, config) == MonitorAction::Return(Ok(result)),
    ensures
        waits(events) == (if found_running_out(events) && config.kill_after is Some {
            2nat
        } else {
            1
        }),
        told_killed(result) <==> waits(events) == 2 && outlasted_grace(events),
{
    let before = events.drop_last();
    lemma_finds(pid, before, config);
    lemma_step_finds(Monitor::begun(pid).after(before, config), before, events.last(), config);
    assert(before.push(events.last()) =~= events);
}

/// Has the monitor the start and the throttle that the events gave it?
spec fn equipped(monitor: Monitor, events: Seq<MonitorEvent>, config: RunConfig) -> bool {
    match monitor.phase {
        MonitorPhase::Starting => {
            &&& started_at(events) is None
            &&& !throttle_began(events)
            &&& monitor.throttle is None
        },
        MonitorPhase::StartingThrottle | MonitorPhase::SayingNoThrottle => {
            &&& started_at(events) == Some(monitor.start_ns)
            &&& !throttle_began(events)
            &&& monitor.throttle is None
            &&& config.cpu_throttle is Some
        },
        MonitorPhase::Done => true,
        _ => {
            &&& started_at(events) == Some(monitor.start_ns)
            &&& monitor.throttle is Some <==> throttle_began(events)
            &&& monitor.throttle matches Some(t) ==> (config.cpu_throttle matches Some(cfg)
                && t.interval_ns == cfg.interval_ns && t.last_wall_ns == monitor.start_ns)
        },
    }
}

#[verifier::rlimit(40)]
proof fn lemma_equipped(pid: i32, events: Seq<MonitorEvent>, config: RunConfig)
    requires
        Monitor::begun(pid).answered_by(events, config),
    ensures
        equipped(Monitor::begun(pid).after(events, config), events, config),
        Monitor::begun(pid).after(events, config).pid == pid,
    decreases events.len(),
{
    if events.len() > 0 {
        lemma_equipped(pid, events.drop_last(), config);
        let was = Monitor::begun(pid).after(events.drop_last(), config);
        match (was.phase, events.last()) {
            (MonitorPhase::Starting, _) => {},
            (MonitorPhase::StartingThrottle, _) => {},
            (MonitorPhase::Waiting, _) => {},
            (MonitorPhase::Grace(_), _) => {},
            (MonitorPhase::Reaping(_), _) => {},
            _ => {},
        }
    }
}

/// A running command is waited for with all the limits that are configured and no
/// others: its time, of which zero is no limit, its idle input, its memory, which
/// is looked at ten times a second, and its processor time where that can be
/// watched. Every span counts from when the command was first watched.
pub proof fn law_running_command_has_its_limits(
    pid: i32,
    events: Seq<MonitorEvent>,
    config: RunConfig,
    setup: WaitSetup,
)
    requires
        events.len() > 0,
        Monitor::begun(pid).answered_by(events, config),
        Monitor::begun(pid).wants(events, config) == MonitorAction::Wait(setup),
        waits(events) == 0,
    ensures
        setup.pid == pid,
        config.timeout.total_ns() == 0 ==> setup.wall_timeout is None,
        config.timeout.total_ns() > 0 ==> setup.wall_timeout == Some(config.timeout),
        setup.heartbeat is Some <==> config.heartbeat is Some,
        setup.heartbeat matches Some(h) ==> {
            &&& h.pid == pid
            &&& h.quiet == config.quiet
            &&& started_at(events) == Some(h.start_ns)
            &&& config.heartbeat->0.total_ns() <= i64::MAX ==> h.interval_ns
                == config.heartbeat->0.total_ns()
            &&& config.heartbeat->0.total_ns() > i64::MAX ==> h.interval_ns == i64::MAX
        },
        setup.stdin_timeout is Some <==> config.stdin_timeout is Some,
        setup.stdin_timeout matches Some(c) ==> {
            &&& c.mode is Passthrough <==> config.stdin_passthrough
            &&& started_at(events) == Some(c.last_activity_ns)
            &&& config.stdin_timeout->0.total_ns() <= i64::MAX ==> c.timeout_ns
                == config.stdin_timeout->0.total_ns()
            &&& config.stdin_timeout->0.total_ns() > i64::MAX ==> c.timeout_ns == i64::MAX
        },
        setup.memory_limit is Some <==> config.limits.mem_bytes is Some,
        setup.memory_limit matches Some(m) ==> config.limits.mem_bytes == Some(m.limit_bytes)
            && m.check_interval_ns * 10 == 1_000_000_000,
        setup.throttle is Some <==> throttle_began(events),
        setup.throttle matches Some(t) ==> config.cpu_throttle is Some && t.interval_ns
            == config.cpu_throttle->0.interval_ns && started_at(events) == Some(t.last_wall_ns),
{
    lemma_equipped(pid, events.drop_last(), config);
    lemma_equipped(pid, events, config);
    lemma_finds(pid, events.drop_last(), config);
    if config.heartbeat is Some {
        law_timer_takes_the_whole_span(config.heartbeat->0);
    }
    if config.stdin_timeout is Some {
        law_timer_takes_the_whole_span(config.stdin_timeout->0);
    }
    let was = Monitor::begun(pid).after(events.drop_last(), config);
    match (was.phase, events.last()) {
        (MonitorPhase::Starting, _) => {},
        (MonitorPhase::StartingThrottle, _) => {},
        (MonitorPhase::Waiting, _) => {},
        (MonitorPhase::Sending(_), _) => {},
        _ => {},
    }
}

/// Once the signal to stop has gone out, a command is waited for as long as the
/// grace period is, if there is one, whatever its time limit was: nothing but that
/// period, its exit and a signal ends the wait. Without a grace period it is
/// collected however long that takes. A signal that was passed on, and one that
/// kills, are never followed by another wait.
pub proof fn law_stopped_command_has_its_grace(
    pid: i32,
    events: Seq<MonitorEvent>,
    config: RunConfig,
)
    requires
        events.len() > 0,
        Monitor::begun(pid).answered_by(events, config),
        events.last() matches MonitorEvent::Sent(Ok(_)),
    ensures
        ({
            let action = Monitor::begun(pid).wants(events, config);
            let stops = found_running_out(events) && waits(events) == 1;
            &&& stops && config.kill_after is Some ==> {
                &&& action is Wait
                &&& action->Wait_0.wall_timeout == config.kill_after
                &&& action->Wait_0.pid == pid
                &&& action->Wait_0.heartbeat is None
                &&& action->Wait_0.stdin_timeout is None
                &&& action->Wait_0.throttle is None
                &&& action->Wait_0.memory_limit is None
            }
            &&& stops && config.kill_after is None ==> action is Reap
            &&& !stops ==> action is Reap
        }),
{
    lemma_finds(pid, events.drop_last(), config);
    lemma_equipped(pid, events.drop_last(), config);
}

/// The wait after the signal to stop runs out of time no sooner than the grace
/// period after it began: its deadline is that long after the first reading of its
/// clock, as far as clocks reach.
pub proof fn law_grace_lasts_as_long_as_configured(
    pid: i32,
    events: Seq<MonitorEvent>,
    config: RunConfig,
    grace: Duration,
    signal_fd: i32,
    start: u64,
    during: Seq<WaitEvent>,
)
    requires
        events.len() > 0,
        Monitor::begun(pid).answered_by(events, config),
        events.last() matches MonitorEvent::Sent(Ok(_)),
        found_running_out(events) && waits(events) == 1,
        config.kill_after == Some(grace),
        during.len() > 0,
        during[0] == WaitEvent::Clock(Ok(start)),
        Wait::begun(
            Monitor::begun(pid).wants(events, config)->Wait_0,
            signal_fd,
        ).answered_by(during),
    ensures
        Monitor::begun(pid).wants(events, config) is Wait,
        ({
            let setup = Monitor::begun(pid).wants(events, config)->Wait_0;
            let deadline = Wait::begun(setup, signal_fd).after(during).deadline_ns;
            &&& grace.total_ns() <= i64::MAX && start + grace.total_ns() <= u64::MAX ==> deadline
                == start + grace.total_ns()
            &&& grace.total_ns() > i64::MAX && start + i64::MAX <= u64::MAX ==> deadline == start
                + i64::MAX
        }),
{
    law_stopped_command_has_its_grace(pid, events, config);
    let setup = Monitor::begun(pid).wants(events, config)->Wait_0;
    law_deadline_is_fixed(setup, signal_fd, start, during);
    law_timer_takes_the_whole_span(grace);
    law_numbers_are_cut_off_at_the_largest(start + grace.total_ns());
    law_numbers_are_cut_off_at_the_largest(start + i64::MAX);
}

/// A watch fails only with an error that an action came back with, and always with
/// the first such: of the clock, of a wait, of a signal, or of collecting the
/// command. That a command could not be collected after a signal was passed on is
/// no failure.
pub proof fn law_watch_fails_as_its_actions_do(
    pid: i32,
    events: Seq<MonitorEvent>,
    config: RunConfig,
)
    requires
        events.len() > 0,
        Monitor::begun(pid).answered_by(events, config),
    ensures
        ({
            let action = Monitor::begun(pid).wants(events, config);
            let passed_on = last_wait(events) matches Some(WaitResult::ReceivedSignal(_)) && (
            first_wait(events) == last_wait(events) || first_wait(events)->0 is TimedOut);
            &&& events.last() matches MonitorEvent::Clock(Err(e)) ==> action
                == MonitorAction::Return(Err(e))
            &&& events.last() matches MonitorEvent::Waited(Err(e)) ==> action
                == MonitorAction::Return(Err(e))
            &&& events.last() matches MonitorEvent::Sent(Err(e)) ==> action
                == MonitorAction::Return(Err(e))
            &&& events.last() matches MonitorEvent::Reaped(Err(SpawnError::Wait(errno)))
                ==> !passed_on ==> action == MonitorAction::Return(
                Err(TimeoutError::SpawnError(errno)),
            )
            &&& events.last() matches MonitorEvent::Reaped(Err(_)) ==> !passed_on ==> action
                is Return && action->Return_0 is Err
            &&& events.last() matches MonitorEvent::Reaped(_) ==> passed_on ==> action is MarkExited
                || action is Return && action->Return_0 is Ok
            &&& action is Return && action->Return_0 is Err ==> {
                ||| events.last() == MonitorEvent::Clock(Err(action->Return_0->Err_0))
                ||| events.last() == MonitorEvent::Waited(Err(action->Return_0->Err_0))
                ||| events.last() == MonitorEvent::Sent(Err(action->Return_0->Err_0))
                ||| events.last() matches MonitorEvent::Reaped(Err(_))
            }
        }),
{
    lemma_finds(pid, events.drop_last(), config);
    let was = Monitor::begun(pid).after(events.drop_last(), config);
    match (was.phase, events.last()) {
        (MonitorPhase::Starting, _) => {},
        (MonitorPhase::Waiting, _) => {},
        (MonitorPhase::Grace(_), _) => {},
        (MonitorPhase::Reaping(_), _) => {},
        (MonitorPhase::Sending(_), _) => {},
        (MonitorPhase::Saying(_), _) => {},
        _ => {},
    }
}

/// Every signal goes to the command, to its group or not as is configured. The
/// first is the configured one, unless a signal is passed on, which goes as it
/// came; the one that kills is `SIGKILL`.
#[verifier::rlimit(40)]
pub proof fn law_signals_are_the_configured_ones(
    pid: i32,
    events: Seq<MonitorEvent>,
    config: RunConfig,
)
    requires
        events.len() > 0,
        Monitor::begun(pid).answered_by(events, config),
        Monitor::begun(pid).wants(events, config) is Send,
    ensures
        ({
            let action = Monitor::begun(pid).wants(events, config);
            &&& action->Send_pid == pid
            &&& action->Send_foreground == config.foreground
            &&& last_wait(events) matches Some(WaitResult::ReceivedSignal(signal)) ==> (
            first_wait(events) == last_wait(events) || first_wait(events)->0 is TimedOut)
                ==> action->Send_signal == signal
            &&& found_running_out(events) && waits(events) == 1 ==> action->Send_signal
                == config.signal
            &&& waits(events) == 2 && outlasted_grace(events) ==> action->Send_signal
                == Signal::SIGKILL
            &&& waits(events) == 1 || waits(events) == 2
        }),
{
    lemma_finds(pid, events.drop_last(), config);
    lemma_finds(pid, events, config);
    lemma_equipped(pid, events.drop_last(), config);
    let was = Monitor::begun(pid).after(events.drop_last(), config);
    match (was.phase, events.last()) {
        (MonitorPhase::Waiting, _) => {},
        (MonitorPhase::Grace(_), _) => {},
        (MonitorPhase::Hooking(_), _) => {},
        (MonitorPhase::SayingReason(_), _) => {},
        _ => {},
    }
}

/// The processor time is seen to first: where a share is configured the throttle
/// begins with the watch, and where it cannot the command runs on without, with a
/// warning unless all is to be quiet. Otherwise the command is waited for at once.
pub proof fn law_throttle_begins_with_the_watch(pid: i32, now: u64, config: RunConfig)
    ensures
        ({
            let (monitor, action) = Monitor::begun(pid).next(MonitorEvent::Clock(Ok(now)), config);
            &&& config.cpu_throttle is Some ==> action == (MonitorAction::StartThrottle {
                pid,
                start_ns: now,
            })
            &&& config.cpu_throttle is None ==> action is Wait
            &&& config.cpu_throttle is Some ==> monitor.next(
                MonitorEvent::ThrottleStarted(Ok(())),
                config,
            ).1 is Wait
            &&& forall|e: TimeoutError|
                config.cpu_throttle is Some ==> (#[trigger] monitor.next(
                    MonitorEvent::ThrottleStarted(Err(e)),
                    config,
                )).1 is Wait == config.quiet && (!config.quiet ==> monitor.next(
                    MonitorEvent::ThrottleStarted(Err(e)),
                    config,
                ).1 == MonitorAction::Say(Notice::ThrottleDisabled(e)))
        }),
{
}

/// A loud supervisor says what it does before it does it: what the command ran out
/// of, what it uses, what it is sent, and what is passed on to it. Only the kill of
/// a command that uses too much memory needs no more words.
pub proof fn law_loud_watch_is_announced(monitor: Monitor, event: MonitorEvent, config: RunConfig)
    requires
        monitor.awaits(event),
        config.verbose && !config.quiet,
    ensures
        ({
            let action = monitor.next(event, config).1;
            &&& monitor.phase is Waiting ==> {
                &&& event matches MonitorEvent::Waited(Ok(WaitResult::TimedOut(reason)))
                    ==> action == MonitorAction::Say(Notice::Triggered(reason))
                &&& event matches MonitorEvent::Waited(Ok(WaitResult::ReceivedSignal(signal)))
                    ==> action == MonitorAction::Say(Notice::Forwarding(signal))
                &&& event matches MonitorEvent::Waited(
                    Ok(WaitResult::MemoryLimitExceeded { limit_bytes, actual_bytes }),
                ) ==> action == MonitorAction::Say(
                    Notice::MemoryExceeded { actual_bytes, limit_bytes },
                )
            }
            &&& monitor.phase is SayingReason && config.on_timeout is None || monitor.phase
                is Hooking ==> action == MonitorAction::Say(Notice::Sending(config.signal))
            &&& monitor.phase matches MonitorPhase::Grace(cause) ==> {
                &&& event matches MonitorEvent::Waited(Ok(WaitResult::TimedOut(_))) ==> cause
                    is Timeout ==> action == MonitorAction::Say(Notice::Sending(Signal::SIGKILL))
                &&& event matches MonitorEvent::Waited(Ok(WaitResult::ReceivedSignal(signal)))
                    ==> cause is Timeout ==> action == MonitorAction::Say(
                    Notice::Forwarding(signal),
                )
                &&& cause is Memory ==> action !is Say
            }
        }),
{
}

/// A timeout is acted on at once where nothing is said: the hook runs if there is
/// one, and otherwise the command is let go on if it may be stopped, and sent its
/// signal. After the hook, and after what is said, it goes on in the same way.
pub proof fn law_timeout_is_acted_on(
    monitor: Monitor,
    reason: TimeoutReason,
    hook: HookResult,
    config: RunConfig,
)
    ensures
        ({
            let told = monitor.phase == MonitorPhase::SayingReason(reason);
            let silent = !(config.verbose && !config.quiet);
            let event = if told {
                MonitorEvent::Said
            } else {
                MonitorEvent::Waited(Ok(WaitResult::TimedOut(reason)))
            };
            let action = monitor.next(event, config).1;
            &&& told || monitor.phase is Waiting && silent ==> {
                &&& config.on_timeout matches Some(text) ==> action == (MonitorAction::RunHook {
                    pid: monitor.pid,
                    hook: text,
                })
                &&& config.on_timeout is None && silent ==> action == if monitor.throttle is Some {
                    MonitorAction::Resume
                } else {
                    MonitorAction::Send {
                        pid: monitor.pid,
                        signal: config.signal,
                        foreground: config.foreground,
                    }
                }
            }
            &&& monitor.phase is Hooking && silent ==> monitor.next(
                MonitorEvent::HookRan(hook),
                config,
            ).1 == if monitor.throttle is Some {
                MonitorAction::Resume
            } else {
                MonitorAction::Send {
                    pid: monitor.pid,
                    signal: config.signal,
                    foreground: config.foreground,
                }
            }
        }),
{
}

/// Only a command that may be stopped is let go on, and only of one whose processor
/// time is watched is its end noted; of each of those it is.
pub proof fn law_only_a_throttled_command_is_let_go(
    monitor: Monitor,
    event: MonitorEvent,
    config: RunConfig,
)
    requires
        monitor.awaits(event),
        monitor.throttle is None,
        monitor.phase !is StartingThrottle,
    ensures
        monitor.next(event, config).1 !is Resume,
        monitor.next(event, config).1 !is MarkExited,
        monitor.next(event, config).0.throttle is None,
{
    match (monitor.phase, event) {
        (MonitorPhase::Waiting, _) => {},
        (MonitorPhase::Grace(_), _) => {},
        (MonitorPhase::Reaping(_), _) => {},
        _ => {},
    }
}

} // verus!
