//! What a wait does about each thing that happens.

use vstd::prelude::*;

use crate::error::{InternalError, SpawnError, TimeoutError};
use crate::kqueue::{KernelEvent, KeventChange};
use crate::outcome::TimeoutReason;
use crate::process::{RawExitStatus, ResourceUsage};
use crate::time::{law_numbers_are_cut_off_at_the_largest, law_timer_takes_the_whole_span};
use crate::wait::{
    AfterClose, StdinChange, StdinTimeoutConfig, Wait, WaitAction, WaitEnd, WaitEvent, WaitPhase,
    WaitResult, WaitSetup,
};

verus! {

/// The moment `delta` after `at`, as far as clocks reach.
pub open spec fn moment_after(at: u64, delta: u64) -> int {
    if at + delta <= u64::MAX {
        at + delta
    } else {
        u64::MAX as int
    }
}

/// Has input been idle at `now` for as long as it may?
pub open spec fn idle_at(wait: Wait, now: u64) -> bool {
    wait.stdin matches Some(c) && c.last_activity_ns <= now && now - c.last_activity_ns
        >= c.timeout_ns
}

/// Does the wait close its queue to return this?
pub open spec fn ends_with(
    wait: Wait,
    next: (Wait, WaitAction),
    result: Result<WaitResult, TimeoutError>,
) -> bool {
    &&& next.1 == (WaitAction::CloseQueue { queue: wait.queue })
    &&& next.0.awaits(WaitEvent::Closed)
    &&& next.0.next(WaitEvent::Closed).1 == WaitAction::Return(result)
}

/// Does the wait look at the clock and go on, knowing what it knew?
pub open spec fn goes_on(wait: Wait, next: (Wait, WaitAction)) -> bool {
    &&& next.0 == (Wait { phase: WaitPhase::LoopClock, ..wait })
    &&& next.1 == (WaitAction::ReadClock { confine: wait.confine })
}

/// A wait begins with what it was given, and with a signal pipe exactly if there
/// is one.
pub proof fn law_wait_begins_as_set_up(setup: WaitSetup, signal_fd: i32)
    ensures
        ({
            let wait = Wait::begun(setup, signal_fd);
            &&& wait.pid == setup.pid
            &&& wait.wall_timeout == setup.wall_timeout
            &&& wait.heartbeat == setup.heartbeat
            &&& wait.stdin == setup.stdin_timeout
            &&& wait.throttle == setup.throttle
            &&& wait.memory == setup.memory_limit
            &&& wait.confine == setup.confine
            &&& signal_fd >= 0 ==> wait.signal_fd == Some(signal_fd)
            &&& signal_fd < 0 ==> wait.signal_fd is None
            &&& !wait.stdin_enabled
            &&& wait.awaits(WaitEvent::Clock(Ok(0)))
        }),
{
}

/// The first reading of the clock sets all deadlines, each as far ahead as was
/// asked for, and none that was not. Then input is seen to, if it is watched, and
/// a queue is opened.
pub proof fn law_deadlines_count_from_the_start(wait: Wait, start: u64)
    requires
        wait.phase is Starting,
    ensures
        ({
            let (then, action) = wait.next(WaitEvent::Clock(Ok(start)));
            &&& wait.wall_timeout is None ==> then.deadline_ns == u64::MAX
            &&& wait.wall_timeout matches Some(d) ==> (d.total_ns() <= i64::MAX ==> then.deadline_ns
                == moment_after(start, d.total_ns() as u64))
            &&& wait.wall_timeout matches Some(d) ==> (d.total_ns() > i64::MAX ==> then.deadline_ns
                == moment_after(start, i64::MAX as u64))
            &&& wait.heartbeat is None ==> then.next_heartbeat_ns == u64::MAX
            &&& wait.heartbeat matches Some(h) ==> (h.interval_ns > 0 ==> then.next_heartbeat_ns
                == moment_after(start, h.interval_ns))
            &&& wait.heartbeat matches Some(h) ==> (h.interval_ns == 0 ==> then.next_heartbeat_ns
                == u64::MAX)
            &&& wait.throttle is None ==> then.next_throttle_ns == u64::MAX
            &&& wait.throttle matches Some(t) ==> then.next_throttle_ns == moment_after(
                t.last_wall_ns,
                t.interval_ns,
            )
            &&& wait.memory is None ==> then.next_memory_check_ns == u64::MAX
            &&& wait.memory matches Some(m) ==> then.next_memory_check_ns == moment_after(
                start,
                m.check_interval_ns,
            )
            &&& wait.stdin is Some ==> action is StatStdin
            &&& wait.stdin is None ==> action is OpenQueue
            &&& then == (Wait {
                phase: then.phase,
                deadline_ns: then.deadline_ns,
                next_heartbeat_ns: then.next_heartbeat_ns,
                next_throttle_ns: then.next_throttle_ns,
                next_memory_check_ns: then.next_memory_check_ns,
                ..wait
            })
        }),
{
    if wait.wall_timeout is Some {
        law_timer_takes_the_whole_span(wait.wall_timeout->0);
    }
}

/// Input that is not open is not watched. Input that is left for the child is
/// polled; if there is data it is active then, and if it has ended it is not
/// watched. Any other input is watched by the queue.
pub proof fn law_input_is_seen_to_first(
    wait: Wait,
    stat: i32,
    ready: i32,
    revents: i16,
    now: u64,
)
    requires
        wait.stdin is Some,
    ensures
        ({
            let (then, action) = wait.next(WaitEvent::StdinStat(stat));
            wait.phase is CheckingStdin ==> {
                &&& stat < 0 ==> action is OpenQueue && then == (Wait {
                    phase: WaitPhase::Opening,
                    stdin: None,
                    ..wait
                })
                &&& stat >= 0 && wait.stdin->0.mode is Passthrough ==> action is PollStdin && then
                    == (Wait { phase: WaitPhase::FirstPoll, ..wait })
                &&& stat >= 0 && wait.stdin->0.mode is Consume ==> action is OpenQueue && then
                    == (Wait {
                    phase: WaitPhase::Opening,
                    stdin_enabled: true,
                    stdin_change: StdinChange::Add,
                    ..wait
                })
            }
        }),
        ({
            let (then, action) = wait.next(WaitEvent::Polled { ready, revents });
            wait.phase is FirstPoll ==> {
                &&& ready > 0 && revents & 1 != 0 ==> action is ReadClock && then == (Wait {
                    phase: WaitPhase::FirstActivity,
                    ..wait
                })
                &&& ready > 0 && revents & 1 == 0 && revents & 16 != 0 ==> action is OpenQueue
                    && then == (Wait { phase: WaitPhase::Opening, stdin: None, ..wait })
                &&& ready <= 0 || revents & 1 == 0 && revents & 16 == 0 ==> action is OpenQueue
                    && then == (Wait { phase: WaitPhase::Opening, ..wait })
            }
        }),
        ({
            let (then, action) = wait.next(WaitEvent::Clock(Ok(now)));
            wait.phase is FirstActivity ==> action is OpenQueue && then == (Wait {
                phase: WaitPhase::Opening,
                stdin: Some(StdinTimeoutConfig { last_activity_ns: now, ..wait.stdin->0 }),
                ..wait
            })
        }),
{
}

/// A queue that could be had is used from then on; without one the wait fails.
pub proof fn law_queue_is_used_once_opened(wait: Wait, fd: i32, errno: i32)
    requires
        wait.phase is Opening,
    ensures
        fd < 0 ==> wait.next(WaitEvent::Queue { fd, errno }).1 == WaitAction::Return(
            Err(TimeoutError::Internal(InternalError::KqueueFailed(errno))),
        ),
        fd >= 0 ==> goes_on(Wait { queue: fd, ..wait }, wait.next(WaitEvent::Queue { fd, errno })),
{
}

/// Whatever a wait is about, it fails with the clock, and with the throttle.
pub proof fn law_wait_fails_with_its_clock(wait: Wait, error: TimeoutError)
    ensures
        wait.awaits(WaitEvent::Clock(Err(error))) ==> wait.next(WaitEvent::Clock(Err(error))).1
            == WaitAction::Return(Err(error)),
        wait.awaits(WaitEvent::Throttled(Err(error))) ==> wait.next(
            WaitEvent::Throttled(Err(error)),
        ).1 == WaitAction::Return(Err(error)),
{
}

/// At each turn the wait is out of time exactly if the deadline has come, and
/// otherwise out of input exactly if that has been idle for as long as it may.
/// Otherwise it sleeps, on its queue, until the first moment at which there is
/// something to do: it never sleeps past one, and not at all if one has passed.
pub proof fn law_turn_ends_or_sleeps(wait: Wait, now: u64)
    requires
        wait.phase is LoopClock,
    ensures
        ({
            let next = wait.next(WaitEvent::Clock(Ok(now)));
            let out_of_time = wait.deadline_ns <= now;
            &&& out_of_time ==> ends_with(
                wait,
                next,
                Ok(WaitResult::TimedOut(TimeoutReason::WallClock)),
            )
            &&& !out_of_time && idle_at(wait, now) ==> ends_with(
                wait,
                next,
                Ok(WaitResult::TimedOut(TimeoutReason::StdinIdle)),
            )
            &&& !out_of_time && !idle_at(wait, now) ==> {
                &&& next.0 == (Wait { phase: WaitPhase::Waiting, ..wait })
                &&& next.1 is Submit
                &&& next.1->Submit_queue == wait.queue
                &&& sleeps_until_due(wait, now, next.1->Submit_wake_ns as int)
            }
        }),
{
}

/// Is `wake` how long to sleep from `now`: until the first moment at which there
/// is something to do, but no longer than the kernel takes?
pub open spec fn sleeps_until_due(wait: Wait, now: u64, wake: int) -> bool {
    &&& 0 <= wake <= i64::MAX
    &&& now + wake <= wait.deadline_ns
    &&& wake == 0 || now + wake <= wait.next_heartbeat_ns
    &&& wake == 0 || now + wake <= wait.next_throttle_ns
    &&& wake == 0 || now + wake <= wait.next_memory_check_ns
    &&& wait.stdin matches Some(c) ==> (wake == 0 || now + wake <= c.last_activity_ns
        + c.timeout_ns)
    &&& {
        ||| wake == i64::MAX
        ||| now + wake >= wait.deadline_ns
        ||| now + wake >= wait.next_heartbeat_ns
        ||| now + wake >= wait.next_throttle_ns
        ||| now + wake >= wait.next_memory_check_ns
        ||| wait.stdin is Some && (now < wait.stdin->0.last_activity_ns || now + wake
            >= wait.stdin->0.last_activity_ns + wait.stdin->0.timeout_ns)
    }
}

/// The queue is always asked for the child's exit and a timer, for the signal pipe
/// if there is one, and for input while that is watched or is to be dropped.
pub proof fn law_queue_is_asked_for_all_that_matters(wait: Wait, wake_ns: u64)
    ensures
        ({
            let asked = wait.filters(wake_ns);
            let input = wait.stdin_enabled || wait.stdin_change is Delete;
            let flags: u16 = match wait.stdin_change {
                StdinChange::Nothing => 0,
                StdinChange::Add => 0x1,
                StdinChange::Delete => 0x2,
            };
            &&& asked.len() == 2 + (if wait.signal_fd is Some {
                1int
            } else {
                0
            }) + (if input {
                1int
            } else {
                0
            })
            &&& asked[0] == (KeventChange {
                ident: wait.pid as u64,
                filter: (-5) as i16,
                flags: 0x11,
                fflags: 0x8000_0000,
                data: 0,
            })
            &&& asked[1] == (KeventChange {
                ident: 1,
                filter: (-7) as i16,
                flags: 0x11,
                fflags: 0x4,
                data: wake_ns as i64,
            })
            &&& wait.signal_fd matches Some(fd) ==> asked[2] == (KeventChange {
                ident: fd as u64,
                filter: (-1) as i16,
                flags: 0x1,
                fflags: 0,
                data: 0,
            })
            &&& input ==> asked.last() == (KeventChange {
                ident: 0,
                filter: (-1) as i16,
                flags,
                fflags: 0,
                data: 0,
            })
        }),
{
    assert(0x1u16 | 0x10u16 == 0x11u16) by (bit_vector);
}

/// Once the queue was asked, input that was to be dropped is.
pub open spec fn asked(wait: Wait) -> Wait {
    Wait {
        stdin_change: if wait.stdin_change is Delete {
            StdinChange::Nothing
        } else {
            wait.stdin_change
        },
        ..wait
    }
}

/// The wait, with input dropped.
pub open spec fn deaf(wait: Wait) -> Wait {
    Wait { stdin: None, stdin_enabled: false, stdin_change: StdinChange::Delete, ..wait }
}

/// A call that was interrupted is made again. A child that is gone is collected,
/// without blocking at first. Any other failure ends the wait, with its number.
pub proof fn law_failed_call_ends_the_wait(wait: Wait, errno: i32)
    requires
        wait.phase is Waiting,
    ensures
        ({
            let next = wait.next(WaitEvent::Kernel(Err(errno)));
            &&& errno == 4 ==> goes_on(asked(wait), next)
            &&& errno == 3 ==> next.1 == (WaitAction::CloseQueue { queue: wait.queue })
                && next.0.next(WaitEvent::Closed).1 is TryReap
            &&& errno != 3 && errno != 4 ==> ends_with(
                wait,
                next,
                Err(TimeoutError::Internal(InternalError::KeventFailed(errno))),
            )
        }),
{
}

/// The exit of the child has it collected; how it ended is what is returned, and
/// why it could not be collected otherwise.
pub proof fn law_exit_is_collected(
    wait: Wait,
    event: KernelEvent,
    status: RawExitStatus,
    rusage: ResourceUsage,
    error: SpawnError,
)
    requires
        wait.phase is Waiting,
        event.filter == -5,
        event.flags & 0x4000 == 0,
    ensures
        ({
            let (closing, action) = wait.next(WaitEvent::Kernel(Ok(event)));
            let (collecting, then) = closing.next(WaitEvent::Closed);
            &&& action == (WaitAction::CloseQueue { queue: wait.queue })
            &&& then is Reap
            &&& collecting.awaits(WaitEvent::Reaped(Ok((status, rusage))))
            &&& collecting.next(WaitEvent::Reaped(Ok((status, rusage)))).1 == WaitAction::Return(
                Ok(WaitResult::Exited(status, rusage)),
            )
            &&& collecting.next(WaitEvent::Reaped(Err(error))).1 == WaitAction::Return(
                Err(
                    match error {
                        SpawnError::Wait(errno) => TimeoutError::SpawnError(errno),
                        _ => TimeoutError::Internal(InternalError::WaitFailed),
                    },
                ),
            )
        }),
{
}

/// Something in the signal pipe ends the wait: the signal is read and returned, by
/// its number. A pipe with nothing in it after all counts as the end of time.
pub proof fn law_signal_is_read_and_returned(
    wait: Wait,
    event: KernelEvent,
    fd: i32,
    count: i64,
    byte: u8,
)
    requires
        wait.phase is Waiting,
        wait.signal_fd == Some(fd),
        event.filter == -1,
        event.ident != 0 || !wait.stdin_enabled,
        event.flags & 0x4000 == 0,
    ensures
        ({
            let (closing, action) = wait.next(WaitEvent::Kernel(Ok(event)));
            let (reading, then) = closing.next(WaitEvent::Closed);
            let end = reading.next(WaitEvent::SignalByte { count, byte }).1;
            &&& action == (WaitAction::CloseQueue { queue: wait.queue })
            &&& then == (WaitAction::ReadSignal { fd })
            &&& reading.awaits(WaitEvent::SignalByte { count, byte })
            &&& count > 0 && 1 <= byte <= 31 ==> (end matches WaitAction::Return(
                Ok(WaitResult::ReceivedSignal(signal)),
            ) && signal.number() == byte)
            &&& count > 0 && !(1 <= byte <= 31) ==> (end matches WaitAction::Return(
                Ok(WaitResult::ReceivedSignal(signal)),
            ) && signal.number() == 15)
            &&& count <= 0 ==> end == WaitAction::Return(
                Ok(WaitResult::TimedOut(TimeoutReason::WallClock)),
            )
        }),
{
}

/// Input that can be read is read, and with that it is active. Input whose other
/// end is closed, and input that has nothing more to read, is not watched any
/// more. Input that could not be read just now changes nothing.
pub proof fn law_input_is_read_while_it_lasts(
    wait: Wait,
    event: KernelEvent,
    count: i64,
    now: u64,
)
    ensures
        ({
            let next = wait.next(WaitEvent::Kernel(Ok(event)));
            wait.phase is Waiting && wait.stdin_enabled && event.filter == -1 && event.ident == 0
                ==> {
                &&& event.flags & 0x8000 != 0 ==> goes_on(deaf(wait), next)
                &&& event.flags & 0x8000 == 0 ==> next.1 is DrainStdin && next.0 == (Wait {
                    phase: WaitPhase::Draining,
                    ..asked(wait)
                })
            }
        }),
        ({
            let next = wait.next(WaitEvent::Drained(count));
            wait.phase is Draining ==> {
                &&& count == 0 ==> goes_on(deaf(wait), next)
                &&& count < 0 ==> goes_on(wait, next)
                &&& count > 0 ==> next.1 is ReadClock && next.0 == (Wait {
                    phase: WaitPhase::Activity,
                    ..wait
                })
            }
        }),
        wait.phase is Activity && wait.stdin is Some ==> goes_on(
            Wait {
                stdin: Some(StdinTimeoutConfig { last_activity_ns: now, ..wait.stdin->0 }),
                ..wait
            },
            wait.next(WaitEvent::Clock(Ok(now))),
        ),
{
}

/// A filter that the queue refuses is taken for what it says: input that is not
/// open is not watched, input that was not watched need not be dropped, and a
/// child that is gone is collected. Anything else ends the wait, with its number.
pub proof fn law_refused_filter_tells_why(wait: Wait, event: KernelEvent)
    requires
        wait.phase is Waiting,
        event.flags & 0x4000 != 0,
        event.filter != -7,
        event.filter != -1 || event.ident != 0 || !wait.stdin_enabled,
        0 <= event.data <= i32::MAX,
    ensures
        ({
            let next = wait.next(WaitEvent::Kernel(Ok(event)));
            let input = event.ident == 0;
            &&& event.data == 9 && input ==> goes_on(deaf(wait), next)
            &&& event.data == 2 && input ==> goes_on(
                Wait { stdin_change: StdinChange::Nothing, ..wait },
                next,
            )
            &&& event.data == 3 ==> next.1 == (WaitAction::CloseQueue { queue: wait.queue })
                && next.0.next(WaitEvent::Closed).1 is TryReap
            &&& event.data != 3 && !(input && (event.data == 9 || event.data == 2)) ==> ends_with(
                wait,
                next,
                Err(TimeoutError::Internal(InternalError::RegistrationFailed(event.data as i32))),
            )
        }),
{
}

/// A child that is gone is collected at once if it can be, and otherwise waited
/// for. One that was never there to be collected counts as out of time.
pub proof fn law_gone_child_is_collected(
    wait: Wait,
    status: RawExitStatus,
    rusage: ResourceUsage,
    error: SpawnError,
)
    ensures
        wait.phase is TryReaping ==> {
            &&& wait.next(WaitEvent::TryReaped(Ok(Some((status, rusage))))).1
                == WaitAction::Return(Ok(WaitResult::Exited(status, rusage)))
            &&& wait.next(WaitEvent::TryReaped(Ok(None))).1 is Reap
            &&& wait.next(WaitEvent::TryReaped(Err(error))).1 is Reap
        },
        wait.phase is Reaping ==> {
            &&& wait.next(WaitEvent::Reaped(Ok((status, rusage)))).1 == WaitAction::Return(
                Ok(WaitResult::Exited(status, rusage)),
            )
            &&& error == SpawnError::Wait(10) ==> wait.next(WaitEvent::Reaped(Err(error))).1
                == WaitAction::Return(Ok(WaitResult::TimedOut(TimeoutReason::WallClock)))
            &&& error != SpawnError::Wait(10) ==> wait.next(WaitEvent::Reaped(Err(error))).1
                == WaitAction::Return(
                Err(TimeoutError::Internal(InternalError::WaitFailedWith(error))),
            )
        },
{
}

/// The timer has fired and all else is seen to: the wait is out of input if that
/// has been idle for as long as it may, or else out of time if the deadline has
/// come, or else says that the command still runs if that is due, and goes on.
pub open spec fn checks(wait: Wait, next: (Wait, WaitAction)) -> bool {
    let now = wait.now_ns;
    let beats = wait.heartbeat matches Some(h) && h.interval_ns > 0 && wait.next_heartbeat_ns
        <= now;
    if idle_at(wait, now) {
        ends_with(wait, next, Ok(WaitResult::TimedOut(TimeoutReason::StdinIdle)))
    } else if wait.deadline_ns <= now {
        ends_with(wait, next, Ok(WaitResult::TimedOut(TimeoutReason::WallClock)))
    } else if beats {
        let h = wait.heartbeat->0;
        &&& next.0.next_heartbeat_ns == moment_after(now, h.interval_ns)
        &&& next.0 == (Wait {
            phase: next.0.phase,
            next_heartbeat_ns: next.0.next_heartbeat_ns,
            ..wait
        })
        &&& h.quiet ==> next.1 is ReadClock && next.0.phase is LoopClock
        &&& !h.quiet ==> next.1 is Heartbeat && next.0.phase is Beating && next.1->Heartbeat_pid
            == h.pid && next.1->Heartbeat_elapsed_ns == if h.start_ns <= now {
            now - h.start_ns
        } else {
            0
        }
    } else {
        goes_on(wait, next)
    }
}

/// The timer has fired: input that is left for the child is polled before the
/// rest.
pub open spec fn polls(wait: Wait, next: (Wait, WaitAction)) -> bool {
    if wait.stdin is Some && wait.stdin->0.mode is Passthrough {
        next.1 is PollStdin && next.0 == (Wait { phase: WaitPhase::Polling, ..wait })
    } else {
        checks(wait, next)
    }
}

/// The timer has fired: the memory is measured before the rest, if that is due.
pub open spec fn measures(wait: Wait, next: (Wait, WaitAction)) -> bool {
    if wait.memory is Some && wait.next_memory_check_ns <= wait.now_ns {
        next.1 is MeasureMemory && next.0 == (Wait { phase: WaitPhase::Measuring, ..wait })
    } else {
        polls(wait, next)
    }
}

/// When the timer fires everything that is due is seen to: the throttle first,
/// then the memory, then input, and then the deadlines and the heartbeat.
pub proof fn law_timer_sees_to_all_that_is_due(wait: Wait, event: KernelEvent, now: u64)
    ensures
        wait.phase is Waiting && event.filter == -7 ==> {
            let next = wait.next(WaitEvent::Kernel(Ok(event)));
            next.1 is ReadClock && next.0 == (Wait {
                phase: WaitPhase::TimerClock,
                ..asked(wait)
            })
        },
        wait.phase is TimerClock ==> {
            let next = wait.next(WaitEvent::Clock(Ok(now)));
            let at = Wait { now_ns: now, ..wait };
            if wait.throttle is Some && wait.next_throttle_ns <= now {
                next.1 == (WaitAction::UpdateThrottle { now_ns: now }) && next.0 == (Wait {
                    phase: WaitPhase::Throttling,
                    ..at
                })
            } else {
                measures(at, next)
            }
        },
{
    let at = Wait { now_ns: now, ..wait };
    if wait.phase is TimerClock {
        lemma_timer_stages(at);
    }
}

/// Once the throttle is up to date, it is looked at again after its interval.
pub proof fn law_throttle_is_updated_at_its_interval(wait: Wait, next_throttle_ns: u64)
    requires
        wait.phase is Throttling,
        wait.throttle is Some,
        next_throttle_ns == moment_after(wait.now_ns, wait.throttle->0.interval_ns),
    ensures
        measures(Wait { next_throttle_ns, ..wait }, wait.next(WaitEvent::Throttled(Ok(())))),
{
    law_numbers_are_cut_off_at_the_largest(wait.now_ns + wait.throttle->0.interval_ns);
    lemma_timer_stages(Wait { next_throttle_ns, ..wait });
}

/// Memory above the limit ends the wait, and is told as it was measured. Otherwise,
/// and where nothing could be measured, the next look is after the interval.
pub proof fn law_memory_is_measured_at_its_interval(
    wait: Wait,
    bytes: Option<u64>,
    next_memory_check_ns: u64,
)
    requires
        wait.phase is Measuring,
        wait.memory is Some,
        next_memory_check_ns == moment_after(wait.now_ns, wait.memory->0.check_interval_ns),
    ensures
        ({
            let next = wait.next(WaitEvent::Memory(bytes));
            let limit_bytes = wait.memory->0.limit_bytes;
            if bytes is Some && bytes->0 > limit_bytes {
                ends_with(
                    wait,
                    next,
                    Ok(WaitResult::MemoryLimitExceeded { limit_bytes, actual_bytes: bytes->0 }),
                )
            } else {
                polls(Wait { next_memory_check_ns, ..wait }, next)
            }
        }),
{
    law_numbers_are_cut_off_at_the_largest(wait.now_ns + wait.memory->0.check_interval_ns);
    lemma_timer_stages(Wait { next_memory_check_ns, ..wait });
}

/// Data that a poll finds makes input active at that moment: its idle time starts
/// anew, so that it is not what the wait runs out of. Input that has ended is not
/// watched any more. A poll that finds nothing changes nothing.
pub proof fn law_polled_input_is_active(wait: Wait, ready: i32, revents: i16)
    requires
        wait.phase is Polling,
        wait.stdin is Some,
    ensures
        ({
            let next = wait.next(WaitEvent::Polled { ready, revents });
            let c = wait.stdin->0;
            let active = Some(StdinTimeoutConfig { last_activity_ns: wait.now_ns, ..c });
            &&& ready > 0 && revents & 1 != 0 ==> {
                &&& next.0.stdin == active
                &&& checks(Wait { stdin: active, ..wait }, next)
                &&& c.timeout_ns > 0 ==> next.0.phase != WaitPhase::Closing(
                    AfterClose::Return(WaitEnd::TimedOut(TimeoutReason::StdinIdle)),
                )
                &&& c.timeout_ns > 0 && wait.now_ns < wait.deadline_ns ==> next.1 is ReadClock
                    || next.1 is Heartbeat
            }
            &&& ready > 0 && revents & 1 == 0 && revents & 16 != 0 ==> checks(
                Wait { stdin: None, ..wait },
                next,
            )
            &&& ready <= 0 || revents & 1 == 0 && revents & 16 == 0 ==> checks(wait, next)
        }),
{
    let c = wait.stdin->0;
    let active = Some(StdinTimeoutConfig { last_activity_ns: wait.now_ns, ..c });
    lemma_timer_stages(Wait { stdin: active, ..wait });
    lemma_timer_stages(Wait { stdin: None, ..wait });
    lemma_timer_stages(wait);
}

/// Once it was said that the command still runs, the wait goes on.
pub proof fn law_heartbeat_is_no_end(wait: Wait)
    requires
        wait.phase is Beating,
    ensures
        goes_on(wait, wait.next(WaitEvent::Said)),
{
}

/// The stages of the timer, one by one.
proof fn lemma_timer_stages(wait: Wait)
    ensures
        checks(wait, wait.timer_checks()),
        polls(wait, wait.timer_stdin()),
        measures(wait, wait.timer_memory()),
{
    if wait.heartbeat is Some {
        law_numbers_are_cut_off_at_the_largest(wait.now_ns + wait.heartbeat->0.interval_ns);
    }
}

/// Input that is watched stays watched until it has ended or turns out not to be
/// open: nothing else makes the wait forget its idle limit.
#[verifier::rlimit(60)]
pub proof fn law_input_is_watched_until_it_ends(wait: Wait, event: WaitEvent)
    requires
        wait.awaits(event),
        wait.stdin is Some,
        wait.next(event).0.stdin is None,
    ensures
        match event {
            WaitEvent::StdinStat(stat) => stat < 0,
            WaitEvent::Polled { ready, revents } => ready > 0 && revents & 1 == 0 && revents & 16
                != 0,
            WaitEvent::Drained(count) => count == 0,
            WaitEvent::Kernel(Ok(event)) => event.ident == 0 && (event.flags & 0x8000 != 0
                || event.flags & 0x4000 != 0),
            _ => false,
        },
{
    match (wait.phase, event) {
        (WaitPhase::Waiting, WaitEvent::Kernel(Ok(_))) => {},
        (WaitPhase::Waiting, _) => {},
        (WaitPhase::TimerClock, _) => {},
        (WaitPhase::Throttling, _) => {},
        (WaitPhase::Measuring, _) => {},
        (WaitPhase::Polling, _) => {},
        (WaitPhase::Closing(_), _) => {},
        _ => {},
    }
}

/// The signal pipe is watched to the end.
#[verifier::rlimit(60)]
pub proof fn law_signal_pipe_is_kept(wait: Wait, event: WaitEvent)
    requires
        wait.awaits(event),
    ensures
        wait.next(event).0.signal_fd == wait.signal_fd,
{
    match (wait.phase, event) {
        (WaitPhase::Waiting, WaitEvent::Kernel(Ok(_))) => {},
        (WaitPhase::Waiting, _) => {},
        (WaitPhase::TimerClock, _) => {},
        (WaitPhase::Throttling, _) => {},
        (WaitPhase::Measuring, _) => {},
        (WaitPhase::Polling, _) => {},
        (WaitPhase::Closing(_), _) => {},
        _ => {},
    }
}

/// An event that nothing was asked for counts as the end of time.
pub proof fn law_unasked_event_ends_the_wait(wait: Wait, event: KernelEvent)
    requires
        wait.phase is Waiting,
        event.flags & 0x4000 == 0,
        event.filter != -7,
        event.filter != -5,
        event.filter == -1 ==> wait.signal_fd is None && (event.ident != 0 || !wait.stdin_enabled),
    ensures
        ends_with(
            wait,
            wait.next(WaitEvent::Kernel(Ok(event))),
            Ok(WaitResult::TimedOut(TimeoutReason::WallClock)),
        ),
{
}

} // verus!
