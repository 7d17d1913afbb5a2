//! What holds of every wait, whatever happens meanwhile.

use vstd::prelude::*;

use crate::args::Confine;
use crate::error::TimeoutError;
use crate::kqueue::{KernelEvent, EVFILT_READ};
use crate::outcome::TimeoutReason;
use crate::process::{RawExitStatus, ResourceUsage};
use crate::time::MAX_TIMER_NS;
use crate::wait::{
    AfterClose, Wait, WaitAction, WaitEnd, WaitEvent, WaitPhase,
    WaitResult, WaitSetup,
};

verus! {

impl Wait {
    /// The wait after a row of events.
    pub open spec fn after(self, events: Seq<WaitEvent>) -> Wait
        decreases events.len(),
    {
        if events.len() == 0 {
            self
        } else {
            self.after(events.drop_last()).next(events.last()).0
        }
    }

    /// What the wait wants after a row of at least one event.
    pub open spec fn wants(self, events: Seq<WaitEvent>) -> WaitAction {
        self.after(events.drop_last()).next(events.last()).1
    }

    /// Is each event what came of the action asked for before it?
    pub open spec fn answered_by(self, events: Seq<WaitEvent>) -> bool
        decreases events.len(),
    {
        events.len() > 0 ==> self.answered_by(events.drop_last()) && self.after(
            events.drop_last(),
        ).awaits(events.last())
    }

    /// How often a row of events opened a queue.
    pub open spec fn opened(self, events: Seq<WaitEvent>) -> nat
        decreases events.len(),
    {
        if events.len() == 0 {
            0
        } else {
            self.opened(events.drop_last()) + if events.last() matches WaitEvent::Queue { fd, .. }
                && fd >= 0 {
                1nat
            } else {
                0
            }
        }
    }

    /// The queue that a row of events opened last.
    pub open spec fn queue_of(self, events: Seq<WaitEvent>) -> Option<i32>
        decreases events.len(),
    {
        if events.len() == 0 {
            None
        } else if events.last() matches WaitEvent::Queue { fd, .. } && fd >= 0 {
            Some(events.last()->Queue_fd)
        } else {
            self.queue_of(events.drop_last())
        }
    }

    /// How often a queue was to be closed in a row of events.
    pub open spec fn closed(self, events: Seq<WaitEvent>) -> nat
        decreases events.len(),
    {
        if events.len() == 0 {
            0
        } else {
            self.closed(events.drop_last()) + if self.wants(events) is CloseQueue {
                1nat
            } else {
                0
            }
        }
    }

    /// How often input was to be read in a row of events.
    pub open spec fn drained(self, events: Seq<WaitEvent>) -> nat
        decreases events.len(),
    {
        if events.len() == 0 {
            0
        } else {
            self.drained(events.drop_last()) + if self.wants(events) is DrainStdin {
                1nat
            } else {
                0
            }
        }
    }

    /// What the wait was set up for does not change.
    pub open spec fn set_up_as(self, setup: WaitSetup) -> bool {
        &&& self.pid == setup.pid
        &&& self.wall_timeout == setup.wall_timeout
        &&& self.heartbeat == setup.heartbeat
        &&& self.throttle == setup.throttle
        &&& self.memory == setup.memory_limit
        &&& self.confine == setup.confine
        &&& self.stdin matches Some(c) ==> {
            &&& setup.stdin_timeout matches Some(s)
            &&& c.timeout_ns == s.timeout_ns
            &&& c.mode == s.mode
        }
        &&& self.stdin_enabled ==> self.stdin is Some && self.stdin->0.mode is Consume
        &&& self.phase is CheckingStdin ==> self.stdin is Some
        &&& self.phase is Draining ==> self.stdin_enabled
        &&& self.phase is Starting || self.phase is CheckingStdin || self.phase is FirstPoll
            || self.phase is FirstActivity || self.phase is Polling ==> !self.stdin_enabled
        &&& self.phase matches WaitPhase::Closing(
            AfterClose::Return(WaitEnd::MemoryLimitExceeded { limit_bytes, actual_bytes }),
        ) ==> {
            &&& setup.memory_limit matches Some(m)
            &&& m.limit_bytes == limit_bytes
            &&& actual_bytes > limit_bytes
        }
        &&& self.phase matches WaitPhase::Closing(
            AfterClose::Return(WaitEnd::TimedOut(TimeoutReason::StdinIdle)),
        ) ==> setup.stdin_timeout is Some
    }

    /// Is the wait still before its queue?
    pub open spec fn has_no_queue(self) -> bool {
        ||| self.phase is Starting
        ||| self.phase is CheckingStdin
        ||| self.phase is FirstPoll
        ||| self.phase is FirstActivity
        ||| self.phase is Opening
    }

    /// Does the wait have a queue?
    pub open spec fn uses_queue(self) -> bool {
        !self.has_no_queue() && !self.gave_up_queue() && self.phase !is Done
    }

    /// Is the wait past its queue?
    pub open spec fn gave_up_queue(self) -> bool {
        ||| self.phase is Closing
        ||| self.phase is TryReaping
        ||| self.phase is Reaping
        ||| self.phase is Collecting
        ||| self.phase is ReadingSignal
    }

    /// Nothing watches input, and nothing is left of it.
    pub open spec fn is_blind(self) -> bool {
        &&& self.stdin is None
        &&& !self.stdin_enabled
        &&& self.phase != WaitPhase::Closing(
            AfterClose::Return(WaitEnd::TimedOut(TimeoutReason::StdinIdle)),
        )
    }
}

/// The timer never fires after a moment at which there is something to do, nor
/// before every such moment, and is never longer than the kernel takes.
pub proof fn law_wakes_in_time(wait: Wait, now: u64)
    ensures
        wait.wake_after(now) <= MAX_TIMER_NS,
        now <= wait.deadline_ns ==> now + wait.wake_after(now) <= wait.deadline_ns,
        now <= wait.next_heartbeat_ns ==> now + wait.wake_after(now) <= wait.next_heartbeat_ns,
        now <= wait.next_throttle_ns ==> now + wait.wake_after(now) <= wait.next_throttle_ns,
        now <= wait.next_memory_check_ns ==> now + wait.wake_after(now)
            <= wait.next_memory_check_ns,
        wait.stdin matches Some(c) ==> c.last_activity_ns <= now && !wait.idle_too_long(now)
            ==> now + wait.wake_after(now) <= c.last_activity_ns + c.timeout_ns,
        ({
            let wake = now + wait.wake_after(now);
            ||| wait.wake_after(now) == MAX_TIMER_NS
            ||| wake >= wait.deadline_ns
            ||| wake >= wait.next_heartbeat_ns
            ||| wake >= wait.next_throttle_ns
            ||| wake >= wait.next_memory_check_ns
            ||| wait.stdin is Some && wait.idle_budget(now) == wait.wake_after(now)
        }),
{
}

/// Time runs out exactly when the clock says so: a turn goes on waiting if and
/// only if neither the deadline nor the idle limit has come.
pub proof fn law_turn_times_out_when_due(wait: Wait, now: u64)
    ensures
        wait.turn(now).1 is Submit <==> now < wait.deadline_ns && !wait.idle_too_long(now),
        wait.turn(now).0.phase == WaitPhase::Closing(
            AfterClose::Return(WaitEnd::TimedOut(TimeoutReason::WallClock)),
        ) <==> now >= wait.deadline_ns,
        wait.turn(now).0.phase == WaitPhase::Closing(
            AfterClose::Return(WaitEnd::TimedOut(TimeoutReason::StdinIdle)),
        ) <==> now < wait.deadline_ns && wait.idle_too_long(now),
{
}

/// A heartbeat is heard only if there is one and it is not quiet, only when it
/// is due, and never once time has run out.
pub proof fn law_heartbeat_is_due(wait: Wait, event: WaitEvent)
    requires
        wait.awaits(event),
        wait.next(event).1 is Heartbeat,
    ensures
        wait.heartbeat matches Some(h) && h.interval_ns > 0 && !h.quiet && wait.next(event).1
            == (WaitAction::Heartbeat {
            elapsed_ns: if wait.next(event).0.now_ns >= h.start_ns {
                (wait.next(event).0.now_ns - h.start_ns) as u64
            } else {
                0
            },
            pid: h.pid,
        }),
        wait.next_heartbeat_ns <= wait.next(event).0.now_ns < wait.deadline_ns,
{
    match wait.phase {
        WaitPhase::TimerClock => {},
        WaitPhase::Throttling => {},
        WaitPhase::Measuring => {},
        WaitPhase::Polling => {},
        WaitPhase::Waiting => {},
        WaitPhase::LoopClock => {},
        WaitPhase::Opening => {},
        WaitPhase::Starting => {},
        _ => {},
    }
}

/// What the timer does keeps the setup.
proof fn lemma_timer_keeps_setup(wait: Wait, setup: WaitSetup)
    requires
        wait.set_up_as(setup),
    ensures
        wait.timer_checks().0.set_up_as(setup),
        wait.timer_stdin().0.set_up_as(setup),
        wait.timer_memory().0.set_up_as(setup),
        wait.timer_throttle().0.set_up_as(setup),
{
    assert(wait.timer_checks().0.set_up_as(setup));
    assert(wait.timer_stdin().0.set_up_as(setup));
    assert(wait.timer_memory().0.set_up_as(setup));
}

/// What the queue reports keeps the setup.
proof fn lemma_event_keeps_setup(wait: Wait, event: KernelEvent, setup: WaitSetup)
    requires
        wait.set_up_as(setup),
    ensures
        wait.submitted().after_event(event).0.set_up_as(setup),
{
    assert(wait.submitted().set_up_as(setup));
    assert(wait.submitted().after_refusal(event).0.set_up_as(setup));
}

/// One event keeps the setup.
#[verifier::rlimit(40)]
proof fn lemma_step_keeps_setup(wait: Wait, event: WaitEvent, setup: WaitSetup)
    requires
        wait.set_up_as(setup),
        wait.awaits(event),
    ensures
        wait.next(event).0.set_up_as(setup),
{
    match (wait.phase, event) {
        (WaitPhase::Waiting, WaitEvent::Kernel(Ok(event))) => {
            lemma_event_keeps_setup(wait, event, setup);
        },
        (WaitPhase::TimerClock, WaitEvent::Clock(Ok(now))) => {
            lemma_timer_keeps_setup(Wait { now_ns: now, ..wait }, setup);
        },
        (WaitPhase::Throttling, WaitEvent::Throttled(Ok(_))) => {
            lemma_timer_keeps_setup(wait, setup);
            if wait.throttle is Some {
                let next_throttle_ns = crate::time::clamp_u64(
                    wait.now_ns + wait.throttle->0.interval_ns,
                );
                lemma_timer_keeps_setup(Wait { next_throttle_ns, ..wait }, setup);
            }
        },
        (WaitPhase::Measuring, WaitEvent::Memory(_)) => {
            lemma_timer_keeps_setup(wait, setup);
            if wait.memory is Some {
                let next_memory_check_ns = crate::time::clamp_u64(
                    wait.now_ns + wait.memory->0.check_interval_ns,
                );
                lemma_timer_keeps_setup(Wait { next_memory_check_ns, ..wait }, setup);
            }
        },
        (WaitPhase::Polling, WaitEvent::Polled { ready, revents }) => {
            let result = crate::kqueue::poll_result(ready, revents);
            assert(wait.polled(result, wait.now_ns).set_up_as(setup));
            lemma_timer_keeps_setup(wait.polled(result, wait.now_ns), setup);
        },
        (WaitPhase::LoopClock, _) => {},
        (WaitPhase::Starting, _) => {},
        (WaitPhase::CheckingStdin, _) => {},
        (WaitPhase::FirstPoll, _) => {},
        (WaitPhase::Closing(_), _) => {},
        _ => {},
    }
}

/// Whatever happens, a wait keeps to what it was set up for.
pub proof fn law_setup_is_kept(setup: WaitSetup, signal_fd: i32, events: Seq<WaitEvent>)
    requires
        Wait::begun(setup, signal_fd).answered_by(events),
    ensures
        Wait::begun(setup, signal_fd).after(events).set_up_as(setup),
    decreases events.len(),
{
    if events.len() > 0 {
        law_setup_is_kept(setup, signal_fd, events.drop_last());
        lemma_step_keeps_setup(
            Wait::begun(setup, signal_fd).after(events.drop_last()),
            events.last(),
            setup,
        );
    }
}

/// The wait goes on with its queue, or closes it.
spec fn keeps_or_closes(wait: Wait, next: (Wait, WaitAction)) -> bool {
    &&& next.0.queue == wait.queue
    &&& next.0.uses_queue() || next.0.phase is Closing
    &&& next.1 is CloseQueue <==> next.0.phase is Closing
    &&& next.1 matches WaitAction::CloseQueue { queue } ==> queue == wait.queue
    &&& next.1 !is Return
}

/// What the timer does leaves the queue alone, or closes it.
proof fn lemma_timer_queue(wait: Wait)
    ensures
        keeps_or_closes(wait, wait.timer_throttle()),
        keeps_or_closes(wait, wait.timer_memory()),
        keeps_or_closes(wait, wait.timer_stdin()),
        keeps_or_closes(wait, wait.timer_checks()),
{
}

/// How one event moves a wait along: first without a queue, then with one,
/// then past it, and then it is over.
#[verifier::rlimit(60)]
proof fn lemma_step_queue(wait: Wait, event: WaitEvent)
    requires
        wait.awaits(event),
    ensures
        ({
            let (then, action) = wait.next(event);
            let opens = event matches WaitEvent::Queue { fd, .. } && fd >= 0;
            &&& action is CloseQueue <==> then.phase is Closing
            &&& action matches WaitAction::CloseQueue { queue } ==> queue == then.queue
            &&& action is Return <==> then.phase is Done
            &&& wait.has_no_queue() ==> {
                &&& then.uses_queue() <==> opens
                &&& then.has_no_queue() || then.uses_queue() || then.phase is Done
                &&& opens ==> then.queue == event->Queue_fd
            }
            &&& wait.uses_queue() ==> {
                &&& then.uses_queue() || then.phase is Closing || then.phase is Done
                &&& !opens
                &&& then.queue == wait.queue
                &&& then.phase is Done ==> event matches WaitEvent::Clock(Err(_)) || event matches
                    WaitEvent::Throttled(Err(_))
            }
            &&& wait.gave_up_queue() ==> {
                &&& then.gave_up_queue() || then.phase is Done
                &&& then.phase !is Closing
                &&& !opens
                &&& then.queue == wait.queue
            }
            &&& action matches WaitAction::Return(Ok(_)) ==> wait.gave_up_queue()
            &&& then.phase !is Starting
        }),
{
    match (wait.phase, event) {
        (WaitPhase::Starting, _) => {},
        (WaitPhase::CheckingStdin, _) => {},
        (WaitPhase::FirstPoll, _) => {},
        (WaitPhase::FirstActivity, _) => {},
        (WaitPhase::Opening, _) => {},
        (WaitPhase::LoopClock, _) => {},
        (WaitPhase::Waiting, WaitEvent::Kernel(Ok(_))) => {},
        (WaitPhase::Waiting, _) => {},
        (WaitPhase::Draining, _) => {},
        (WaitPhase::Activity, _) => {},
        (WaitPhase::TimerClock, WaitEvent::Clock(Ok(now))) => {
            lemma_timer_queue(Wait { now_ns: now, ..wait });
        },
        (WaitPhase::Throttling, WaitEvent::Throttled(Ok(_))) => {
            lemma_timer_queue(wait);
            if wait.throttle is Some {
                let next_throttle_ns = crate::time::clamp_u64(
                    wait.now_ns + wait.throttle->0.interval_ns,
                );
                lemma_timer_queue(Wait { next_throttle_ns, ..wait });
            }
        },
        (WaitPhase::Measuring, WaitEvent::Memory(_)) => {
            lemma_timer_queue(wait);
            if wait.memory is Some {
                let next_memory_check_ns = crate::time::clamp_u64(
                    wait.now_ns + wait.memory->0.check_interval_ns,
                );
                lemma_timer_queue(Wait { next_memory_check_ns, ..wait });
            }
        },
        (WaitPhase::Polling, WaitEvent::Polled { ready, revents }) => {
            lemma_timer_queue(
                wait.polled(crate::kqueue::poll_result(ready, revents), wait.now_ns),
            );
        },
        (WaitPhase::Closing(_), _) => {},
        _ => {},
    }
}

/// A wait opens one queue at most. It closes none but that one, and not twice.
/// It has closed it when it returns anything but an error, and leaves it open
/// only where reading the clock or throttling the child failed.
pub proof fn law_queue_is_closed_once(
    setup: WaitSetup,
    signal_fd: i32,
    events: Seq<WaitEvent>,
)
    requires
        events.len() > 0,
        Wait::begun(setup, signal_fd).answered_by(events),
    ensures
        ({
            let wait = Wait::begun(setup, signal_fd);
            let opened = wait.opened(events);
            let closed = wait.closed(events);
            &&& closed <= opened <= 1
            &&& wait.wants(events) matches WaitAction::CloseQueue { queue } ==> wait.queue_of(
                events,
            ) == Some(queue)
            &&& wait.wants(events) matches WaitAction::Return(result) ==> {
                &&& result is Ok ==> closed == 1
                &&& closed < opened ==> events.last() matches WaitEvent::Clock(Err(_))
                    || events.last() matches WaitEvent::Throttled(Err(_))
            }
        }),
{
    lemma_queue_counts(Wait::begun(setup, signal_fd), events.drop_last());
    lemma_queue_counts(Wait::begun(setup, signal_fd), events);
    lemma_step_queue(Wait::begun(setup, signal_fd).after(events.drop_last()), events.last());
}

/// How often a queue was opened and closed, by where the wait is.
proof fn lemma_queue_counts(wait: Wait, events: Seq<WaitEvent>)
    requires
        wait.phase is Starting,
        wait.answered_by(events),
    ensures
        ({
            let then = wait.after(events);
            &&& then.has_no_queue() ==> wait.opened(events) == 0 && wait.closed(events) == 0
            &&& then.uses_queue() ==> wait.opened(events) == 1 && wait.closed(events) == 0
            &&& then.gave_up_queue() ==> wait.opened(events) == 1 && wait.closed(events) == 1
            &&& then.uses_queue() || then.gave_up_queue() ==> wait.queue_of(events) == Some(
                then.queue,
            )
            &&& wait.closed(events) <= wait.opened(events) <= 1
        }),
    decreases events.len(),
{
    if events.len() > 0 {
        lemma_queue_counts(wait, events.drop_last());
        lemma_step_queue(wait.after(events.drop_last()), events.last());
    }
}

/// How one event bears on input and on the deadline.
#[verifier::rlimit(60)]
proof fn lemma_step_input(wait: Wait, event: WaitEvent)
    requires
        wait.awaits(event),
    ensures
        ({
            let (then, action) = wait.next(event);
            &&& action is DrainStdin ==> then.phase is Draining
            &&& wait.phase !is Starting ==> then.deadline_ns == wait.deadline_ns
            &&& wait.is_blind() && wait.phase !is CheckingStdin && wait.phase !is Draining ==> {
                &&& then.is_blind()
                &&& then.phase !is CheckingStdin
                &&& then.phase !is Draining
                &&& action != WaitAction::Return(
                    Ok(WaitResult::TimedOut(TimeoutReason::StdinIdle)),
                )
            }
        }),
{
    match (wait.phase, event) {
        (WaitPhase::Starting, _) => {},
        (WaitPhase::LoopClock, _) => {},
        (WaitPhase::Waiting, WaitEvent::Kernel(Ok(_))) => {},
        (WaitPhase::Waiting, _) => {},
        (WaitPhase::TimerClock, _) => {},
        (WaitPhase::Throttling, _) => {},
        (WaitPhase::Measuring, _) => {},
        (WaitPhase::Polling, _) => {},
        (WaitPhase::Closing(_), _) => {},
        _ => {},
    }
}

/// Unless input is to be consumed, it is never read: it is left for the child.
pub proof fn law_passed_through_input_is_never_read(
    setup: WaitSetup,
    signal_fd: i32,
    events: Seq<WaitEvent>,
)
    requires
        Wait::begun(setup, signal_fd).answered_by(events),
        setup.stdin_timeout matches Some(c) ==> c.mode is Passthrough,
    ensures
        Wait::begun(setup, signal_fd).drained(events) == 0,
    decreases events.len(),
{
    if events.len() > 0 {
        let wait = Wait::begun(setup, signal_fd);
        law_passed_through_input_is_never_read(setup, signal_fd, events.drop_last());
        law_setup_is_kept(setup, signal_fd, events);
        lemma_step_input(wait.after(events.drop_last()), events.last());
    }
}

/// Once input has ended, however that showed, no idle limit holds any more: the
/// wait never runs out of input.
pub proof fn law_ended_input_never_times_out(
    wait: Wait,
    event: WaitEvent,
    events: Seq<WaitEvent>,
)
    requires
        wait.awaits(event),
        ({
            ||| wait.phase is CheckingStdin && (event matches WaitEvent::StdinStat(r) && r < 0)
                && !wait.stdin_enabled
            ||| (wait.phase is FirstPoll || wait.phase is Polling) && (event matches
                WaitEvent::Polled { ready, revents } && crate::kqueue::poll_result(ready, revents)
                is Eof) && !wait.stdin_enabled
            ||| wait.phase is Draining && event == WaitEvent::Drained(0)
            ||| wait.phase is Waiting && wait.stdin_enabled && (event matches WaitEvent::Kernel(
                Ok(e),
            ) && e.filter == EVFILT_READ && e.ident == 0 && e.hung_up())
        }),
        wait.next(event).0.answered_by(events),
        events.len() > 0,
    ensures
        wait.next(event).0.wants(events) != WaitAction::Return(
            Ok(WaitResult::TimedOut(TimeoutReason::StdinIdle)),
        ),
{
    let then = wait.next(event).0;
    assert(then.is_blind() && then.phase !is CheckingStdin && then.phase !is Draining);
    lemma_stays_blind(then, events.drop_last());
    lemma_step_input(then.after(events.drop_last()), events.last());
}

/// A wait that does not watch input never starts to.
proof fn lemma_stays_blind(wait: Wait, events: Seq<WaitEvent>)
    requires
        wait.is_blind(),
        wait.phase !is CheckingStdin,
        wait.phase !is Draining,
        wait.answered_by(events),
    ensures
        wait.after(events).is_blind(),
        wait.after(events).phase !is CheckingStdin,
        wait.after(events).phase !is Draining,
    decreases events.len(),
{
    if events.len() > 0 {
        lemma_stays_blind(wait, events.drop_last());
        lemma_step_input(wait.after(events.drop_last()), events.last());
    }
}

/// The deadline is set once, from the first reading of the clock: without a
/// time limit it is the end of time, which no clock short of it reaches.
pub proof fn law_deadline_is_fixed(
    setup: WaitSetup,
    signal_fd: i32,
    start: u64,
    events: Seq<WaitEvent>,
)
    requires
        events.len() > 0,
        events[0] == WaitEvent::Clock(Ok(start)),
        Wait::begun(setup, signal_fd).answered_by(events),
    ensures
        Wait::begun(setup, signal_fd).after(events).deadline_ns == match setup.wall_timeout {
            Some(d) => crate::time::clamp_u64(start + crate::time::timer_ns(d)),
            None => u64::MAX,
        },
        Wait::begun(setup, signal_fd).after(events).phase !is Starting,
    decreases events.len(),
{
    let wait = Wait::begun(setup, signal_fd);
    if events.len() > 1 {
        law_deadline_is_fixed(setup, signal_fd, start, events.drop_last());
        lemma_step_input(wait.after(events.drop_last()), events.last());
        lemma_step_queue(wait.after(events.drop_last()), events.last());
    } else {
        assert(events.drop_last() =~= Seq::empty());
        lemma_step_queue(wait, events[0]);
    }
}

/// What a wait reports is what was found: an end is the one that was
/// collected, and a signal the one in the pipe.
#[verifier::rlimit(60)]
pub proof fn law_result_is_what_was_found(wait: Wait, event: WaitEvent)
    requires
        wait.awaits(event),
    ensures
        wait.next(event).1 matches WaitAction::Return(Ok(WaitResult::Exited(status, rusage)))
            ==> event == WaitEvent::Reaped(Ok((status, rusage))) || event
            == WaitEvent::TryReaped(Ok(Some((status, rusage)))),
        wait.next(event).1 matches WaitAction::Return(Ok(WaitResult::ReceivedSignal(signal)))
            ==> event matches WaitEvent::SignalByte { count, byte } && crate::kqueue::pipe_signal(
            count,
            byte,
        ) == Some(signal),
        wait.next(event).1 matches WaitAction::Return(Ok(WaitResult::MemoryLimitExceeded {
            limit_bytes,
            actual_bytes,
        })) ==> wait.phase == WaitPhase::Closing(
            AfterClose::Return(WaitEnd::MemoryLimitExceeded { limit_bytes, actual_bytes }),
        ),
{
    match (wait.phase, event) {
        (WaitPhase::Waiting, _) => {},
        (WaitPhase::TimerClock, _) => {},
        (WaitPhase::Throttling, _) => {},
        (WaitPhase::Measuring, _) => {},
        (WaitPhase::Polling, _) => {},
        (WaitPhase::Closing(_), _) => {},
        _ => {},
    }
}

/// A child is said to use too much memory only if there is a limit and what was
/// measured is above it.
pub proof fn law_memory_limit_is_exceeded(
    setup: WaitSetup,
    signal_fd: i32,
    events: Seq<WaitEvent>,
)
    requires
        events.len() > 0,
        Wait::begun(setup, signal_fd).answered_by(events),
    ensures
        Wait::begun(setup, signal_fd).wants(events) matches WaitAction::Return(
            Ok(WaitResult::MemoryLimitExceeded { limit_bytes, actual_bytes }),
        ) ==> (setup.memory_limit matches Some(m) && m.limit_bytes == limit_bytes && actual_bytes
            > limit_bytes),
{
    let wait = Wait::begun(setup, signal_fd).after(events.drop_last());
    law_setup_is_kept(setup, signal_fd, events.drop_last());
    law_result_is_what_was_found(wait, events.last());
}

/// Memory above the limit always ends the wait.
pub proof fn law_exceeded_memory_ends_wait(wait: Wait, limit_bytes: u64, actual_bytes: u64)
    requires
        wait.phase is Measuring,
        wait.memory matches Some(m) && m.limit_bytes == limit_bytes,
        actual_bytes > limit_bytes,
    ensures
        wait.after(
            seq![WaitEvent::Memory(Some(actual_bytes)), WaitEvent::Closed],
        ).phase is Done,
        wait.wants(
            seq![WaitEvent::Memory(Some(actual_bytes)), WaitEvent::Closed],
        ) == WaitAction::Return(
            Ok(WaitResult::MemoryLimitExceeded { limit_bytes, actual_bytes }),
        ),
{
    reveal_with_fuel(Wait::after, 3);
    let events = seq![WaitEvent::Memory(Some(actual_bytes)), WaitEvent::Closed];
    assert(events.drop_last() =~= seq![WaitEvent::Memory(Some(actual_bytes))]);
    assert(events.drop_last().drop_last() =~= Seq::empty());
}

/// A deadline of zero has already come: the wait times out without sleeping,
/// unlike one without a deadline.
pub proof fn law_zero_deadline_ends_at_once(
    setup: WaitSetup,
    signal_fd: i32,
    start: u64,
    queue: i32,
    errno: i32,
    now: u64,
)
    requires
        setup.wall_timeout matches Some(d) && d.total_ns() == 0,
        setup.stdin_timeout is None,
        queue >= 0,
        start <= now,
    ensures
        Wait::begun(setup, signal_fd).wants(
            seq![
                WaitEvent::Clock(Ok(start)),
                WaitEvent::Queue { fd: queue, errno },
                WaitEvent::Clock(Ok(now)),
                WaitEvent::Closed,
            ],
        ) == WaitAction::Return(Ok(WaitResult::TimedOut(TimeoutReason::WallClock))),
{
    reveal_with_fuel(Wait::after, 5);
    let events = seq![
        WaitEvent::Clock(Ok(start)),
        WaitEvent::Queue { fd: queue, errno },
        WaitEvent::Clock(Ok(now)),
        WaitEvent::Closed,
    ];
    let first = seq![WaitEvent::Clock(Ok(start))];
    let second = first.push(WaitEvent::Queue { fd: queue, errno });
    let third = second.push(WaitEvent::Clock(Ok(now)));
    assert(events.drop_last() =~= third);
    assert(third.drop_last() =~= second);
    assert(second.drop_last() =~= first);
    assert(first.drop_last() =~= Seq::empty());
}

/// A child that was gone before the queue could watch it is collected, and its
/// end reported as any other's.
pub proof fn law_vanished_child_is_collected(
    wait: Wait,
    status: RawExitStatus,
    rusage: ResourceUsage,
)
    requires
        wait.phase is Waiting,
    ensures
        wait.wants(
            seq![
                WaitEvent::Kernel(Err(3)),
                WaitEvent::Closed,
                WaitEvent::TryReaped(Ok(Some((status, rusage)))),
            ],
        ) == WaitAction::Return(Ok(WaitResult::Exited(status, rusage))),
        wait.wants(
            seq![
                WaitEvent::Kernel(Err(3)),
                WaitEvent::Closed,
                WaitEvent::TryReaped(Ok(None)),
                WaitEvent::Reaped(Ok((status, rusage))),
            ],
        ) == WaitAction::Return(Ok(WaitResult::Exited(status, rusage))),
{
    reveal_with_fuel(Wait::after, 5);
    let first = seq![WaitEvent::Kernel(Err(3))];
    let second = first.push(WaitEvent::Closed);
    let third = second.push(WaitEvent::TryReaped(Ok(None)));
    assert(seq![
        WaitEvent::Kernel(Err(3)),
        WaitEvent::Closed,
        WaitEvent::TryReaped(Ok(Some((status, rusage)))),
    ].drop_last() =~= second);
    assert(seq![
        WaitEvent::Kernel(Err(3)),
        WaitEvent::Closed,
        WaitEvent::TryReaped(Ok(None)),
        WaitEvent::Reaped(Ok((status, rusage))),
    ].drop_last() =~= third);
    assert(third.drop_last() =~= second);
    assert(second.drop_last() =~= first);
    assert(first.drop_last() =~= Seq::empty());
}

/// A wait runs out of time, or of input, only when the clock says so: where the
/// clock was looked at, the deadline has come, or input has been idle for as
/// long as it may.
#[verifier::rlimit(60)]
pub proof fn law_timeout_is_due(wait: Wait, event: WaitEvent, reason: TimeoutReason)
    requires
        wait.awaits(event),
        wait.phase !is Waiting,
        wait.next(event).0.phase == WaitPhase::Closing(
            AfterClose::Return(WaitEnd::TimedOut(reason)),
        ),
    ensures
        ({
            let then = wait.next(event).0;
            let now = if wait.phase is LoopClock {
                event->Clock_0->Ok_0
            } else {
                then.now_ns
            };
            &&& wait.phase is LoopClock ==> event == WaitEvent::Clock(Ok(now))
            &&& reason is WallClock ==> now >= wait.deadline_ns
            &&& reason is StdinIdle ==> (then.stdin matches Some(c) && now - c.last_activity_ns
                >= c.timeout_ns)
        }),
{
    match (wait.phase, event) {
        (WaitPhase::LoopClock, _) => {},
        (WaitPhase::TimerClock, _) => {},
        (WaitPhase::Throttling, _) => {},
        (WaitPhase::Measuring, _) => {},
        (WaitPhase::Polling, _) => {},
        (WaitPhase::Closing(_), _) => {},
        _ => {},
    }
}

/// May a wait with this setup return this?
pub open spec fn wait_returns(
    setup: WaitSetup,
    signal_fd: i32,
    result: Result<WaitResult, TimeoutError>,
) -> bool {
    exists|events: Seq<WaitEvent>|
        events.len() > 0 && #[trigger] Wait::begun(setup, signal_fd).answered_by(events)
            && Wait::begun(setup, signal_fd).wants(events) == WaitAction::Return(result)
}

/// A wait tells of limits only where it was given them.
pub proof fn law_wait_tells_of_its_limits(
    setup: WaitSetup,
    signal_fd: i32,
    result: Result<WaitResult, TimeoutError>,
)
    requires
        wait_returns(setup, signal_fd, result),
    ensures
        result matches Ok(WaitResult::MemoryLimitExceeded { limit_bytes, actual_bytes }) ==> (
        setup.memory_limit matches Some(m) && m.limit_bytes == limit_bytes && actual_bytes
            > limit_bytes),
        result == Ok::<_, TimeoutError>(WaitResult::TimedOut(TimeoutReason::StdinIdle))
            ==> setup.stdin_timeout is Some,
{
    let events = choose|events: Seq<WaitEvent>|
        events.len() > 0 && #[trigger] Wait::begun(setup, signal_fd).answered_by(events)
            && Wait::begun(setup, signal_fd).wants(events) == WaitAction::Return(result);
    law_memory_limit_is_exceeded(setup, signal_fd, events);
    let wait = Wait::begun(setup, signal_fd).after(events.drop_last());
    law_setup_is_kept(setup, signal_fd, events.drop_last());
    match (wait.phase, events.last()) {
        (WaitPhase::Waiting, _) => {},
        (WaitPhase::TimerClock, _) => {},
        (WaitPhase::Throttling, _) => {},
        (WaitPhase::Measuring, _) => {},
        (WaitPhase::Polling, _) => {},
        (WaitPhase::Closing(_), _) => {},
        _ => {},
    }
}

/// Activity on input starts the idle time anew, however it shows: by data that
/// was read, or by data that a poll found.
pub proof fn law_activity_restarts_idle_time(wait: Wait, now: u64)
    requires
        wait.stdin is Some,
    ensures
        ({
            let then = wait.active_at(now);
            &&& then.stdin is Some
            &&& then.idle_budget(now) == wait.stdin->0.timeout_ns
            &&& wait.stdin->0.timeout_ns > 0 ==> !then.idle_too_long(now)
            &&& wait.phase is Activity ==> wait.next(WaitEvent::Clock(Ok(now))).0.stdin
                == then.stdin
            &&& wait.polled(crate::kqueue::StdinPollResult::Readable, now) == then
        }),
{
}

/// Every time a wait looks at a clock, it is the one that it was set up with.
pub proof fn law_wait_counts_on_one_clock(
    setup: WaitSetup,
    signal_fd: i32,
    events: Seq<WaitEvent>,
    confine: Confine,
)
    requires
        events.len() > 0,
        Wait::begun(setup, signal_fd).answered_by(events),
        Wait::begun(setup, signal_fd).wants(events) == (WaitAction::ReadClock { confine }),
    ensures
        confine == setup.confine,
{
    law_setup_is_kept(setup, signal_fd, events.drop_last());
    let was = Wait::begun(setup, signal_fd).after(events.drop_last());
    match (was.phase, events.last()) {
        (WaitPhase::Waiting, _) => {},
        (WaitPhase::TimerClock, _) => {},
        (WaitPhase::Throttling, _) => {},
        (WaitPhase::Measuring, _) => {},
        (WaitPhase::Polling, _) => {},
        _ => {},
    }
}

} // verus!
