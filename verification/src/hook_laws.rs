//! What holds of every hook, whatever it does.

use vstd::prelude::*;

use crate::args::Confine;
use crate::config::RunConfig;
use crate::error::{SpawnError, TimeoutError};
use crate::hook::{
    expanded, HookAction, HookEvent, HookPhase, HookRun, HookWait, HookWaitAction, HookWaitEvent,
    HookWaitPhase, HookWaitResult,
};
use crate::kqueue::{KernelEvent, KeventChange};
use crate::notice::{HookError, Notice};
use crate::outcome::HookResult;
use crate::process::RawExitStatus;
use crate::signal::Signal;
use crate::time::{
    law_numbers_are_cut_off_at_the_largest, law_timer_takes_the_whole_span, Duration, MAX_TIMER_NS,
};

verus! {

impl HookWait {
    /// The wait after a row of events.
    pub open spec fn after(self, events: Seq<HookWaitEvent>) -> HookWait
        decreases events.len(),
    {
        if events.len() == 0 {
            self
        } else {
            self.after(events.drop_last()).next(events.last()).0
        }
    }

    /// What the wait wants after a row of at least one event.
    pub open spec fn wants(self, events: Seq<HookWaitEvent>) -> HookWaitAction {
        self.after(events.drop_last()).next(events.last()).1
    }

    /// Is each event what came of the action asked for before it?
    pub open spec fn answered_by(self, events: Seq<HookWaitEvent>) -> bool
        decreases events.len(),
    {
        events.len() > 0 ==> self.answered_by(events.drop_last()) && self.after(
            events.drop_last(),
        ).awaits(events.last())
    }

    /// How often a row of events opened a queue.
    pub open spec fn opened(self, events: Seq<HookWaitEvent>) -> nat
        decreases events.len(),
    {
        if events.len() == 0 {
            0
        } else {
            self.opened(events.drop_last()) + if events.last() matches HookWaitEvent::Queue {
                fd,
                ..
            } && fd >= 0 {
                1nat
            } else {
                0
            }
        }
    }

    /// How often a queue was to be closed in a row of events.
    pub open spec fn closed(self, events: Seq<HookWaitEvent>) -> nat
        decreases events.len(),
    {
        if events.len() == 0 {
            0
        } else {
            self.closed(events.drop_last()) + if self.wants(events) is CloseQueue {
                1nat
            } else {
                0
            }
        }
    }
}

/// The hook's timer never fires after its deadline, and is never longer than
/// the kernel takes. Without time left the wait does not sleep at all.
pub proof fn law_hook_wakes_in_time(wait: HookWait, now: u64)
    ensures
        wait.turn(now).1 is Submit <==> now < wait.deadline_ns,
        wait.turn(now).1 matches HookWaitAction::Submit { queue, wake_ns } ==> {
            &&& queue == wait.queue
            &&& now + wake_ns <= wait.deadline_ns
            &&& wake_ns <= MAX_TIMER_NS
            &&& now + wake_ns == wait.deadline_ns || wake_ns == MAX_TIMER_NS
        },
{
}

/// A hook's wait that has returned has closed every queue that it opened.
pub proof fn law_hook_queue_is_closed(wait: HookWait, events: Seq<HookWaitEvent>)
    requires
        wait.phase is Starting,
        events.len() > 0,
        wait.answered_by(events),
    ensures
        wait.closed(events) <= wait.opened(events) <= 1,
        wait.wants(events) is Return ==> wait.closed(events) == wait.opened(events),
{
    lemma_hook_queue_counts(wait, events.drop_last());
    lemma_hook_queue_counts(wait, events);
}

/// How often a queue was opened and closed, by where the wait is.
proof fn lemma_hook_queue_counts(wait: HookWait, events: Seq<HookWaitEvent>)
    requires
        wait.phase is Starting,
        wait.answered_by(events),
    ensures
        ({
            let then = wait.after(events);
            let (opened, closed) = (wait.opened(events), wait.closed(events));
            match then.phase {
                HookWaitPhase::Starting(_) | HookWaitPhase::Opening => opened == 0 && closed == 0,
                HookWaitPhase::LoopClock | HookWaitPhase::Waiting => opened == 1 && closed == 0,
                HookWaitPhase::Closing(_) | HookWaitPhase::TryReaping
                | HookWaitPhase::Reaping => opened == 1 && closed == 1,
                HookWaitPhase::Done => closed == opened && opened <= 1,
            }
        }),
    decreases events.len(),
{
    if events.len() > 0 {
        lemma_hook_queue_counts(wait, events.drop_last());
        let was = wait.after(events.drop_last());
        match (was.phase, events.last()) {
            (HookWaitPhase::Starting(_), _) => {},
            (HookWaitPhase::Opening, _) => {},
            (HookWaitPhase::LoopClock, _) => {},
            (HookWaitPhase::Waiting, _) => {},
            (HookWaitPhase::Closing(_), _) => {},
            (HookWaitPhase::TryReaping, _) => {},
            _ => {},
        }
    }
}

impl HookRun {
    /// The run after a row of events.
    pub open spec fn after(self, events: Seq<HookEvent>, config: RunConfig) -> HookRun
        decreases events.len(),
    {
        if events.len() == 0 {
            self
        } else {
            self.after(events.drop_last(), config).next(events.last(), config).0
        }
    }

    /// What the run wants after a row of at least one event.
    pub open spec fn wants(self, events: Seq<HookEvent>, config: RunConfig) -> HookAction {
        self.after(events.drop_last(), config).next(events.last(), config).1
    }

    /// Is each event what came of the action asked for before it?
    pub open spec fn answered_by(self, events: Seq<HookEvent>, config: RunConfig) -> bool
        decreases events.len(),
    {
        events.len() > 0 ==> self.answered_by(events.drop_last(), config) && self.after(
            events.drop_last(),
            config,
        ).awaits(events.last())
    }

    /// How often the hook was to be killed in a row of events.
    pub open spec fn kills(self, events: Seq<HookEvent>, config: RunConfig) -> nat
        decreases events.len(),
    {
        if events.len() == 0 {
            0
        } else {
            self.kills(events.drop_last(), config) + if self.wants(events, config) is KillGroup {
                1nat
            } else {
                0
            }
        }
    }

    /// How many more events there can be at most.
    pub open spec fn steps_left(self) -> nat {
        match self.phase {
            HookPhase::Starting { .. } => 8,
            HookPhase::Announcing { .. } => 7,
            HookPhase::Spawning => 6,
            HookPhase::Waiting => 5,
            HookPhase::Reading(_) => 4,
            HookPhase::SayingTimeout(_) => 3,
            HookPhase::Killing(_) => 2,
            HookPhase::SayingNotStarted => 2,
            HookPhase::ReadingNotStarted => 1,
            HookPhase::Reaping(_) => 1,
            HookPhase::SayingEnd(_) => 1,
            HookPhase::Done => 0,
        }
    }
}

/// The hook always comes to an end: there are eight events at most.
pub proof fn law_hook_comes_to_an_end(run: HookRun, events: Seq<HookEvent>, config: RunConfig)
    requires
        run.phase is Starting,
        run.answered_by(events, config),
    ensures
        events.len() + run.after(events, config).steps_left() <= 8,
    decreases events.len(),
{
    if events.len() > 0 {
        law_hook_comes_to_an_end(run, events.drop_last(), config);
        let was = run.after(events.drop_last(), config);
        match (was.phase, events.last()) {
            (HookPhase::Starting { .. }, _) => {},
            (HookPhase::Spawning, _) => {},
            (HookPhase::Reading(_), _) => {},
            _ => {},
        }
    }
}

/// A hook is killed, with all that is in its process group, exactly if it is
/// said to have timed out, and has then been collected. One that did not run
/// has no exit code and was not killed.
pub proof fn law_slow_hook_is_killed_and_collected(
    run: HookRun,
    events: Seq<HookEvent>,
    config: RunConfig,
    result: HookResult,
)
    requires
        run.phase is Starting,
        events.len() > 0,
        run.answered_by(events, config),
        run.wants(events, config) == HookAction::Return(result),
    ensures
        run.kills(events, config) == (if result.timed_out {
            1nat
        } else {
            0
        }),
        result.timed_out ==> events.last() is Reaped && result.ran && result.exit_code is None,
        !result.ran ==> result.exit_code is None && !result.timed_out,
{
    lemma_hook_kills(run, events.drop_last(), config);
    let was = run.after(events.drop_last(), config);
    match (was.phase, events.last()) {
        (HookPhase::Reading(_), _) => {},
        (HookPhase::Starting { .. }, _) => {},
        (HookPhase::Spawning, _) => {},
        _ => {},
    }
}

/// How often the hook was killed, by where the run is.
proof fn lemma_hook_kills(run: HookRun, events: Seq<HookEvent>, config: RunConfig)
    requires
        run.phase is Starting,
        run.answered_by(events, config),
    ensures
        ({
            let then = run.after(events, config);
            let kills = run.kills(events, config);
            &&& then.phase is Killing || then.phase is Reaping ==> kills == 1
            &&& then.phase !is Killing && then.phase !is Reaping && then.phase !is Done ==> kills
                == 0
            &&& then.phase matches HookPhase::SayingEnd(end) ==> end.ran && !end.timed_out
        }),
    decreases events.len(),
{
    if events.len() > 0 {
        lemma_hook_kills(run, events.drop_last(), config);
        let was = run.after(events.drop_last(), config);
        match (was.phase, events.last()) {
            (HookPhase::Starting { .. }, _) => {},
            (HookPhase::Spawning, _) => {},
            (HookPhase::Reading(_), _) => {},
            _ => {},
        }
    }
}

/// The hook's number, if it was started.
pub open spec fn hook_started(events: Seq<HookEvent>) -> Option<i32>
    decreases events.len(),
{
    if events.len() == 0 {
        None
    } else if events.last() is Spawned && events.last()->Spawned_0 is Ok {
        Some(events.last()->Spawned_0->Ok_0)
    } else {
        hook_started(events.drop_last())
    }
}

/// The hook is started as `sh -c` with its text expanded for the command, in a
/// process group of its own, and announced by that text. What is waited for,
/// killed and collected is the hook that was started, and it is killed with
/// `SIGKILL`.
pub proof fn law_hook_is_run_by_the_shell(
    run: HookRun,
    hook: Seq<char>,
    pid: int,
    events: Seq<HookEvent>,
    config: RunConfig,
)
    requires
        run.begins(hook, pid),
        events.len() > 0,
        run.answered_by(events, config),
    ensures
        run.wants(events, config) matches HookAction::Spawn(request) ==> request.runs_hook(
            hook,
            pid,
        ),
        run.wants(events, config) matches HookAction::Say(Notice::HookRunning(command))
            ==> command@ == expanded(hook, pid),
        run.wants(events, config) matches HookAction::Wait { pid: hook_pid, limit, .. }
            ==> hook_started(events) == Some(hook_pid) && limit == config.on_timeout_limit,
        run.wants(events, config) matches HookAction::KillGroup { pid: hook_pid, signal }
            ==> hook_started(events) == Some(hook_pid) && signal == Signal::SIGKILL,
        run.wants(events, config) matches HookAction::Reap { pid: hook_pid }
            ==> hook_started(events) == Some(hook_pid),
{
    lemma_hook_in_hand(run, hook, pid, events.drop_last(), config);
    lemma_hook_started(run, events.drop_last(), config);
    let was = run.after(events.drop_last(), config);
    match (was.phase, events.last()) {
        (HookPhase::Starting { .. }, _) => {},
        (HookPhase::Announcing { .. }, _) => {},
        (HookPhase::Spawning, _) => {},
        (HookPhase::Reading(_), _) => {},
        _ => {},
    }
}

/// A hook is said to have run exactly if it was started.
pub proof fn law_hook_ran_if_started(
    run: HookRun,
    events: Seq<HookEvent>,
    config: RunConfig,
    result: HookResult,
)
    requires
        run.phase is Starting,
        events.len() > 0,
        run.answered_by(events, config),
        run.wants(events, config) == HookAction::Return(result),
    ensures
        result.ran <==> hook_started(events) is Some,
{
    lemma_hook_started(run, events.drop_last(), config);
    let was = run.after(events.drop_last(), config);
    match (was.phase, events.last()) {
        (HookPhase::Starting { .. }, _) => {},
        (HookPhase::Spawning, _) => {},
        (HookPhase::Reading(_), _) => {},
        _ => {},
    }
}

/// What is to be started is what was asked for, as long as it is kept.
proof fn lemma_hook_in_hand(
    run: HookRun,
    hook: Seq<char>,
    pid: int,
    events: Seq<HookEvent>,
    config: RunConfig,
)
    requires
        run.begins(hook, pid),
        run.answered_by(events, config),
    ensures
        run.after(events, config).phase is Starting ==> run.after(events, config).begins(hook, pid),
        run.after(events, config).phase matches HookPhase::Announcing { request }
            ==> request.runs_hook(hook, pid),
    decreases events.len(),
{
    if events.len() > 0 {
        lemma_hook_in_hand(run, hook, pid, events.drop_last(), config);
        let was = run.after(events.drop_last(), config);
        match (was.phase, events.last()) {
            (HookPhase::Starting { .. }, _) => {},
            (HookPhase::Reading(_), _) => {},
            _ => {},
        }
    }
}

/// Whether the hook was started, by where the run is.
proof fn lemma_hook_started(run: HookRun, events: Seq<HookEvent>, config: RunConfig)
    requires
        run.phase is Starting,
        run.answered_by(events, config),
    ensures
        ({
            let then = run.after(events, config);
            match then.phase {
                HookPhase::Starting { .. } => hook_started(events) is None,
                HookPhase::Announcing { .. } => hook_started(events) is None,
                HookPhase::Spawning => hook_started(events) is None,
                HookPhase::SayingNotStarted => hook_started(events) is None,
                HookPhase::ReadingNotStarted => hook_started(events) is None,
                HookPhase::SayingEnd(end) => hook_started(events) == Some(then.hook_pid) && end.ran,
                HookPhase::Done => true,
                _ => hook_started(events) == Some(then.hook_pid),
            }
        }),
    decreases events.len(),
{
    if events.len() > 0 {
        lemma_hook_started(run, events.drop_last(), config);
        let was = run.after(events.drop_last(), config);
        match (was.phase, events.last()) {
            (HookPhase::Starting { .. }, _) => {},
            (HookPhase::Spawning, _) => {},
            (HookPhase::Reading(_), _) => {},
            _ => {},
        }
    }
}

/// A hook's run and the wait in it count on the clock that is configured.
pub proof fn law_hook_counts_on_one_clock(
    run: HookRun,
    events: Seq<HookEvent>,
    config: RunConfig,
)
    requires
        events.len() > 0,
        run.answered_by(events, config),
    ensures
        run.wants(events, config) matches HookAction::ReadClock { confine } ==> confine
            == config.confine,
        run.wants(events, config) matches HookAction::Wait { confine, .. } ==> confine
            == config.confine,
{
    let was = run.after(events.drop_last(), config);
    match (was.phase, events.last()) {
        (HookPhase::Starting { .. }, _) => {},
        (HookPhase::Spawning, _) => {},
        (HookPhase::Reading(_), _) => {},
        _ => {},
    }
}

/// Every time a hook's wait looks at a clock, it is the one that it began with.
pub proof fn law_hook_wait_counts_on_one_clock(wait: HookWait, events: Seq<HookWaitEvent>)
    ensures
        wait.after(events).confine == wait.confine,
        events.len() > 0 ==> (wait.wants(events) matches HookWaitAction::ReadClock { confine }
            ==> confine == wait.confine),
    decreases events.len(),
{
    if events.len() > 0 {
        law_hook_wait_counts_on_one_clock(wait, events.drop_last());
        let was = wait.after(events.drop_last());
        match (was.phase, events.last()) {
            (HookWaitPhase::Starting(_), _) => {},
            (HookWaitPhase::Opening, _) => {},
            (HookWaitPhase::LoopClock, _) => {},
            (HookWaitPhase::Waiting, _) => {},
            _ => {},
        }
    }
}

/// Does the wait close its queue to return this?
pub open spec fn hook_ends_with(
    wait: HookWait,
    next: (HookWait, HookWaitAction),
    result: HookWaitResult,
) -> bool {
    &&& next.1 == (HookWaitAction::CloseQueue { queue: wait.queue })
    &&& next.0.awaits(HookWaitEvent::Closed)
    &&& next.0.next(HookWaitEvent::Closed).1 == HookWaitAction::Return(result)
}

/// Does the wait look at the clock and go on, knowing what it knew?
pub open spec fn hook_goes_on(wait: HookWait, next: (HookWait, HookWaitAction)) -> bool {
    &&& next.0 == (HookWait { phase: HookWaitPhase::LoopClock, ..wait })
    &&& next.1 == (HookWaitAction::ReadClock { confine: wait.confine })
}

/// A hook's wait lasts as long as the hook may run: its deadline is that long after
/// the first reading of the clock, as far as clocks reach. A clock that cannot be
/// read counts as having just begun.
pub proof fn law_hook_has_its_time(
    pid: i32,
    limit: Duration,
    confine: Confine,
    start: u64,
    error: TimeoutError,
)
    ensures
        ({
            let wait = HookWait::begun(pid, limit, confine);
            let (then, action) = wait.next(HookWaitEvent::Clock(Ok(start)));
            let span = if limit.total_ns() <= i64::MAX {
                limit.total_ns() as int
            } else {
                i64::MAX as int
            };
            &&& wait.pid == pid
            &&& wait.confine == confine
            &&& wait.awaits(HookWaitEvent::Clock(Ok(start)))
            &&& action is OpenQueue
            &&& start + span <= u64::MAX ==> then.deadline_ns == start + span
            &&& start + span > u64::MAX ==> then.deadline_ns == u64::MAX
            &&& then.pid == pid
            &&& wait.next(HookWaitEvent::Clock(Err(error))).1 is OpenQueue
            &&& wait.next(HookWaitEvent::Clock(Err(error))).0.deadline_ns == span
        }),
{
    law_timer_takes_the_whole_span(limit);
    law_numbers_are_cut_off_at_the_largest(start + limit.total_ns());
    law_numbers_are_cut_off_at_the_largest(start + i64::MAX);
}

/// A queue that could be had is used from then on; without one the wait fails. At
/// each turn the wait is out of time exactly if the deadline has come, or the clock
/// cannot be read, and otherwise it sleeps until then.
pub proof fn law_hook_wait_ends_or_sleeps(
    wait: HookWait,
    fd: i32,
    errno: i32,
    now: u64,
    error: TimeoutError,
)
    ensures
        wait.phase is Opening && fd < 0 ==> wait.next(HookWaitEvent::Queue { fd, errno }).1
            == HookWaitAction::Return(HookWaitResult::Error(HookError::KqueueFailed(errno))),
        wait.phase is Opening && fd >= 0 ==> hook_goes_on(
            HookWait { queue: fd, ..wait },
            wait.next(HookWaitEvent::Queue { fd, errno }),
        ),
        wait.phase is LoopClock ==> hook_ends_with(
            wait,
            wait.next(HookWaitEvent::Clock(Err(error))),
            HookWaitResult::TimedOut,
        ),
        wait.phase is LoopClock && wait.deadline_ns <= now ==> hook_ends_with(
            wait,
            wait.next(HookWaitEvent::Clock(Ok(now))),
            HookWaitResult::TimedOut,
        ),
        wait.phase is LoopClock && now < wait.deadline_ns ==> {
            let (then, action) = wait.next(HookWaitEvent::Clock(Ok(now)));
            &&& then == (HookWait { phase: HookWaitPhase::Waiting, ..wait })
            &&& action is Submit
            &&& action->Submit_queue == wait.queue
            &&& wait.deadline_ns - now <= i64::MAX ==> now + action->Submit_wake_ns
                == wait.deadline_ns
            &&& wait.deadline_ns - now > i64::MAX ==> action->Submit_wake_ns == i64::MAX
        },
{
}

/// The queue is asked for the hook's exit and for a timer, which is not the main
/// wait's.
pub proof fn law_hook_queue_is_asked_for_exit_and_timer(wait: HookWait, wake_ns: u64)
    ensures
        ({
            let asked = wait.filters(wake_ns);
            &&& asked.len() == 2
            &&& asked[0] == (KeventChange {
                ident: wait.pid as u64,
                filter: (-5) as i16,
                flags: 0x11,
                fflags: 0x8000_0000,
                data: 0,
            })
            &&& asked[1] == (KeventChange {
                ident: 2,
                filter: (-7) as i16,
                flags: 0x11,
                fflags: 0x4,
                data: wake_ns as i64,
            })
        }),
{
    assert(0x1u16 | 0x10u16 == 0x11u16) by (bit_vector);
}

/// A call that was interrupted is made again, and one that failed for want of the
/// hook has it collected, without blocking at first. The hook's exit, and a filter
/// that is refused for want of the hook, have it collected too. The timer ends the
/// wait. Any other failure does so with its number.
pub proof fn law_hook_event_is_acted_on(wait: HookWait, event: KernelEvent, errno: i32)
    requires
        wait.phase is Waiting,
        0 <= event.data <= i32::MAX,
    ensures
        ({
            let next = wait.next(HookWaitEvent::Kernel(Err(errno)));
            &&& errno == 4 ==> hook_goes_on(wait, next)
            &&& errno == 3 ==> next.1 == (HookWaitAction::CloseQueue { queue: wait.queue })
                && next.0.next(HookWaitEvent::Closed).1 is TryReap
            &&& errno != 3 && errno != 4 ==> hook_ends_with(
                wait,
                next,
                HookWaitResult::Error(HookError::KeventFailed(errno)),
            )
        }),
        ({
            let next = wait.next(HookWaitEvent::Kernel(Ok(event)));
            let refused = event.flags & 0x4000 != 0;
            &&& refused && event.data == 3 || !refused && event.filter == -5 ==> next.1 == (
            HookWaitAction::CloseQueue { queue: wait.queue }) && next.0.next(
                HookWaitEvent::Closed,
            ).1 is Reap
            &&& refused && event.data != 3 ==> hook_ends_with(
                wait,
                next,
                HookWaitResult::Error(HookError::RegistrationFailed(event.data as i32)),
            )
            &&& !refused && event.filter != -5 ==> hook_ends_with(
                wait,
                next,
                HookWaitResult::TimedOut,
            )
        }),
{
}

/// How the hook ended is what is returned once it is collected, and why it could
/// not be collected otherwise. One that could not be had at once is waited for.
pub proof fn law_hook_end_is_returned(wait: HookWait, status: RawExitStatus, error: SpawnError)
    ensures
        wait.phase is TryReaping ==> {
            &&& wait.next(HookWaitEvent::TryReaped(Ok(Some(status)))).1 == HookWaitAction::Return(
                HookWaitResult::Exited(status),
            )
            &&& wait.next(HookWaitEvent::TryReaped(Ok(None))).1 is Reap
            &&& wait.next(HookWaitEvent::TryReaped(Ok(None))).0.awaits(
                HookWaitEvent::Reaped(Ok(status)),
            )
            &&& wait.next(HookWaitEvent::TryReaped(Err(error))).1 == HookWaitAction::Return(
                HookWaitResult::Error(HookError::Reap(error)),
            )
        },
        wait.phase is Reaping ==> {
            &&& wait.next(HookWaitEvent::Reaped(Ok(status))).1 == HookWaitAction::Return(
                HookWaitResult::Exited(status),
            )
            &&& wait.next(HookWaitEvent::Reaped(Err(error))).1 == HookWaitAction::Return(
                HookWaitResult::Error(HookError::Reap(error)),
            )
        },
{
}

/// What the wait for the hook came to in a row of events.
pub open spec fn hook_waited(events: Seq<HookEvent>) -> Option<HookWaitResult>
    decreases events.len(),
{
    if events.len() == 0 {
        None
    } else {
        match events.last() {
            HookEvent::Waited(result) => Some(result),
            _ => hook_waited(events.drop_last()),
        }
    }
}

/// What a reading of the clock counts as: none counts as zero.
pub open spec fn counts_as(reading: Result<u64, TimeoutError>) -> u64 {
    match reading {
        Ok(now) => now,
        Err(_) => 0,
    }
}

/// The first reading of the clock in a row of events.
pub open spec fn first_reading(events: Seq<HookEvent>) -> Option<u64>
    decreases events.len(),
{
    if events.len() == 0 {
        None
    } else {
        match first_reading(events.drop_last()) {
            Some(now) => Some(now),
            None => match events.last() {
                HookEvent::Clock(reading) => Some(counts_as(reading)),
                _ => None,
            },
        }
    }
}

/// The last reading of the clock in a row of events.
pub open spec fn last_reading(events: Seq<HookEvent>) -> Option<u64>
    decreases events.len(),
{
    if events.len() == 0 {
        None
    } else {
        match events.last() {
            HookEvent::Clock(reading) => Some(counts_as(reading)),
            _ => last_reading(events.drop_last()),
        }
    }
}

/// Is this how many milliseconds passed from the first reading to the last?
pub open spec fn took(events: Seq<HookEvent>, elapsed_ms: u64) -> bool {
    &&& first_reading(events) is Some
    &&& last_reading(events) is Some
    &&& {
        let (first, last) = (first_reading(events)->0, last_reading(events)->0);
        &&& first <= last ==> elapsed_ms * 1_000_000 <= last - first < (elapsed_ms + 1) * 1_000_000
        &&& first > last ==> elapsed_ms == 0
    }
}

/// Does the result tell what the wait for the hook came to?
pub open spec fn hook_told(events: Seq<HookEvent>, result: HookResult) -> bool {
    match hook_waited(events) {
        None => !result.ran && !result.timed_out && result.exit_code is None,
        Some(HookWaitResult::Exited(status)) => result.ran && !result.timed_out && result.exit_code
            == status.exit_code(),
        Some(HookWaitResult::TimedOut) => result.ran && result.timed_out && result.exit_code
            is None,
        Some(HookWaitResult::Error(_)) => result.ran && !result.timed_out && result.exit_code
            is None,
    }
}

/// What the events came to, by where the run is.
spec fn hook_knows(run: HookRun, events: Seq<HookEvent>) -> bool {
    &&& run.phase !is Starting && run.phase !is Done ==> first_reading(events) == Some(run.start_ns)
    &&& match run.phase {
        HookPhase::Starting { .. } => first_reading(events) is None && hook_waited(events) is None,
        HookPhase::Announcing { .. } => hook_waited(events) is None,
        HookPhase::Spawning => hook_waited(events) is None,
        HookPhase::SayingNotStarted => hook_waited(events) is None,
        HookPhase::ReadingNotStarted => hook_waited(events) is None,
        HookPhase::Waiting => hook_waited(events) is None,
        HookPhase::Reading(result) => hook_waited(events) == Some(result),
        HookPhase::SayingEnd(end) => hook_told(events, end) && took(events, end.elapsed_ms),
        HookPhase::SayingTimeout(ms) => hook_waited(events) == Some(HookWaitResult::TimedOut)
            && took(events, ms),
        HookPhase::Killing(ms) => hook_waited(events) == Some(HookWaitResult::TimedOut) && took(
            events,
            ms,
        ),
        HookPhase::Reaping(ms) => hook_waited(events) == Some(HookWaitResult::TimedOut) && took(
            events,
            ms,
        ),
        HookPhase::Done => true,
    }
}

#[verifier::rlimit(40)]
proof fn lemma_hook_step_knows(
    run: HookRun,
    before: Seq<HookEvent>,
    event: HookEvent,
    config: RunConfig,
)
    requires
        run.awaits(event),
        hook_knows(run, before),
    ensures
        hook_knows(run.next(event, config).0, before.push(event)),
        run.next(event, config).1 matches HookAction::Return(result) ==> hook_told(
            before.push(event),
            result,
        ) && took(before.push(event), result.elapsed_ms),
{
    let events = before.push(event);
    assert(events.drop_last() =~= before);
    assert(events.last() == event);
    match (run.phase, event) {
        (HookPhase::Starting { .. }, _) => {},
        (HookPhase::Spawning, _) => {},
        (HookPhase::Reading(_), _) => {},
        (HookPhase::ReadingNotStarted, _) => {},
        _ => {},
    }
}

proof fn lemma_hook_knows(run: HookRun, events: Seq<HookEvent>, config: RunConfig)
    requires
        run.phase is Starting,
        run.answered_by(events, config),
    ensures
        hook_knows(run.after(events, config), events),
    decreases events.len(),
{
    if events.len() > 0 {
        let before = events.drop_last();
        lemma_hook_knows(run, before, config);
        lemma_hook_step_knows(run.after(before, config), before, events.last(), config);
        assert(before.push(events.last()) =~= events);
    }
}

/// The hook's result tells what its wait came to: the exit code of one that ended,
/// that one that took too long was killed, and neither of one that was lost or
/// never started. How long it took is counted from the first reading of the clock
/// to the last, in whole milliseconds.
pub proof fn law_hook_result_tells_what_was_found(
    run: HookRun,
    events: Seq<HookEvent>,
    config: RunConfig,
    result: HookResult,
)
    requires
        run.phase is Starting,
        events.len() > 0,
        run.answered_by(events, config),
        run.wants(events, config) == HookAction::Return(result),
    ensures
        hook_told(events, result),
        took(events, result.elapsed_ms),
{
    let before = events.drop_last();
    lemma_hook_knows(run, before, config);
    lemma_hook_step_knows(run.after(before, config), before, events.last(), config);
    assert(before.push(events.last()) =~= events);
}

/// A loud run says that the hook starts before it does, why it did not start, that
/// it failed, takes too long or was lost. One that is not says nothing. Either way
/// the hook is started, waited for, and killed if it takes too long.
pub proof fn law_hook_goes_on_whether_or_not_it_is_said(
    run: HookRun,
    event: HookEvent,
    config: RunConfig,
)
    requires
        run.awaits(event),
    ensures
        ({
            let (then, action) = run.next(event, config);
            let loud = config.verbose && !config.quiet;
            let follows = if action is Say {
                then.next(HookEvent::Said, config).1
            } else {
                action
            };
            &&& action is Say ==> loud && then.awaits(HookEvent::Said)
            &&& run.phase matches HookPhase::Starting { command, request } ==> {
                &&& action is Say <==> loud
                &&& action is Say ==> action == HookAction::Say(Notice::HookRunning(command))
                &&& follows == HookAction::Spawn(request)
            }
            &&& event matches HookEvent::Spawned(Ok(pid)) ==> action is Wait && action->Wait_pid
                == pid && action->Wait_limit == config.on_timeout_limit
            &&& event matches HookEvent::Spawned(Err(e)) ==> {
                &&& action is Say <==> loud
                &&& action is Say ==> action == HookAction::Say(Notice::HookNotStarted(e))
                &&& follows is ReadClock
            }
            &&& event is Waited ==> action is ReadClock
            &&& run.phase matches HookPhase::Reading(HookWaitResult::TimedOut) ==> {
                &&& action is Say <==> loud
                &&& action is Say ==> action == HookAction::Say(Notice::HookTimedOut)
                &&& follows == (HookAction::KillGroup {
                    pid: run.hook_pid,
                    signal: Signal::SIGKILL,
                })
            }
            &&& run.phase matches HookPhase::Reading(HookWaitResult::Exited(status)) ==> {
                &&& action is Say <==> loud && (status.exit_code() matches Some(c) && c != 0)
                &&& action is Say ==> action == HookAction::Say(
                    Notice::HookExited(status.exit_code()->0),
                )
                &&& follows is Return
            }
            &&& run.phase matches HookPhase::Reading(HookWaitResult::Error(e)) ==> {
                &&& action is Say <==> loud
                &&& action is Say ==> action == HookAction::Say(Notice::HookWaitFailed(e))
                &&& follows is Return
            }
            &&& event is Killed ==> action == (HookAction::Reap { pid: run.hook_pid })
            &&& event is Reaped ==> action is Return
        }),
{
}

/// A run of the hook begins with what it is to start: `sh`, with `-c` and the text
/// with the command's number in it, in a process group of its own and without
/// limits. That text is also what is said to run.
pub proof fn law_hook_begins_with_its_start(run: HookRun, hook: Seq<char>, pid: int)
    requires
        run.begins(hook, pid),
    ensures
        run.phase matches HookPhase::Starting { command, request } && {
            &&& command@ == expanded(hook, pid)
            &&& request.command@ == seq!['s', 'h']
            &&& request.args@.len() == 2
            &&& request.args@[0]@ == seq!['-', 'c']
            &&& request.args@[1]@ == expanded(hook, pid)
            &&& request.use_process_group
            &&& request.limits is None
        },
        run.awaits(HookEvent::Clock(Ok(0))),
{
    reveal_strlit("sh");
    reveal_strlit("-c");
    assert("sh"@ =~= seq!['s', 'h']);
    assert("-c"@ =~= seq!['-', 'c']);
}

} // verus!
