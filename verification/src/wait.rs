//! Waiting for a child on the kernel event queue.
//!
//! A [`Wait`] holds everything that is known while the child runs. It says what
//! to do next ([`WaitAction`]); whoever does it hands back what came of it
//! ([`WaitEvent`]), until the wait returns.

use vstd::prelude::*;

use crate::args::Confine;
use crate::error::{InternalError, SpawnError, TimeoutError};
use crate::kqueue::{
    exit_filter, pipe_signal, poll_result, read_filter, read_signal_from_pipe, stdin_poll_status,
    timer_filter, watch_exit, watch_read, watch_timer, KernelEvent, KeventChange, StdinPollResult,
    EVFILT_PROC, EVFILT_READ, EVFILT_TIMER, EV_ADD, EV_DELETE, MAIN_TIMER,
};
use crate::outcome::TimeoutReason;
use crate::process::{RawExitStatus, ResourceUsage};
use crate::signal::Signal;
use crate::sys::{ebadf, echild, eintr, enoent, esrch};
use crate::time::{
    advance_ns, clamp_u64, deadline_reached, duration_to_ns, elapsed_ns, idle_left, left_until,
    min_of, min_u64, reached, remaining_ns, since, time_to_idle_timeout, timer_ns, Duration,
    MAX_TIMER_NS,
};

verus! {

/// How input is watched.
#[derive(Clone, Copy, Debug, PartialEq, Eq, Structural)]
pub enum StdinMode {
    /// By the event queue; what arrives is read and dropped.
    Consume,
    /// By polling; what arrives is left for the child.
    Passthrough,
}

/// How long input may stay idle.
#[derive(Clone, Copy, Debug, PartialEq, Eq, Structural)]
pub struct StdinTimeoutConfig {
    pub timeout_ns: u64,
    /// When input was last active.
    pub last_activity_ns: u64,
    pub mode: StdinMode,
}

/// How often to say that the command still runs.
#[derive(Clone, Copy, Debug, PartialEq, Eq, Structural)]
pub struct HeartbeatConfig {
    /// Zero means never.
    pub interval_ns: u64,
    pub quiet: bool,
    pub pid: i32,
    /// When the command was started.
    pub start_ns: u64,
}

/// How much memory the command may use, and how often to look.
#[derive(Clone, Copy, Debug, PartialEq, Eq, Structural)]
pub struct MemoryLimitConfig {
    pub limit_bytes: u64,
    pub check_interval_ns: u64,
}

/// When to look at the command's processor time.
#[derive(Clone, Copy, Debug, PartialEq, Eq, Structural)]
pub struct ThrottleTiming {
    pub interval_ns: u64,
    pub last_wall_ns: u64,
}

/// What to wait for.
#[derive(Clone, Copy, Debug, PartialEq, Eq, Structural)]
pub struct WaitSetup {
    pub pid: i32,
    /// `None` waits without a deadline; a zero deadline has already come.
    pub wall_timeout: Option<Duration>,
    pub heartbeat: Option<HeartbeatConfig>,
    pub stdin_timeout: Option<StdinTimeoutConfig>,
    pub throttle: Option<ThrottleTiming>,
    pub memory_limit: Option<MemoryLimitConfig>,
    /// The clock that counts.
    pub confine: Confine,
}

/// What came of waiting.
#[derive(Clone, Copy, Debug, PartialEq, Eq, Structural)]
pub enum WaitResult {
    /// The child ended.
    Exited(RawExitStatus, ResourceUsage),
    /// Time ran out.
    TimedOut(TimeoutReason),
    /// The child uses too much memory.
    MemoryLimitExceeded { limit_bytes: u64, actual_bytes: u64 },
    /// A signal is to be passed on to the child.
    ReceivedSignal(Signal),
}

/// What the next submission does to the input filter.
#[derive(Clone, Copy, Debug, PartialEq, Eq, Structural)]
pub enum StdinChange {
    Nothing,
    Add,
    Delete,
}

/// What a wait is about to return when it has closed its queue.
#[derive(Clone, Copy, Debug, PartialEq, Eq, Structural)]
pub enum WaitEnd {
    TimedOut(TimeoutReason),
    MemoryLimitExceeded { limit_bytes: u64, actual_bytes: u64 },
    KeventFailed(i32),
    RegistrationFailed(i32),
}

/// What a wait does when it has closed its queue.
#[derive(Clone, Copy, Debug, PartialEq, Eq, Structural)]
pub enum AfterClose {
    Return(WaitEnd),
    /// The child is gone: collect it without blocking, if possible.
    TryReap,
    /// The child exited: collect it.
    Collect,
    /// Something is in the signal pipe.
    ReadSignal(i32),
}

/// What a wait is in the middle of.
#[derive(Clone, Copy, Debug, PartialEq, Eq, Structural)]
pub enum WaitPhase {
    Starting,
    CheckingStdin,
    FirstPoll,
    FirstActivity,
    Opening,
    LoopClock,
    Waiting,
    Draining,
    Activity,
    TimerClock,
    Throttling,
    Measuring,
    Polling,
    Beating,
    Closing(AfterClose),
    TryReaping,
    Reaping,
    Collecting,
    ReadingSignal,
    Done,
}

/// What a wait wants done.
#[derive(Debug)]
pub enum WaitAction {
    /// Read the clock that counts.
    ReadClock { confine: Confine },
    /// Find out whether the input descriptor is open.
    StatStdin,
    /// Poll the input without blocking.
    PollStdin,
    /// Open an event queue.
    OpenQueue,
    /// Hand the queue [`Wait::changes`] for `wake_ns` and wait for one event.
    Submit { queue: i32, wake_ns: u64 },
    /// Read what there is on input, up to a buffer, and drop it.
    DrainStdin,
    /// Bring the throttle up to date.
    UpdateThrottle { now_ns: u64 },
    /// Find out how much memory the child uses.
    MeasureMemory,
    /// Say that the command still runs.
    Heartbeat { elapsed_ns: u64, pid: i32 },
    /// Close the event queue.
    CloseQueue { queue: i32 },
    /// Collect the child without blocking.
    TryReap,
    /// Collect the child.
    Reap,
    /// Read one byte from the signal pipe.
    ReadSignal { fd: i32 },
    /// The wait is over.
    Return(Result<WaitResult, TimeoutError>),
}

/// What came of a [`WaitAction`].
#[derive(Debug)]
pub enum WaitEvent {
    /// The time in nanoseconds, as [`crate::clock::precise_now_ns`] tells it of
    /// the clock asked for.
    Clock(Result<u64, TimeoutError>),
    /// What looking at the input descriptor returned: negative if it is not open.
    StdinStat(i32),
    /// How many descriptors were ready, and the bits reported.
    Polled { ready: i32, revents: i16 },
    /// The queue; negative with an error number if there is none.
    Queue { fd: i32, errno: i32 },
    /// An event, or the error number.
    Kernel(Result<KernelEvent, i32>),
    /// What reading input returned.
    Drained(i64),
    Throttled(Result<(), TimeoutError>),
    /// Bytes in use, if that is known.
    Memory(Option<u64>),
    Said,
    Closed,
    TryReaped(Result<Option<(RawExitStatus, ResourceUsage)>, SpawnError>),
    Reaped(Result<(RawExitStatus, ResourceUsage), SpawnError>),
    /// What reading the pipe returned, and the byte.
    SignalByte { count: i64, byte: u8 },
}

/// A wait in progress.
#[derive(Clone, Copy, Debug, PartialEq, Eq, Structural)]
pub struct Wait {
    pub phase: WaitPhase,
    pub pid: i32,
    pub queue: i32,
    pub wall_timeout: Option<Duration>,
    /// When time runs out.
    pub deadline_ns: u64,
    pub heartbeat: Option<HeartbeatConfig>,
    pub next_heartbeat_ns: u64,
    /// The idle limit; `None` once input is not watched any more.
    pub stdin: Option<StdinTimeoutConfig>,
    /// Is input watched by the queue?
    pub stdin_enabled: bool,
    pub stdin_change: StdinChange,
    pub throttle: Option<ThrottleTiming>,
    pub next_throttle_ns: u64,
    pub memory: Option<MemoryLimitConfig>,
    pub next_memory_check_ns: u64,
    pub signal_fd: Option<i32>,
    /// When the timer last fired.
    pub now_ns: u64,
    /// The clock that counts.
    pub confine: Confine,
}

/// The error that a failed collection of the child stands for.
pub open spec fn wait_failure(e: SpawnError) -> TimeoutError {
    match e {
        SpawnError::Wait(errno) => TimeoutError::SpawnError(errno),
        _ => TimeoutError::Internal(InternalError::WaitFailed),
    }
}

/// The error that a failed collection of the child stands for.
pub fn wait_error(e: SpawnError) -> (error: TimeoutError)
    ensures
        error == wait_failure(e),
{
    match e {
        SpawnError::Wait(errno) => TimeoutError::SpawnError(errno),
        _ => TimeoutError::Internal(InternalError::WaitFailed),
    }
}

impl WaitEnd {
    /// What the wait returns.
    pub open spec fn result(self) -> Result<WaitResult, TimeoutError> {
        match self {
            WaitEnd::TimedOut(reason) => Ok(WaitResult::TimedOut(reason)),
            WaitEnd::MemoryLimitExceeded { limit_bytes, actual_bytes } => Ok(
                WaitResult::MemoryLimitExceeded { limit_bytes, actual_bytes },
            ),
            WaitEnd::KeventFailed(errno) => Err(
                TimeoutError::Internal(InternalError::KeventFailed(errno)),
            ),
            WaitEnd::RegistrationFailed(errno) => Err(
                TimeoutError::Internal(InternalError::RegistrationFailed(errno)),
            ),
        }
    }

    /// What the wait returns.
    fn into_result(self) -> (result: Result<WaitResult, TimeoutError>)
        ensures
            result == self.result(),
    {
        match self {
            WaitEnd::TimedOut(reason) => Ok(WaitResult::TimedOut(reason)),
            WaitEnd::MemoryLimitExceeded { limit_bytes, actual_bytes } => Ok(
                WaitResult::MemoryLimitExceeded { limit_bytes, actual_bytes },
            ),
            WaitEnd::KeventFailed(errno) => Err(
                TimeoutError::Internal(InternalError::KeventFailed(errno)),
            ),
            WaitEnd::RegistrationFailed(errno) => Err(
                TimeoutError::Internal(InternalError::RegistrationFailed(errno)),
            ),
        }
    }
}

/// What the wait does, as a function of what it knows.
impl Wait {
    /// Is `event` what came of the action last asked for?
    pub open spec fn awaits(self, event: WaitEvent) -> bool {
        match self.phase {
            WaitPhase::Starting => event is Clock,
            WaitPhase::CheckingStdin => event is StdinStat,
            WaitPhase::FirstPoll => event is Polled,
            WaitPhase::FirstActivity => event is Clock,
            WaitPhase::Opening => event is Queue,
            WaitPhase::LoopClock => event is Clock,
            WaitPhase::Waiting => event is Kernel,
            WaitPhase::Draining => event is Drained,
            WaitPhase::Activity => event is Clock,
            WaitPhase::TimerClock => event is Clock,
            WaitPhase::Throttling => event is Throttled,
            WaitPhase::Measuring => event is Memory,
            WaitPhase::Polling => event is Polled,
            WaitPhase::Beating => event is Said,
            WaitPhase::Closing(_) => event is Closed,
            WaitPhase::TryReaping => event is TryReaped,
            WaitPhase::Reaping => event is Reaped,
            WaitPhase::Collecting => event is Reaped,
            WaitPhase::ReadingSignal => event is SignalByte,
            WaitPhase::Done => false,
        }
    }

    /// A wait that has asked for the time.
    pub open spec fn begun(setup: WaitSetup, signal_fd: i32) -> Wait {
        Wait {
            phase: WaitPhase::Starting,
            pid: setup.pid,
            queue: (-1) as i32,
            wall_timeout: setup.wall_timeout,
            deadline_ns: u64::MAX,
            heartbeat: setup.heartbeat,
            next_heartbeat_ns: u64::MAX,
            stdin: setup.stdin_timeout,
            stdin_enabled: false,
            stdin_change: StdinChange::Nothing,
            throttle: setup.throttle,
            next_throttle_ns: u64::MAX,
            memory: setup.memory_limit,
            next_memory_check_ns: u64::MAX,
            signal_fd: if signal_fd >= 0 {
                Some(signal_fd)
            } else {
                None
            },
            now_ns: 0,
            confine: setup.confine,
        }
    }

    /// The wait with its deadlines set, now that it is `start`.
    pub open spec fn scheduled(self, start: u64) -> Wait {
        Wait {
            deadline_ns: match self.wall_timeout {
                Some(d) => clamp_u64(start + timer_ns(d)),
                None => u64::MAX,
            },
            next_heartbeat_ns: match self.heartbeat {
                Some(h) if h.interval_ns > 0 => clamp_u64(start + h.interval_ns),
                _ => u64::MAX,
            },
            next_throttle_ns: match self.throttle {
                Some(t) => clamp_u64(t.last_wall_ns + t.interval_ns),
                None => u64::MAX,
            },
            next_memory_check_ns: match self.memory {
                Some(m) => clamp_u64(start + m.check_interval_ns),
                None => u64::MAX,
            },
            ..self
        }
    }

    /// The wait with another thing to do.
    pub open spec fn at(self, phase: WaitPhase) -> Wait {
        Wait { phase, ..self }
    }

    /// The wait, not watching input any more; its filter is to be deleted.
    pub open spec fn without_stdin(self) -> Wait {
        Wait {
            stdin: None,
            stdin_enabled: false,
            stdin_change: StdinChange::Delete,
            ..self
        }
    }

    /// The wait, with input active at `now`.
    pub open spec fn active_at(self, now: u64) -> Wait {
        Wait {
            stdin: match self.stdin {
                Some(c) => Some(StdinTimeoutConfig { last_activity_ns: now, ..c }),
                None => None,
            },
            ..self
        }
    }

    /// Has input been idle for too long at `now`?
    pub open spec fn idle_too_long(self, now: u64) -> bool {
        self.stdin matches Some(c) && since(c.last_activity_ns, now) matches Some(idle) && idle
            >= c.timeout_ns
    }

    /// Nanoseconds from `now` until input has been idle for too long.
    pub open spec fn idle_budget(self, now: u64) -> u64 {
        match self.stdin {
            Some(c) => match idle_left(c.last_activity_ns, now, c.timeout_ns) {
                Some(left) => left,
                None => 0,
            },
            None => u64::MAX,
        }
    }

    /// Nanoseconds from `now` until there is something to do.
    pub open spec fn wake_after(self, now: u64) -> u64 {
        min_of(
            min_of(
                min_of(
                    min_of(
                        min_of(
                            left_until(now, self.deadline_ns) as int,
                            left_until(now, self.next_heartbeat_ns) as int,
                        ),
                        self.idle_budget(now) as int,
                    ),
                    left_until(now, self.next_throttle_ns) as int,
                ),
                left_until(now, self.next_memory_check_ns) as int,
            ),
            MAX_TIMER_NS as int,
        ) as u64
    }

    /// The filters to submit: always the child's exit and a timer, the signal
    /// pipe where there is one, and input while it is watched or about to be
    /// dropped.
    pub open spec fn filters(self, wake_ns: u64) -> Seq<KeventChange> {
        let signal = match self.signal_fd {
            Some(fd) => seq![read_filter(fd, EV_ADD)],
            None => Seq::empty(),
        };
        let stdin = if self.stdin_enabled || self.stdin_change is Delete {
            seq![
                read_filter(
                    0,
                    match self.stdin_change {
                        StdinChange::Nothing => 0,
                        StdinChange::Add => EV_ADD,
                        StdinChange::Delete => EV_DELETE,
                    },
                ),
            ]
        } else {
            Seq::empty()
        };
        seq![exit_filter(self.pid), timer_filter(MAIN_TIMER, wake_ns)] + signal + stdin
    }

    /// The wait is over.
    pub open spec fn over(self, result: Result<WaitResult, TimeoutError>) -> (Wait, WaitAction) {
        (self.at(WaitPhase::Done), WaitAction::Return(result))
    }

    /// The wait closes its queue before it goes on.
    pub open spec fn closing(self, then: AfterClose) -> (Wait, WaitAction) {
        (self.at(WaitPhase::Closing(then)), WaitAction::CloseQueue { queue: self.queue })
    }

    /// The wait looks at the clock and waits again.
    pub open spec fn again(self) -> (Wait, WaitAction) {
        (self.at(WaitPhase::LoopClock), WaitAction::ReadClock { confine: self.confine })
    }

    /// It is `now`: give up if time has run out, or else sleep until there is
    /// something to do.
    pub open spec fn turn(self, now: u64) -> (Wait, WaitAction) {
        if reached(now, self.deadline_ns) {
            self.closing(AfterClose::Return(WaitEnd::TimedOut(TimeoutReason::WallClock)))
        } else if self.idle_too_long(now) {
            self.closing(AfterClose::Return(WaitEnd::TimedOut(TimeoutReason::StdinIdle)))
        } else {
            (
                self.at(WaitPhase::Waiting),
                WaitAction::Submit { queue: self.queue, wake_ns: self.wake_after(now) },
            )
        }
    }

    /// Waiting on the queue failed.
    pub open spec fn after_failure(self, errno: i32) -> (Wait, WaitAction) {
        if errno == 4 {
            self.again()
        } else if errno == 3 {
            self.closing(AfterClose::TryReap)
        } else {
            self.closing(AfterClose::Return(WaitEnd::KeventFailed(errno)))
        }
    }

    /// The queue refused a filter.
    pub open spec fn after_refusal(self, event: KernelEvent) -> (Wait, WaitAction) {
        if event.error() == 9 && event.ident == 0 {
            self.without_stdin().again()
        } else if event.error() == 2 && event.ident == 0 {
            Wait { stdin_change: StdinChange::Nothing, ..self }.again()
        } else if event.error() == 3 {
            self.closing(AfterClose::TryReap)
        } else {
            self.closing(AfterClose::Return(WaitEnd::RegistrationFailed(event.error())))
        }
    }

    /// The queue reported an event.
    pub open spec fn after_event(self, event: KernelEvent) -> (Wait, WaitAction) {
        if event.filter == EVFILT_READ && event.ident == 0 && self.stdin_enabled {
            if event.hung_up() {
                self.without_stdin().again()
            } else {
                (self.at(WaitPhase::Draining), WaitAction::DrainStdin)
            }
        } else if event.filter == EVFILT_TIMER {
            (self.at(WaitPhase::TimerClock), WaitAction::ReadClock { confine: self.confine })
        } else if event.failed() {
            self.after_refusal(event)
        } else if event.filter == EVFILT_PROC {
            self.closing(AfterClose::Collect)
        } else if event.filter == EVFILT_READ && self.signal_fd is Some {
            self.closing(AfterClose::ReadSignal(self.signal_fd->0))
        } else {
            self.closing(AfterClose::Return(WaitEnd::TimedOut(TimeoutReason::WallClock)))
        }
    }

    /// The timer fired: look after the throttle.
    pub open spec fn timer_throttle(self) -> (Wait, WaitAction) {
        if self.throttle is Some && reached(self.now_ns, self.next_throttle_ns) {
            (
                self.at(WaitPhase::Throttling),
                WaitAction::UpdateThrottle { now_ns: self.now_ns },
            )
        } else {
            self.timer_memory()
        }
    }

    /// The throttle is up to date.
    pub open spec fn after_throttle(self) -> (Wait, WaitAction) {
        match self.throttle {
            Some(t) => Wait {
                next_throttle_ns: clamp_u64(self.now_ns + t.interval_ns),
                ..self
            }.timer_memory(),
            None => self.timer_memory(),
        }
    }

    /// The timer fired: look after the memory limit.
    pub open spec fn timer_memory(self) -> (Wait, WaitAction) {
        if self.memory is Some && reached(self.now_ns, self.next_memory_check_ns) {
            (self.at(WaitPhase::Measuring), WaitAction::MeasureMemory)
        } else {
            self.timer_stdin()
        }
    }

    /// The timer fired: look at input that is left for the child.
    pub open spec fn timer_stdin(self) -> (Wait, WaitAction) {
        if self.stdin matches Some(c) && c.mode is Passthrough {
            (self.at(WaitPhase::Polling), WaitAction::PollStdin)
        } else {
            self.timer_checks()
        }
    }

    /// The timer fired: see whether input is idle, a heartbeat is due, or time
    /// has run out.
    pub open spec fn timer_checks(self) -> (Wait, WaitAction) {
        if self.idle_too_long(self.now_ns) {
            self.closing(AfterClose::Return(WaitEnd::TimedOut(TimeoutReason::StdinIdle)))
        } else if reached(self.now_ns, self.deadline_ns) {
            self.closing(AfterClose::Return(WaitEnd::TimedOut(TimeoutReason::WallClock)))
        } else if self.heartbeat matches Some(h) && h.interval_ns > 0 && reached(
            self.now_ns,
            self.next_heartbeat_ns,
        ) {
            let later = Wait {
                next_heartbeat_ns: clamp_u64(self.now_ns + self.heartbeat->0.interval_ns),
                ..self
            };
            if self.heartbeat->0.quiet {
                later.again()
            } else {
                (
                    later.at(WaitPhase::Beating),
                    WaitAction::Heartbeat {
                        elapsed_ns: match since(self.heartbeat->0.start_ns, self.now_ns) {
                            Some(ns) => ns,
                            None => 0,
                        },
                        pid: self.heartbeat->0.pid,
                    },
                )
            }
        } else {
            self.again()
        }
    }

    /// The memory in use is known, or is not.
    pub open spec fn after_measure(self, bytes: Option<u64>) -> (Wait, WaitAction) {
        match self.memory {
            Some(limit) => if bytes matches Some(b) && b > limit.limit_bytes {
                self.closing(
                    AfterClose::Return(
                        WaitEnd::MemoryLimitExceeded {
                            limit_bytes: limit.limit_bytes,
                            actual_bytes: bytes->0,
                        },
                    ),
                )
            } else {
                Wait {
                    next_memory_check_ns: clamp_u64(self.now_ns + limit.check_interval_ns),
                    ..self
                }.timer_stdin()
            },
            None => self.timer_stdin(),
        }
    }

    /// The wait, after a poll of input at `now` said `result`.
    pub open spec fn polled(self, result: StdinPollResult, now: u64) -> Wait {
        match result {
            StdinPollResult::Readable => self.active_at(now),
            StdinPollResult::Eof => Wait { stdin: None, ..self },
            StdinPollResult::Idle => self,
        }
    }

    /// The deadlines are set: see to input first, then open a queue.
    pub open spec fn prepare(self) -> (Wait, WaitAction) {
        if self.stdin is Some {
            (self.at(WaitPhase::CheckingStdin), WaitAction::StatStdin)
        } else {
            self.opening()
        }
    }

    /// The wait opens its queue.
    pub open spec fn opening(self) -> (Wait, WaitAction) {
        (self.at(WaitPhase::Opening), WaitAction::OpenQueue)
    }

    /// It is known whether input is open at all.
    pub open spec fn after_stat(self, result: i32) -> (Wait, WaitAction) {
        if result < 0 {
            Wait { stdin: None, ..self }.opening()
        } else if self.stdin matches Some(c) && c.mode is Passthrough {
            (self.at(WaitPhase::FirstPoll), WaitAction::PollStdin)
        } else {
            Wait { stdin_enabled: true, stdin_change: StdinChange::Add, ..self }.opening()
        }
    }

    /// The wait, after its queue was asked for something.
    pub open spec fn submitted(self) -> Wait {
        Wait {
            stdin_change: if self.stdin_change is Delete {
                StdinChange::Nothing
            } else {
                self.stdin_change
            },
            ..self
        }
    }

    /// The child is said to be gone, but could not be collected at once.
    pub open spec fn after_gone(
        self,
        collected: Result<(RawExitStatus, ResourceUsage), SpawnError>,
    ) -> (Wait, WaitAction) {
        match collected {
            Ok((status, rusage)) => self.over(Ok(WaitResult::Exited(status, rusage))),
            Err(SpawnError::Wait(errno)) if errno == 10 => self.over(
                Ok(WaitResult::TimedOut(TimeoutReason::WallClock)),
            ),
            Err(e) => self.over(Err(TimeoutError::Internal(InternalError::WaitFailedWith(e)))),
        }
    }

    /// What the wait knows and wants after an event.
    pub open spec fn next(self, event: WaitEvent) -> (Wait, WaitAction) {
        match (self.phase, event) {
            (WaitPhase::Starting, WaitEvent::Clock(Ok(now))) => self.scheduled(now).prepare(),
            (WaitPhase::FirstActivity, WaitEvent::Clock(Ok(now))) => self.active_at(now).opening(),
            (WaitPhase::LoopClock, WaitEvent::Clock(Ok(now))) => self.turn(now),
            (WaitPhase::Activity, WaitEvent::Clock(Ok(now))) => self.active_at(now).again(),
            (WaitPhase::TimerClock, WaitEvent::Clock(Ok(now))) => Wait {
                now_ns: now,
                ..self
            }.timer_throttle(),
            (_, WaitEvent::Clock(Err(e))) => self.over(Err(e)),
            (WaitPhase::CheckingStdin, WaitEvent::StdinStat(result)) => self.after_stat(result),
            (WaitPhase::FirstPoll, WaitEvent::Polled { ready, revents }) => match poll_result(
                ready,
                revents,
            ) {
                StdinPollResult::Readable => (
                    self.at(WaitPhase::FirstActivity),
                    WaitAction::ReadClock { confine: self.confine },
                ),
                StdinPollResult::Eof => Wait { stdin: None, ..self }.opening(),
                StdinPollResult::Idle => self.opening(),
            },
            (WaitPhase::Opening, WaitEvent::Queue { fd, errno }) => if fd < 0 {
                self.over(Err(TimeoutError::Internal(InternalError::KqueueFailed(errno))))
            } else {
                Wait { queue: fd, ..self }.again()
            },
            (WaitPhase::Waiting, WaitEvent::Kernel(Err(errno))) => self.submitted().after_failure(
                errno,
            ),
            (WaitPhase::Waiting, WaitEvent::Kernel(Ok(event))) => self.submitted().after_event(
                event,
            ),
            (WaitPhase::Draining, WaitEvent::Drained(count)) => if count == 0 {
                self.without_stdin().again()
            } else if count > 0 {
                (self.at(WaitPhase::Activity), WaitAction::ReadClock { confine: self.confine })
            } else {
                self.again()
            },
            (WaitPhase::Throttling, WaitEvent::Throttled(Ok(_))) => self.after_throttle(),
            (WaitPhase::Throttling, WaitEvent::Throttled(Err(e))) => self.over(Err(e)),
            (WaitPhase::Measuring, WaitEvent::Memory(bytes)) => self.after_measure(bytes),
            (WaitPhase::Polling, WaitEvent::Polled { ready, revents }) => self.polled(
                poll_result(ready, revents),
                self.now_ns,
            ).timer_checks(),
            (WaitPhase::Beating, WaitEvent::Said) => self.again(),
            (WaitPhase::Closing(then), WaitEvent::Closed) => match then {
                AfterClose::Return(end) => self.over(end.result()),
                AfterClose::TryReap => (self.at(WaitPhase::TryReaping), WaitAction::TryReap),
                AfterClose::Collect => (self.at(WaitPhase::Collecting), WaitAction::Reap),
                AfterClose::ReadSignal(fd) => (
                    self.at(WaitPhase::ReadingSignal),
                    WaitAction::ReadSignal { fd },
                ),
            },
            (WaitPhase::TryReaping, WaitEvent::TryReaped(Ok(Some((status, rusage))))) => self.over(
                Ok(WaitResult::Exited(status, rusage)),
            ),
            (WaitPhase::TryReaping, WaitEvent::TryReaped(_)) => (
                self.at(WaitPhase::Reaping),
                WaitAction::Reap,
            ),
            (WaitPhase::Reaping, WaitEvent::Reaped(collected)) => self.after_gone(collected),
            (WaitPhase::Collecting, WaitEvent::Reaped(Ok((status, rusage)))) => self.over(
                Ok(WaitResult::Exited(status, rusage)),
            ),
            (WaitPhase::Collecting, WaitEvent::Reaped(Err(e))) => self.over(Err(wait_failure(e))),
            (WaitPhase::ReadingSignal, WaitEvent::SignalByte { count, byte }) => match pipe_signal(
                count,
                byte,
            ) {
                Some(signal) => self.over(Ok(WaitResult::ReceivedSignal(signal))),
                None => self.over(Ok(WaitResult::TimedOut(TimeoutReason::WallClock))),
            },
            _ => self.again(),
        }
    }
}

/// Waiting for the child, one action at a time.
impl Wait {
    /// Begins to wait; `signal_fd` is the read end of the signal pipe, negative
    /// if there is none.
    pub fn start(setup: WaitSetup, signal_fd: i32) -> (begun: (Wait, WaitAction))
        ensures
            begun == (
                Wait::begun(setup, signal_fd),
                WaitAction::ReadClock { confine: setup.confine },
            ),
    {
        let wait = Wait {
            phase: WaitPhase::Starting,
            pid: setup.pid,
            queue: -1,
            wall_timeout: setup.wall_timeout,
            deadline_ns: u64::MAX,
            heartbeat: setup.heartbeat,
            next_heartbeat_ns: u64::MAX,
            stdin: setup.stdin_timeout,
            stdin_enabled: false,
            stdin_change: StdinChange::Nothing,
            throttle: setup.throttle,
            next_throttle_ns: u64::MAX,
            memory: setup.memory_limit,
            next_memory_check_ns: u64::MAX,
            signal_fd: if signal_fd >= 0 {
                Some(signal_fd)
            } else {
                None
            },
            now_ns: 0,
            confine: setup.confine,
        };
        (wait, WaitAction::ReadClock { confine: setup.confine })
    }

    /// Goes on with what came of the action last asked for.
    pub fn step(self, event: WaitEvent) -> (next: (Wait, WaitAction))
        requires
            self.awaits(event),
        ensures
            next == self.next(event),
    {
        match (self.phase, event) {
            (WaitPhase::Starting, WaitEvent::Clock(Ok(now))) => {
                self.set_deadlines(now).prepare_stdin()
            },
            (WaitPhase::FirstActivity, WaitEvent::Clock(Ok(now))) => {
                self.note_activity(now).open_queue()
            },
            (WaitPhase::LoopClock, WaitEvent::Clock(Ok(now))) => self.take_turn(now),
            (WaitPhase::Activity, WaitEvent::Clock(Ok(now))) => {
                self.note_activity(now).wait_again()
            },
            (WaitPhase::TimerClock, WaitEvent::Clock(Ok(now))) => {
                Wait { now_ns: now, ..self }.tick_throttle()
            },
            (_, WaitEvent::Clock(Err(e))) => self.finish(Err(e)),
            (WaitPhase::CheckingStdin, WaitEvent::StdinStat(result)) => self.handle_stat(result),
            (WaitPhase::FirstPoll, WaitEvent::Polled { ready, revents }) => {
                match stdin_poll_status(ready, revents) {
                    StdinPollResult::Readable => (
                        self.in_phase(WaitPhase::FirstActivity),
                        WaitAction::ReadClock { confine: self.confine },
                    ),
                    StdinPollResult::Eof => Wait { stdin: None, ..self }.open_queue(),
                    StdinPollResult::Idle => self.open_queue(),
                }
            },
            (WaitPhase::Opening, WaitEvent::Queue { fd, errno }) => {
                if fd < 0 {
                    self.finish(Err(TimeoutError::Internal(InternalError::KqueueFailed(errno))))
                } else {
                    Wait { queue: fd, ..self }.wait_again()
                }
            },
            (WaitPhase::Waiting, WaitEvent::Kernel(Err(errno))) => {
                self.clear_delete().handle_failure(errno)
            },
            (WaitPhase::Waiting, WaitEvent::Kernel(Ok(event))) => {
                self.clear_delete().handle_event(event)
            },
            (WaitPhase::Draining, WaitEvent::Drained(count)) => {
                if count == 0 {
                    self.drop_stdin().wait_again()
                } else if count > 0 {
                    (
                        self.in_phase(WaitPhase::Activity),
                        WaitAction::ReadClock { confine: self.confine },
                    )
                } else {
                    self.wait_again()
                }
            },
            (WaitPhase::Throttling, WaitEvent::Throttled(Ok(_))) => self.handle_throttled(),
            (WaitPhase::Throttling, WaitEvent::Throttled(Err(e))) => self.finish(Err(e)),
            (WaitPhase::Measuring, WaitEvent::Memory(bytes)) => self.handle_measure(bytes),
            (WaitPhase::Polling, WaitEvent::Polled { ready, revents }) => {
                self.handle_poll(stdin_poll_status(ready, revents)).tick_checks()
            },
            (WaitPhase::Beating, WaitEvent::Said) => self.wait_again(),
            (WaitPhase::Closing(then), WaitEvent::Closed) => {
                match then {
                    AfterClose::Return(end) => self.finish(end.into_result()),
                    AfterClose::TryReap => (
                        self.in_phase(WaitPhase::TryReaping),
                        WaitAction::TryReap,
                    ),
                    AfterClose::Collect => (self.in_phase(WaitPhase::Collecting), WaitAction::Reap),
                    AfterClose::ReadSignal(fd) => (
                        self.in_phase(WaitPhase::ReadingSignal),
                        WaitAction::ReadSignal { fd },
                    ),
                }
            },
            (WaitPhase::TryReaping, WaitEvent::TryReaped(Ok(Some((status, rusage))))) => {
                self.finish(Ok(WaitResult::Exited(status, rusage)))
            },
            (WaitPhase::TryReaping, WaitEvent::TryReaped(_)) => (
                self.in_phase(WaitPhase::Reaping),
                WaitAction::Reap,
            ),
            (WaitPhase::Reaping, WaitEvent::Reaped(collected)) => self.handle_gone(collected),
            (WaitPhase::Collecting, WaitEvent::Reaped(Ok((status, rusage)))) => {
                self.finish(Ok(WaitResult::Exited(status, rusage)))
            },
            (WaitPhase::Collecting, WaitEvent::Reaped(Err(e))) => self.finish(Err(wait_error(e))),
            (WaitPhase::ReadingSignal, WaitEvent::SignalByte { count, byte }) => {
                match read_signal_from_pipe(count, byte) {
                    Some(signal) => self.finish(Ok(WaitResult::ReceivedSignal(signal))),
                    None => self.finish(Ok(WaitResult::TimedOut(TimeoutReason::WallClock))),
                }
            },
            _ => self.wait_again(),
        }
    }

    /// The filters to submit with a timer of `wake_ns`.
    pub fn changes(&self, wake_ns: u64) -> (changes: Vec<KeventChange>)
        ensures
            changes@ == self.filters(wake_ns),
    {
        let mut changes: Vec<KeventChange> = Vec::new();
        changes.push(watch_exit(self.pid));
        changes.push(watch_timer(MAIN_TIMER, wake_ns));
        if let Some(fd) = self.signal_fd {
            changes.push(watch_read(fd, EV_ADD));
        }
        let flags: u16 = match self.stdin_change {
            StdinChange::Nothing => 0,
            StdinChange::Add => EV_ADD,
            StdinChange::Delete => EV_DELETE,
        };
        if self.stdin_enabled || matches!(self.stdin_change, StdinChange::Delete) {
            changes.push(watch_read(0, flags));
        }
        changes
    }

    fn set_deadlines(self, start: u64) -> (wait: Wait)
        ensures
            wait == self.scheduled(start),
    {
        Wait {
            deadline_ns: match self.wall_timeout {
                Some(d) => advance_ns(start, duration_to_ns(d)),
                None => u64::MAX,
            },
            next_heartbeat_ns: match self.heartbeat {
                Some(h) if h.interval_ns > 0 => advance_ns(start, h.interval_ns),
                _ => u64::MAX,
            },
            next_throttle_ns: match self.throttle {
                Some(t) => advance_ns(t.last_wall_ns, t.interval_ns),
                None => u64::MAX,
            },
            next_memory_check_ns: match self.memory {
                Some(m) => advance_ns(start, m.check_interval_ns),
                None => u64::MAX,
            },
            ..self
        }
    }

    fn in_phase(self, phase: WaitPhase) -> (wait: Wait)
        ensures
            wait == self.at(phase),
    {
        Wait { phase, ..self }
    }

    fn drop_stdin(self) -> (wait: Wait)
        ensures
            wait == self.without_stdin(),
    {
        Wait {
            stdin: None,
            stdin_enabled: false,
            stdin_change: StdinChange::Delete,
            ..self
        }
    }

    fn note_activity(self, now: u64) -> (wait: Wait)
        ensures
            wait == self.active_at(now),
    {
        Wait {
            stdin: match self.stdin {
                Some(c) => Some(StdinTimeoutConfig { last_activity_ns: now, ..c }),
                None => None,
            },
            ..self
        }
    }

    fn is_idle_too_long(&self, now: u64) -> (yes: bool)
        ensures
            yes == self.idle_too_long(now),
    {
        match self.stdin {
            Some(c) => match elapsed_ns(c.last_activity_ns, now) {
                Some(idle) => idle >= c.timeout_ns,
                None => false,
            },
            None => false,
        }
    }

    fn next_wake_ns(&self, now: u64) -> (wake: u64)
        ensures
            wake == self.wake_after(now),
    {
        let to_stdin: u64 = match self.stdin {
            Some(c) => match time_to_idle_timeout(c.last_activity_ns, now, c.timeout_ns) {
                Some(left) => left,
                None => 0,
            },
            None => u64::MAX,
        };
        let mut wake: u64 = remaining_ns(now, self.deadline_ns);
        wake = min_u64(wake, remaining_ns(now, self.next_heartbeat_ns));
        wake = min_u64(wake, to_stdin);
        wake = min_u64(wake, remaining_ns(now, self.next_throttle_ns));
        wake = min_u64(wake, remaining_ns(now, self.next_memory_check_ns));
        min_u64(wake, MAX_TIMER_NS)
    }

    fn finish(self, result: Result<WaitResult, TimeoutError>) -> (next: (Wait, WaitAction))
        ensures
            next == self.over(result),
    {
        (self.in_phase(WaitPhase::Done), WaitAction::Return(result))
    }

    fn close_queue(self, then: AfterClose) -> (next: (Wait, WaitAction))
        ensures
            next == self.closing(then),
    {
        (self.in_phase(WaitPhase::Closing(then)), WaitAction::CloseQueue { queue: self.queue })
    }

    fn time_out(self, reason: TimeoutReason) -> (next: (Wait, WaitAction))
        ensures
            next == self.closing(AfterClose::Return(WaitEnd::TimedOut(reason))),
    {
        self.close_queue(AfterClose::Return(WaitEnd::TimedOut(reason)))
    }

    fn wait_again(self) -> (next: (Wait, WaitAction))
        ensures
            next == self.again(),
    {
        (self.in_phase(WaitPhase::LoopClock), WaitAction::ReadClock { confine: self.confine })
    }

    fn take_turn(self, now: u64) -> (next: (Wait, WaitAction))
        ensures
            next == self.turn(now),
    {
        if deadline_reached(now, self.deadline_ns) {
            self.time_out(TimeoutReason::WallClock)
        } else if self.is_idle_too_long(now) {
            self.time_out(TimeoutReason::StdinIdle)
        } else {
            let wake_ns: u64 = self.next_wake_ns(now);
            (self.in_phase(WaitPhase::Waiting), WaitAction::Submit { queue: self.queue, wake_ns })
        }
    }

    fn handle_failure(self, errno: i32) -> (next: (Wait, WaitAction))
        ensures
            next == self.after_failure(errno),
    {
        if errno == eintr() {
            self.wait_again()
        } else if errno == esrch() {
            self.close_queue(AfterClose::TryReap)
        } else {
            self.close_queue(AfterClose::Return(WaitEnd::KeventFailed(errno)))
        }
    }

    fn handle_refusal(self, event: KernelEvent) -> (next: (Wait, WaitAction))
        ensures
            next == self.after_refusal(event),
    {
        let code: i32 = event.error_number();
        if code == ebadf() && event.ident == 0 {
            self.drop_stdin().wait_again()
        } else if code == enoent() && event.ident == 0 {
            Wait { stdin_change: StdinChange::Nothing, ..self }.wait_again()
        } else if code == esrch() {
            self.close_queue(AfterClose::TryReap)
        } else {
            self.close_queue(AfterClose::Return(WaitEnd::RegistrationFailed(code)))
        }
    }

    fn handle_event(self, event: KernelEvent) -> (next: (Wait, WaitAction))
        ensures
            next == self.after_event(event),
    {
        if event.filter == EVFILT_READ && event.ident == 0 && self.stdin_enabled {
            if event.is_eof() {
                self.drop_stdin().wait_again()
            } else {
                (self.in_phase(WaitPhase::Draining), WaitAction::DrainStdin)
            }
        } else if event.filter == EVFILT_TIMER {
            (self.in_phase(WaitPhase::TimerClock), WaitAction::ReadClock { confine: self.confine })
        } else if event.is_error() {
            self.handle_refusal(event)
        } else if event.filter == EVFILT_PROC {
            self.close_queue(AfterClose::Collect)
        } else if event.filter == EVFILT_READ {
            match self.signal_fd {
                Some(fd) => self.close_queue(AfterClose::ReadSignal(fd)),
                None => self.time_out(TimeoutReason::WallClock),
            }
        } else {
            self.time_out(TimeoutReason::WallClock)
        }
    }

    fn tick_throttle(self) -> (next: (Wait, WaitAction))
        ensures
            next == self.timer_throttle(),
    {
        if self.throttle.is_some() && deadline_reached(self.now_ns, self.next_throttle_ns) {
            (
                self.in_phase(WaitPhase::Throttling),
                WaitAction::UpdateThrottle { now_ns: self.now_ns },
            )
        } else {
            self.tick_memory()
        }
    }

    fn handle_throttled(self) -> (next: (Wait, WaitAction))
        ensures
            next == self.after_throttle(),
    {
        match self.throttle {
            Some(t) => Wait {
                next_throttle_ns: advance_ns(self.now_ns, t.interval_ns),
                ..self
            }.tick_memory(),
            None => self.tick_memory(),
        }
    }

    fn tick_memory(self) -> (next: (Wait, WaitAction))
        ensures
            next == self.timer_memory(),
    {
        if self.memory.is_some() && deadline_reached(self.now_ns, self.next_memory_check_ns) {
            (self.in_phase(WaitPhase::Measuring), WaitAction::MeasureMemory)
        } else {
            self.tick_stdin()
        }
    }

    fn handle_measure(self, bytes: Option<u64>) -> (next: (Wait, WaitAction))
        ensures
            next == self.after_measure(bytes),
    {
        match self.memory {
            Some(limit) => {
                if let Some(actual_bytes) = bytes {
                    if actual_bytes > limit.limit_bytes {
                        return self.close_queue(
                            AfterClose::Return(
                                WaitEnd::MemoryLimitExceeded {
                                    limit_bytes: limit.limit_bytes,
                                    actual_bytes,
                                },
                            ),
                        );
                    }
                }
                Wait {
                    next_memory_check_ns: advance_ns(self.now_ns, limit.check_interval_ns),
                    ..self
                }.tick_stdin()
            },
            None => self.tick_stdin(),
        }
    }

    fn tick_stdin(self) -> (next: (Wait, WaitAction))
        ensures
            next == self.timer_stdin(),
    {
        if let Some(c) = self.stdin {
            if matches!(c.mode, StdinMode::Passthrough) {
                return (self.in_phase(WaitPhase::Polling), WaitAction::PollStdin);
            }
        }
        self.tick_checks()
    }

    fn handle_poll(self, result: StdinPollResult) -> (wait: Wait)
        ensures
            wait == self.polled(result, self.now_ns),
    {
        match result {
            StdinPollResult::Readable => self.note_activity(self.now_ns),
            StdinPollResult::Eof => Wait { stdin: None, ..self },
            StdinPollResult::Idle => self,
        }
    }

    fn tick_checks(self) -> (next: (Wait, WaitAction))
        ensures
            next == self.timer_checks(),
    {
        if self.is_idle_too_long(self.now_ns) {
            return self.time_out(TimeoutReason::StdinIdle);
        }
        if deadline_reached(self.now_ns, self.deadline_ns) {
            return self.time_out(TimeoutReason::WallClock);
        }
        if let Some(h) = self.heartbeat {
            if h.interval_ns > 0 && deadline_reached(self.now_ns, self.next_heartbeat_ns) {
                let later = Wait {
                    next_heartbeat_ns: advance_ns(self.now_ns, h.interval_ns),
                    ..self
                };
                if h.quiet {
                    return later.wait_again();
                }
                let elapsed_ns: u64 = match elapsed_ns(h.start_ns, self.now_ns) {
                    Some(ns) => ns,
                    None => 0,
                };
                return (
                    later.in_phase(WaitPhase::Beating),
                    WaitAction::Heartbeat { elapsed_ns, pid: h.pid },
                );
            }
        }
        self.wait_again()
    }

    fn prepare_stdin(self) -> (next: (Wait, WaitAction))
        ensures
            next == self.prepare(),
    {
        if self.stdin.is_some() {
            (self.in_phase(WaitPhase::CheckingStdin), WaitAction::StatStdin)
        } else {
            self.open_queue()
        }
    }

    fn open_queue(self) -> (next: (Wait, WaitAction))
        ensures
            next == self.opening(),
    {
        (self.in_phase(WaitPhase::Opening), WaitAction::OpenQueue)
    }

    fn handle_stat(self, result: i32) -> (next: (Wait, WaitAction))
        ensures
            next == self.after_stat(result),
    {
        if result < 0 {
            return Wait { stdin: None, ..self }.open_queue();
        }
        if let Some(c) = self.stdin {
            if matches!(c.mode, StdinMode::Passthrough) {
                return (self.in_phase(WaitPhase::FirstPoll), WaitAction::PollStdin);
            }
        }
        Wait { stdin_enabled: true, stdin_change: StdinChange::Add, ..self }.open_queue()
    }

    fn clear_delete(self) -> (wait: Wait)
        ensures
            wait == self.submitted(),
    {
        if matches!(self.stdin_change, StdinChange::Delete) {
            Wait { stdin_change: StdinChange::Nothing, ..self }
        } else {
            self
        }
    }

    fn handle_gone(
        self,
        collected: Result<(RawExitStatus, ResourceUsage), SpawnError>,
    ) -> (next: (Wait, WaitAction))
        ensures
            next == self.after_gone(collected),
    {
        match collected {
            Ok((status, rusage)) => self.finish(Ok(WaitResult::Exited(status, rusage))),
            Err(SpawnError::Wait(errno)) if errno == echild() => {
                self.finish(Ok(WaitResult::TimedOut(TimeoutReason::WallClock)))
            },
            Err(e) => {
                self.finish(Err(TimeoutError::Internal(InternalError::WaitFailedWith(e))))
            },
        }
    }
}

} // verus!
