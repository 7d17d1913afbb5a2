//! Running a command again after a timeout.

use vstd::arithmetic::power::pow;
use vstd::prelude::*;

use crate::args::Confine;
use crate::attempts::{AttemptResult, Attempts, MAX_RETRIES};
use crate::clock::{clock_or, reading_or};
use crate::command::copy_args;
use crate::config::RunConfig;
use crate::error::TimeoutError;
use crate::kqueue::{pipe_signal, read_signal_from_pipe};
use crate::notice::Notice;
use crate::outcome::RunResult;
use crate::signal::Signal;
use crate::time::{
    clamp_u64, duration_ms, elapsed_ms, millis_of, millis_since, min_of, min_u64, saturating_mul,
    Duration,
};

verus! {

/// No more than five minutes pass between attempts, however much the delay
/// grows.
pub const MAX_DELAY_MS: u64 = 300_000;

/// What a run with retries is in the middle of.
#[derive(Clone, Copy, Debug, PartialEq, Eq, Structural)]
pub enum RetryPhase {
    SayingCap,
    StartClock,
    Running,
    EndClock(RunResult),
    SayingDelay(Duration),
    Delaying,
    ReadingSignal,
    Done,
}

/// What a run with retries wants done.
#[derive(Debug)]
pub enum RetryAction {
    /// Say something.
    Say(Notice),
    /// Read the clock that counts.
    ReadClock { confine: Confine },
    /// Run [`Retry::command`] with [`Retry::args`], to the end.
    RunCommand,
    /// Do nothing for a while, or until something is in the signal pipe.
    Delay { delay: Duration, signal_fd: Option<i32> },
    /// Read one byte from the signal pipe.
    ReadSignal { fd: i32 },
    /// It is over; [`Retry::attempts`] tells of the attempts.
    Return(Result<RunResult, TimeoutError>),
}

/// What came of a [`RetryAction`].
#[derive(Debug)]
pub enum RetryEvent {
    Said,
    /// The time in nanoseconds, as [`crate::clock::precise_now_ns`] tells it of
    /// the clock asked for.
    Clock(Result<u64, TimeoutError>),
    Ran(Result<RunResult, TimeoutError>),
    /// Did all of the time pass?
    Delayed(bool),
    /// What reading the pipe returned, and the byte.
    SignalByte { count: i64, byte: u8 },
}

/// A run with retries.
#[derive(Debug)]
pub struct Retry {
    pub phase: RetryPhase,
    pub command: String,
    pub args: Vec<String>,
    /// How many attempts came before this one.
    pub attempt: u32,
    pub max_attempts: u32,
    /// When this attempt began.
    pub start_ns: u64,
    pub signal_fd: Option<i32>,
    pub attempts: Attempts,
}

/// A run with retries, with its attempts as a row.
pub struct RetryView {
    pub phase: RetryPhase,
    pub command: Seq<char>,
    pub args: Seq<String>,
    pub attempt: u32,
    pub max_attempts: u32,
    pub start_ns: u64,
    pub signal_fd: Option<i32>,
    pub history: Seq<AttemptResult>,
}

impl View for Retry {
    type V = RetryView;

    open spec fn view(&self) -> RetryView {
        RetryView {
            phase: self.phase,
            command: self.command@,
            args: self.args@,
            attempt: self.attempt,
            max_attempts: self.max_attempts,
            start_ns: self.start_ns,
            signal_fd: self.signal_fd,
            history: self.attempts@,
        }
    }
}

/// How many attempts there are at most: one more than the retries asked for,
/// as far as there is room.
pub open spec fn attempt_limit(config: RunConfig) -> u32 {
    (min_of(config.retry_count as int, MAX_RETRIES - 1) + 1) as u32
}

/// How long to wait after an attempt, the first being number zero: the delay
/// grows by the backoff each time, but not beyond five minutes.
pub open spec fn delay_after(config: RunConfig, attempt: u32) -> Duration {
    if config.retry_backoff > 1 {
        Duration::of_ns(
            (min_of(
                millis_of(config.retry_delay) * pow(config.retry_backoff as int, attempt as nat),
                MAX_DELAY_MS as int,
            ) * 1_000_000) as nat,
        )
    } else {
        config.retry_delay
    }
}

/// What an attempt came to.
pub open spec fn attempt_of(result: RunResult, elapsed_ms: u64) -> AttemptResult {
    match result {
        RunResult::Completed { status, .. } => AttemptResult {
            status: "completed",
            exit_code: status.exit_code(),
            elapsed_ms,
        },
        RunResult::SignalForwarded { .. } => AttemptResult {
            status: "signal",
            exit_code: None,
            elapsed_ms,
        },
        _ => AttemptResult { status: "timeout", exit_code: None, elapsed_ms },
    }
}

/// Did the attempt run out of something?
pub open spec fn ran_out(result: RunResult) -> bool {
    result is TimedOut || result is MemoryLimitExceeded
}

/// What a run with retries does, as a function of what it knows.
impl RetryView {
    /// Is `event` what came of the action last asked for?
    pub open spec fn awaits(self, event: RetryEvent) -> bool {
        match self.phase {
            RetryPhase::SayingCap => event is Said,
            RetryPhase::StartClock => event is Clock,
            RetryPhase::Running => event is Ran,
            RetryPhase::EndClock(_) => event is Clock,
            RetryPhase::SayingDelay(_) => event is Said,
            RetryPhase::Delaying => event is Delayed,
            RetryPhase::ReadingSignal => event is SignalByte,
            RetryPhase::Done => false,
        }
    }

    /// Is there another attempt to come, and room for its result?
    pub open spec fn in_order(self) -> bool {
        &&& self.attempt < self.max_attempts <= MAX_RETRIES
        &&& self.history.len() <= self.attempt + 1
        &&& self.phase is SayingDelay || self.phase is Delaying ==> self.attempt + 1
            < self.max_attempts && self.history.len() == self.attempt + 1
        &&& self.phase is SayingCap || self.phase is StartClock || self.phase is Running
            || self.phase is EndClock ==> self.history.len() == self.attempt
    }

    /// A run that has done nothing yet.
    pub open spec fn begun(
        command: Seq<char>,
        args: Seq<String>,
        config: RunConfig,
        signal_fd: i32,
    ) -> RetryView {
        RetryView {
            phase: if config.loud() && config.retry_count > MAX_RETRIES - 1 {
                RetryPhase::SayingCap
            } else {
                RetryPhase::StartClock
            },
            command,
            args,
            attempt: 0,
            max_attempts: attempt_limit(config),
            start_ns: 0,
            signal_fd: if signal_fd >= 0 {
                Some(signal_fd)
            } else {
                None
            },
            history: Seq::empty(),
        }
    }

    /// What a run wants first: to say that it cannot do all that was asked for, or
    /// the time.
    pub open spec fn first_action(config: RunConfig) -> RetryAction {
        if config.loud() && config.retry_count > MAX_RETRIES - 1 {
            RetryAction::Say(
                Notice::RetryCapped {
                    asked: config.retry_count,
                    maximum: (MAX_RETRIES - 1) as u32,
                },
            )
        } else {
            RetryAction::ReadClock { confine: config.confine }
        }
    }

    /// The run with another thing to do.
    pub open spec fn at(self, phase: RetryPhase) -> RetryView {
        RetryView { phase, ..self }
    }

    /// It is over.
    pub open spec fn over(self, result: Result<RunResult, TimeoutError>) -> (
        RetryView,
        RetryAction,
    ) {
        (self.at(RetryPhase::Done), RetryAction::Return(result))
    }

    /// The next attempt begins.
    pub open spec fn next_attempt(self, config: RunConfig) -> (RetryView, RetryAction) {
        (
            RetryView {
                phase: RetryPhase::StartClock,
                attempt: (self.attempt + 1) as u32,
                ..self
            },
            RetryAction::ReadClock { confine: config.confine },
        )
    }

    /// Some time is to pass before the next attempt.
    pub open spec fn pausing(self, delay: Duration, config: RunConfig) -> (RetryView, RetryAction) {
        if delay.total_ns() == 0 {
            self.next_attempt(config)
        } else {
            (
                self.at(RetryPhase::Delaying),
                RetryAction::Delay { delay, signal_fd: self.signal_fd },
            )
        }
    }

    /// An attempt is over. One that ran out of something is followed by another,
    /// if there is one left; any other is the last.
    pub open spec fn after_attempt(self, result: RunResult, elapsed_ms: u64, config: RunConfig) -> (
        RetryView,
        RetryAction,
    ) {
        let noted = RetryView {
            history: self.history.push(attempt_of(result, elapsed_ms)),
            ..self
        };
        if !ran_out(result) || self.attempt + 1 >= self.max_attempts {
            noted.over(Ok(result))
        } else {
            let delay = delay_after(config, self.attempt);
            if config.loud() {
                (
                    noted.at(RetryPhase::SayingDelay(delay)),
                    RetryAction::Say(
                        Notice::RetryDelay {
                            attempt: (self.attempt + 1) as u32,
                            delay_ms: millis_of(delay),
                        },
                    ),
                )
            } else {
                noted.pausing(delay, config)
            }
        }
    }

    /// A signal came while no attempt was running: there are no more.
    pub open spec fn interrupted(self, signal: Signal) -> (RetryView, RetryAction) {
        self.over(Ok(RunResult::SignalForwarded { signal, status: None, rusage: None }))
    }

    /// What the run knows and wants after an event.
    pub open spec fn next(self, event: RetryEvent, config: RunConfig) -> (RetryView, RetryAction) {
        match (self.phase, event) {
            (RetryPhase::SayingCap, RetryEvent::Said) => (
                self.at(RetryPhase::StartClock),
                RetryAction::ReadClock { confine: config.confine },
            ),
            (RetryPhase::StartClock, RetryEvent::Clock(reading)) => (
                RetryView {
                    phase: RetryPhase::Running,
                    start_ns: clock_or(reading, 0),
                    ..self
                },
                RetryAction::RunCommand,
            ),
            (RetryPhase::Running, RetryEvent::Ran(Ok(result))) => (
                self.at(RetryPhase::EndClock(result)),
                RetryAction::ReadClock { confine: config.confine },
            ),
            (RetryPhase::Running, RetryEvent::Ran(Err(e))) => self.over(Err(e)),
            (RetryPhase::EndClock(result), RetryEvent::Clock(reading)) => self.after_attempt(
                result,
                millis_since(self.start_ns, clock_or(reading, self.start_ns)),
                config,
            ),
            (RetryPhase::SayingDelay(delay), RetryEvent::Said) => self.pausing(delay, config),
            (RetryPhase::Delaying, RetryEvent::Delayed(true)) => self.next_attempt(config),
            (RetryPhase::Delaying, RetryEvent::Delayed(false)) => match self.signal_fd {
                Some(fd) => (self.at(RetryPhase::ReadingSignal), RetryAction::ReadSignal { fd }),
                None => self.interrupted(Signal::SIGTERM),
            },
            (RetryPhase::ReadingSignal, RetryEvent::SignalByte { count, byte }) => match pipe_signal(
                count,
                byte,
            ) {
                Some(signal) => self.interrupted(signal),
                None => self.interrupted(Signal::SIGTERM),
            },
            _ => (self, RetryAction::ReadClock { confine: config.confine }),
        }
    }
}

/// `base` to the power of `exponent`, cut off at the largest `u64`.
fn saturating_pow(base: u64, exponent: u32) -> (p: u64)
    requires
        base > 0,
    ensures
        p == clamp_u64(pow(base as int, exponent as nat)),
{
    let mut p: u64 = 1;
    let mut i: u32 = 0;
    proof {
        reveal(pow);
    }
    while i < exponent
        invariant
            i <= exponent,
            base > 0,
            p == clamp_u64(pow(base as int, i as nat)),
            pow(base as int, i as nat) >= 1,
        decreases exponent - i,
    {
        let ghost exact = pow(base as int, i as nat);
        proof {
            reveal(pow);
            assert(pow(base as int, (i + 1) as nat) == base * exact);
            assert(base * exact >= exact && base * exact == exact * base) by (nonlinear_arith)
                requires
                    base >= 1,
                    exact >= 1,
            ;
            assert(exact > u64::MAX ==> u64::MAX * base >= u64::MAX) by (nonlinear_arith)
                requires
                    base >= 1,
            ;
        }
        p = saturating_mul(p, base);
        i += 1;
    }
    p
}

/// How long to wait after an attempt.
pub fn retry_delay(config: &RunConfig, attempt: u32) -> (delay: Duration)
    ensures
        delay == delay_after(*config, attempt),
{
    if config.retry_backoff > 1 {
        let multiplier: u64 = saturating_pow(config.retry_backoff as u64, attempt);
        let delay_ms: u64 = duration_ms(config.retry_delay);
        let total_ms: u64 = min_u64(saturating_mul(delay_ms, multiplier), MAX_DELAY_MS);
        proof {
            let exact = pow(config.retry_backoff as int, attempt as nat);
            vstd::arithmetic::power::lemma_pow_positive(config.retry_backoff as int, attempt as nat);
            assert(delay_ms * exact >= 0) by (nonlinear_arith)
                requires
                    delay_ms >= 0,
                    exact >= 0,
            ;
            if exact > u64::MAX {
                assert(multiplier == u64::MAX);
                assert(delay_ms > 0 ==> delay_ms * exact > u64::MAX && delay_ms * u64::MAX
                    >= u64::MAX) by (nonlinear_arith)
                    requires
                        exact > u64::MAX,
                        delay_ms >= 0,
                ;
                assert(delay_ms == 0 ==> delay_ms * exact == 0 && delay_ms * u64::MAX == 0)
                    by (nonlinear_arith);
            }
            assert(total_ms == min_of(delay_ms * exact, MAX_DELAY_MS as int));
        }
        Duration::from_millis(total_ms)
    } else {
        config.retry_delay
    }
}

/// What an attempt came to.
fn note_attempt(result: &RunResult, elapsed_ms: u64) -> (attempt: AttemptResult)
    ensures
        attempt == attempt_of(*result, elapsed_ms),
{
    match result {
        RunResult::Completed { status, .. } => AttemptResult {
            status: "completed",
            exit_code: status.code(),
            elapsed_ms,
        },
        RunResult::SignalForwarded { .. } => AttemptResult {
            status: "signal",
            exit_code: None,
            elapsed_ms,
        },
        _ => AttemptResult { status: "timeout", exit_code: None, elapsed_ms },
    }
}

/// Begins to run `command` with retries; `signal_fd` is the read end of the
/// signal pipe, negative if there is none.
pub fn run_with_retry(
    command: &str,
    args: &[String],
    config: &RunConfig,
    signal_fd: i32,
) -> (begun: (Retry, RetryAction))
    ensures
        begun.0@ == RetryView::begun(command@, args@, *config, signal_fd),
        begun.0@.in_order(),
        begun.1 == RetryView::first_action(*config),
        begun.1 == (if config.loud() && config.retry_count > MAX_RETRIES - 1 {
            RetryAction::Say(
                Notice::RetryCapped {
                    asked: config.retry_count,
                    maximum: (MAX_RETRIES - 1) as u32,
                },
            )
        } else {
            RetryAction::ReadClock { confine: config.confine }
        }),
{
    let maximum: u32 = MAX_RETRIES as u32 - 1;
    let capped: u32 = if config.retry_count <= maximum {
        config.retry_count
    } else {
        maximum
    };
    let cap: bool = config.is_loud() && config.retry_count > capped;
    let retry = Retry {
        phase: if cap {
            RetryPhase::SayingCap
        } else {
            RetryPhase::StartClock
        },
        command: command.to_owned(),
        args: copy_args(args),
        attempt: 0,
        max_attempts: capped + 1,
        start_ns: 0,
        signal_fd: if signal_fd >= 0 {
            Some(signal_fd)
        } else {
            None
        },
        attempts: Attempts::new(),
    };
    if cap {
        let notice = Notice::RetryCapped { asked: config.retry_count, maximum };
        (retry, RetryAction::Say(notice))
    } else {
        (retry, RetryAction::ReadClock { confine: config.confine })
    }
}

/// Running with retries, one action at a time.
impl Retry {
    /// Goes on with what came of the action last asked for.
    pub fn step(self, event: RetryEvent, config: &RunConfig) -> (next: (Retry, RetryAction))
        requires
            self@.awaits(event),
            self@.in_order(),
        ensures
            next.0@ == self@.next(event, *config).0,
            next.1 == self@.next(event, *config).1,
            next.0@.in_order(),
    {
        match (self.phase, event) {
            (RetryPhase::SayingCap, RetryEvent::Said) => (
                self.in_phase(RetryPhase::StartClock),
                RetryAction::ReadClock { confine: config.confine },
            ),
            (RetryPhase::StartClock, RetryEvent::Clock(reading)) => {
                let start_ns: u64 = reading_or(reading, 0);
                (
                    Retry { phase: RetryPhase::Running, start_ns, ..self },
                    RetryAction::RunCommand,
                )
            },
            (RetryPhase::Running, RetryEvent::Ran(Ok(result))) => (
                self.in_phase(RetryPhase::EndClock(result)),
                RetryAction::ReadClock { confine: config.confine },
            ),
            (RetryPhase::Running, RetryEvent::Ran(Err(e))) => self.finish(Err(e)),
            (RetryPhase::EndClock(result), RetryEvent::Clock(reading)) => {
                let elapsed: u64 = elapsed_ms(self.start_ns, reading_or(reading, self.start_ns));
                self.handle_attempt(result, elapsed, config)
            },
            (RetryPhase::SayingDelay(delay), RetryEvent::Said) => self.pause(delay, config),
            (RetryPhase::Delaying, RetryEvent::Delayed(elapsed)) => {
                if elapsed {
                    self.begin_next(config)
                } else {
                    match self.signal_fd {
                        Some(fd) => (
                            self.in_phase(RetryPhase::ReadingSignal),
                            RetryAction::ReadSignal { fd },
                        ),
                        None => self.interrupt(Signal::SIGTERM),
                    }
                }
            },
            (RetryPhase::ReadingSignal, RetryEvent::SignalByte { count, byte }) => {
                match read_signal_from_pipe(count, byte) {
                    Some(signal) => self.interrupt(signal),
                    None => self.interrupt(Signal::SIGTERM),
                }
            },
            _ => (self, RetryAction::ReadClock { confine: config.confine }),
        }
    }

    fn in_phase(self, phase: RetryPhase) -> (retry: Retry)
        ensures
            retry@ == self@.at(phase),
    {
        Retry { phase, ..self }
    }

    fn finish(self, result: Result<RunResult, TimeoutError>) -> (next: (Retry, RetryAction))
        ensures
            next.0@ == self@.over(result).0,
            next.1 == self@.over(result).1,
    {
        (self.in_phase(RetryPhase::Done), RetryAction::Return(result))
    }

    fn interrupt(self, signal: Signal) -> (next: (Retry, RetryAction))
        ensures
            next.0@ == self@.interrupted(signal).0,
            next.1 == self@.interrupted(signal).1,
    {
        self.finish(Ok(RunResult::SignalForwarded { signal, status: None, rusage: None }))
    }

    fn begin_next(self, config: &RunConfig) -> (next: (Retry, RetryAction))
        requires
            self.attempt < u32::MAX,
        ensures
            next.0@ == self@.next_attempt(*config).0,
            next.1 == self@.next_attempt(*config).1,
    {
        let attempt: u32 = self.attempt + 1;
        (
            Retry { phase: RetryPhase::StartClock, attempt, ..self },
            RetryAction::ReadClock { confine: config.confine },
        )
    }

    fn pause(self, delay: Duration, config: &RunConfig) -> (next: (Retry, RetryAction))
        requires
            self.attempt < u32::MAX,
        ensures
            next.0@ == self@.pausing(delay, *config).0,
            next.1 == self@.pausing(delay, *config).1,
    {
        if delay.is_zero() {
            self.begin_next(config)
        } else {
            let signal_fd: Option<i32> = self.signal_fd;
            (self.in_phase(RetryPhase::Delaying), RetryAction::Delay { delay, signal_fd })
        }
    }

    fn handle_attempt(self, result: RunResult, elapsed_ms: u64, config: &RunConfig) -> (next: (
        Retry,
        RetryAction,
    ))
        requires
            self@.in_order(),
            self@.history.len() == self.attempt,
        ensures
            next.0@ == self@.after_attempt(result, elapsed_ms, *config).0,
            next.1 == self@.after_attempt(result, elapsed_ms, *config).1,
    {
        let Retry {
            phase,
            command,
            args,
            attempt,
            max_attempts,
            start_ns,
            signal_fd,
            attempts,
        } = self;
        let mut attempts: Attempts = attempts;
        attempts.push(note_attempt(&result, elapsed_ms));
        let noted = Retry {
            phase,
            command,
            args,
            attempt,
            max_attempts,
            start_ns,
            signal_fd,
            attempts,
        };
        let again: bool = match result {
            RunResult::TimedOut { .. } | RunResult::MemoryLimitExceeded { .. } => true,
            _ => false,
        };
        if !again || attempt + 1 >= max_attempts {
            return noted.finish(Ok(result));
        }
        let delay: Duration = retry_delay(config, attempt);
        if config.is_loud() {
            let notice = Notice::RetryDelay { attempt: attempt + 1, delay_ms: duration_ms(delay) };
            (noted.in_phase(RetryPhase::SayingDelay(delay)), RetryAction::Say(notice))
        } else {
            noted.pause(delay, config)
        }
    }
}

} // verus!
