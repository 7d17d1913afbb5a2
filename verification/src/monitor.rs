//! Watching over a running command until it has ended.
//!
//! A [`Monitor`] decides what to do about a running command: when to run the
//! hook, what to send the command and when to kill it. It says what to do next
//! ([`MonitorAction`]); whoever does it hands back what came of it
//! ([`MonitorEvent`]), until the monitor returns.

use vstd::prelude::*;

use crate::args::Confine;
use crate::config::RunConfig;
use crate::error::{SpawnError, TimeoutError};
use crate::notice::Notice;
use crate::outcome::{HookResult, RunResult, TimeoutReason};
use crate::process::{RawExitStatus, ResourceUsage};
use crate::signal::Signal;
use crate::time::{duration_to_ns, is_no_timeout, timer_ns, Duration};
use crate::wait::{
    wait_error, wait_failure, HeartbeatConfig, MemoryLimitConfig, StdinMode, StdinTimeoutConfig,
    ThrottleTiming, WaitResult, WaitSetup,
};

verus! {

/// Why the command is stopped.
#[derive(Clone, Copy, Debug, PartialEq, Eq, Structural)]
pub enum Cause {
    /// It ran out of time; what became of the hook.
    Timeout { reason: TimeoutReason, hook: Option<HookResult> },
    /// It uses too much memory.
    Memory { limit_bytes: u64, actual_bytes: u64 },
}

/// What a signal to the command is for.
#[derive(Clone, Copy, Debug, PartialEq, Eq, Structural)]
pub enum Purpose {
    /// It is passed on.
    Forward(Signal),
    /// It tells the command to stop.
    Stop(Cause),
    /// It kills the command, which did not stop.
    Kill(Cause),
}

/// What a monitor is in the middle of.
#[derive(Clone, Copy, Debug, PartialEq, Eq, Structural)]
pub enum MonitorPhase {
    Starting,
    StartingThrottle,
    SayingNoThrottle,
    Waiting,
    SayingReason(TimeoutReason),
    Hooking(TimeoutReason),
    Saying(Purpose),
    Resuming(Purpose),
    Sending(Purpose),
    Grace(Cause),
    Reaping(Purpose),
    Marking(RunResult),
    Done,
}

/// What a monitor wants done.
#[derive(Debug)]
pub enum MonitorAction {
    /// Read the clock that counts.
    ReadClock { confine: Confine },
    /// Begin to watch the command's processor time.
    StartThrottle { pid: i32, start_ns: u64 },
    /// Say something.
    Say(Notice),
    /// Wait for the command, to the end.
    Wait(WaitSetup),
    /// Run the hook, to the end.
    RunHook { pid: i32, hook: String },
    /// Let the command go on, if it is stopped.
    Resume,
    /// Send the command a signal.
    Send { pid: i32, signal: Signal, foreground: bool },
    /// Collect the command.
    Reap,
    /// Note that the command has ended, so that it is not sent anything more.
    MarkExited,
    /// It is over.
    Return(Result<RunResult, TimeoutError>),
}

/// What came of a [`MonitorAction`].
#[derive(Debug)]
pub enum MonitorEvent {
    /// The time in nanoseconds, as [`crate::clock::precise_now_ns`] tells it of
    /// the clock asked for.
    Clock(Result<u64, TimeoutError>),
    /// Can the command's processor time be watched?
    ThrottleStarted(Result<(), TimeoutError>),
    Said,
    Waited(Result<WaitResult, TimeoutError>),
    HookRan(HookResult),
    Resumed,
    Sent(Result<(), TimeoutError>),
    Reaped(Result<(RawExitStatus, ResourceUsage), SpawnError>),
    Marked,
}

/// A running command that is watched.
#[derive(Clone, Copy, Debug, PartialEq, Eq, Structural)]
pub struct Monitor {
    pub phase: MonitorPhase,
    pub pid: i32,
    /// When the command was first watched.
    pub start_ns: u64,
    /// Is the command's processor time watched?
    pub throttle: Option<ThrottleTiming>,
}

/// The memory is looked at every 100 milliseconds.
pub const MEMORY_POLL_NS: u64 = 100_000_000;

impl Cause {
    /// The outcome of a command that was stopped for this cause.
    pub open spec fn outcome(
        self,
        signal: Signal,
        killed: bool,
        status: RawExitStatus,
        rusage: ResourceUsage,
    ) -> RunResult {
        match self {
            Cause::Timeout { reason, hook } => RunResult::TimedOut {
                signal,
                killed,
                status: Some(status),
                rusage: Some(rusage),
                hook,
                reason,
            },
            Cause::Memory { limit_bytes, actual_bytes } => RunResult::MemoryLimitExceeded {
                signal,
                killed,
                status: Some(status),
                rusage: Some(rusage),
                limit_bytes,
                actual_bytes,
            },
        }
    }

    /// The outcome of a command that was stopped for this cause.
    fn into_outcome(
        self,
        signal: Signal,
        killed: bool,
        status: RawExitStatus,
        rusage: ResourceUsage,
    ) -> (result: RunResult)
        ensures
            result == self.outcome(signal, killed, status, rusage),
    {
        match self {
            Cause::Timeout { reason, hook } => RunResult::TimedOut {
                signal,
                killed,
                status: Some(status),
                rusage: Some(rusage),
                hook,
                reason,
            },
            Cause::Memory { limit_bytes, actual_bytes } => RunResult::MemoryLimitExceeded {
                signal,
                killed,
                status: Some(status),
                rusage: Some(rusage),
                limit_bytes,
                actual_bytes,
            },
        }
    }
}

impl Purpose {
    /// The signal that serves the purpose.
    pub open spec fn sends(self, config: RunConfig) -> Signal {
        match self {
            Purpose::Forward(signal) => signal,
            Purpose::Stop(_) => config.signal,
            Purpose::Kill(_) => Signal::SIGKILL,
        }
    }

    /// What is said about it.
    pub open spec fn announcement(self, config: RunConfig) -> Option<Notice> {
        match self {
            Purpose::Forward(signal) => Some(Notice::Forwarding(signal)),
            Purpose::Stop(Cause::Timeout { .. }) => Some(Notice::Sending(config.signal)),
            Purpose::Stop(Cause::Memory { limit_bytes, actual_bytes }) => Some(
                Notice::MemoryExceeded { actual_bytes, limit_bytes },
            ),
            Purpose::Kill(Cause::Timeout { .. }) => Some(Notice::Sending(Signal::SIGKILL)),
            Purpose::Kill(Cause::Memory { .. }) => None,
        }
    }

    /// The signal that serves the purpose.
    fn signal(self, config: &RunConfig) -> (signal: Signal)
        ensures
            signal == self.sends(*config),
    {
        match self {
            Purpose::Forward(signal) => signal,
            Purpose::Stop(_) => config.signal,
            Purpose::Kill(_) => Signal::SIGKILL,
        }
    }

    /// What is said about it.
    fn notice(self, config: &RunConfig) -> (notice: Option<Notice>)
        ensures
            notice == self.announcement(*config),
    {
        match self {
            Purpose::Forward(signal) => Some(Notice::Forwarding(signal)),
            Purpose::Stop(Cause::Timeout { .. }) => Some(Notice::Sending(config.signal)),
            Purpose::Stop(Cause::Memory { limit_bytes, actual_bytes }) => Some(
                Notice::MemoryExceeded { actual_bytes, limit_bytes },
            ),
            Purpose::Kill(Cause::Timeout { .. }) => Some(Notice::Sending(Signal::SIGKILL)),
            Purpose::Kill(Cause::Memory { .. }) => None,
        }
    }
}

/// The wait for a command that was told to stop: nothing but its exit, a
/// signal to pass on and the end of the grace period counts.
pub open spec fn grace_setup(pid: i32, grace: Duration, confine: Confine) -> WaitSetup {
    WaitSetup {
        pid,
        wall_timeout: Some(grace),
        heartbeat: None,
        stdin_timeout: None,
        throttle: None,
        memory_limit: None,
        confine,
    }
}

/// What the monitor does, as a function of what it knows.
impl Monitor {
    /// Is `event` what came of the action last asked for?
    pub open spec fn awaits(self, event: MonitorEvent) -> bool {
        match self.phase {
            MonitorPhase::Starting => event is Clock,
            MonitorPhase::StartingThrottle => event is ThrottleStarted,
            MonitorPhase::SayingNoThrottle => event is Said,
            MonitorPhase::Waiting => event is Waited,
            MonitorPhase::SayingReason(_) => event is Said,
            MonitorPhase::Hooking(_) => event is HookRan,
            MonitorPhase::Saying(_) => event is Said,
            MonitorPhase::Resuming(_) => event is Resumed,
            MonitorPhase::Sending(_) => event is Sent,
            MonitorPhase::Grace(_) => event is Waited,
            MonitorPhase::Reaping(_) => event is Reaped,
            MonitorPhase::Marking(_) => event is Marked,
            MonitorPhase::Done => false,
        }
    }

    /// A monitor that has asked for the time.
    pub open spec fn begun(pid: i32) -> Monitor {
        Monitor { phase: MonitorPhase::Starting, pid, start_ns: 0, throttle: None }
    }

    /// The monitor with another thing to do.
    pub open spec fn at(self, phase: MonitorPhase) -> Monitor {
        Monitor { phase, ..self }
    }

    /// It is over.
    pub open spec fn over(self, result: Result<RunResult, TimeoutError>) -> (
        Monitor,
        MonitorAction,
    ) {
        (self.at(MonitorPhase::Done), MonitorAction::Return(result))
    }

    /// The wait for a command that runs: all that is configured counts. A time
    /// limit of zero is none.
    pub open spec fn main_setup(self, config: RunConfig) -> WaitSetup {
        WaitSetup {
            pid: self.pid,
            wall_timeout: if config.timeout.total_ns() == 0 {
                None
            } else {
                Some(config.timeout)
            },
            heartbeat: match config.heartbeat {
                Some(interval) => Some(
                    HeartbeatConfig {
                        interval_ns: timer_ns(interval),
                        quiet: config.quiet,
                        pid: self.pid,
                        start_ns: self.start_ns,
                    },
                ),
                None => None,
            },
            stdin_timeout: match config.stdin_timeout {
                Some(d) => Some(
                    StdinTimeoutConfig {
                        timeout_ns: timer_ns(d),
                        last_activity_ns: self.start_ns,
                        mode: if config.stdin_passthrough {
                            StdinMode::Passthrough
                        } else {
                            StdinMode::Consume
                        },
                    },
                ),
                None => None,
            },
            throttle: self.throttle,
            memory_limit: match config.limits.mem_bytes {
                Some(limit_bytes) => Some(
                    MemoryLimitConfig { limit_bytes, check_interval_ns: MEMORY_POLL_NS },
                ),
                None => None,
            },
            confine: config.confine,
        }
    }

    /// The monitor waits for the command.
    pub open spec fn watching(self, config: RunConfig) -> (Monitor, MonitorAction) {
        (self.at(MonitorPhase::Waiting), MonitorAction::Wait(self.main_setup(config)))
    }

    /// The clock was read: see to the processor time first.
    pub open spec fn after_start(self, now: u64, config: RunConfig) -> (Monitor, MonitorAction) {
        let started = Monitor { start_ns: now, ..self };
        if config.cpu_throttle is Some {
            (
                started.at(MonitorPhase::StartingThrottle),
                MonitorAction::StartThrottle { pid: self.pid, start_ns: now },
            )
        } else {
            started.watching(config)
        }
    }

    /// The processor time can be watched, or cannot: then the command runs on
    /// without.
    pub open spec fn after_throttle(
        self,
        started: Result<(), TimeoutError>,
        config: RunConfig,
    ) -> (Monitor, MonitorAction) {
        match started {
            Ok(_) => Monitor {
                throttle: match config.cpu_throttle {
                    Some(cfg) => Some(
                        ThrottleTiming {
                            interval_ns: cfg.interval_ns,
                            last_wall_ns: self.start_ns,
                        },
                    ),
                    None => None,
                },
                ..self
            }.watching(config),
            Err(e) => if config.quiet {
                self.watching(config)
            } else {
                (
                    self.at(MonitorPhase::SayingNoThrottle),
                    MonitorAction::Say(Notice::ThrottleDisabled(e)),
                )
            },
        }
    }

    /// The command is sent a signal: it is announced, the command is let go on
    /// if it may be stopped, and then the signal goes out.
    pub open spec fn announce(self, purpose: Purpose, config: RunConfig) -> (
        Monitor,
        MonitorAction,
    ) {
        if config.loud() && purpose.announcement(config) is Some {
            (
                self.at(MonitorPhase::Saying(purpose)),
                MonitorAction::Say(purpose.announcement(config)->0),
            )
        } else {
            self.let_go(purpose, config)
        }
    }

    /// The command is let go on, if it may be stopped.
    pub open spec fn let_go(self, purpose: Purpose, config: RunConfig) -> (
        Monitor,
        MonitorAction,
    ) {
        if self.throttle is Some {
            (self.at(MonitorPhase::Resuming(purpose)), MonitorAction::Resume)
        } else {
            self.sending(purpose, config)
        }
    }

    /// The signal goes out.
    pub open spec fn sending(self, purpose: Purpose, config: RunConfig) -> (
        Monitor,
        MonitorAction,
    ) {
        (
            self.at(MonitorPhase::Sending(purpose)),
            MonitorAction::Send {
                pid: self.pid,
                signal: purpose.sends(config),
                foreground: config.foreground,
            },
        )
    }

    /// The signal has gone out.
    pub open spec fn after_send(self, purpose: Purpose, config: RunConfig) -> (
        Monitor,
        MonitorAction,
    ) {
        match purpose {
            Purpose::Stop(cause) => match config.kill_after {
                Some(grace) => (
                    self.at(MonitorPhase::Grace(cause)),
                    MonitorAction::Wait(grace_setup(self.pid, grace, config.confine)),
                ),
                None => (self.at(MonitorPhase::Reaping(purpose)), MonitorAction::Reap),
            },
            _ => (self.at(MonitorPhase::Reaping(purpose)), MonitorAction::Reap),
        }
    }

    /// The command has ended.
    pub open spec fn ended(self, result: RunResult) -> (Monitor, MonitorAction) {
        if self.throttle is Some {
            (self.at(MonitorPhase::Marking(result)), MonitorAction::MarkExited)
        } else {
            self.over(Ok(result))
        }
    }

    /// The time is up: say why, run the hook, then stop the command.
    pub open spec fn timed_out(self, reason: TimeoutReason, config: RunConfig) -> (
        Monitor,
        MonitorAction,
    ) {
        if config.loud() {
            (
                self.at(MonitorPhase::SayingReason(reason)),
                MonitorAction::Say(Notice::Triggered(reason)),
            )
        } else {
            self.hook_or_stop(reason, config)
        }
    }

    /// The hook runs, if there is one.
    pub open spec fn hook_or_stop(self, reason: TimeoutReason, config: RunConfig) -> (
        Monitor,
        MonitorAction,
    ) {
        match config.on_timeout {
            Some(hook) => (
                self.at(MonitorPhase::Hooking(reason)),
                MonitorAction::RunHook { pid: self.pid, hook },
            ),
            None => self.announce(
                Purpose::Stop(Cause::Timeout { reason, hook: None }),
                config,
            ),
        }
    }

    /// The wait for the running command is over.
    pub open spec fn after_wait(self, result: WaitResult, config: RunConfig) -> (
        Monitor,
        MonitorAction,
    ) {
        match result {
            WaitResult::Exited(status, rusage) => self.ended(
                RunResult::Completed { status, rusage },
            ),
            WaitResult::ReceivedSignal(signal) => self.announce(Purpose::Forward(signal), config),
            WaitResult::MemoryLimitExceeded { limit_bytes, actual_bytes } => self.announce(
                Purpose::Stop(Cause::Memory { limit_bytes, actual_bytes }),
                config,
            ),
            WaitResult::TimedOut(reason) => self.timed_out(reason, config),
        }
    }

    /// The wait for a command that was told to stop is over: if it has not
    /// stopped it is killed, unless another signal is to be passed on.
    pub open spec fn after_grace(self, cause: Cause, result: WaitResult, config: RunConfig) -> (
        Monitor,
        MonitorAction,
    ) {
        match result {
            WaitResult::Exited(status, rusage) => self.ended(
                cause.outcome(config.signal, false, status, rusage),
            ),
            WaitResult::ReceivedSignal(signal) => if cause is Timeout {
                self.announce(Purpose::Forward(signal), config)
            } else {
                self.announce(Purpose::Kill(cause), config)
            },
            _ => self.announce(Purpose::Kill(cause), config),
        }
    }

    /// The command was collected, or could not be: that matters unless a signal
    /// was only passed on.
    pub open spec fn after_reap(
        self,
        purpose: Purpose,
        collected: Result<(RawExitStatus, ResourceUsage), SpawnError>,
        config: RunConfig,
    ) -> (Monitor, MonitorAction) {
        match (purpose, collected) {
            (Purpose::Forward(signal), Ok((status, rusage))) => self.ended(
                RunResult::SignalForwarded {
                    signal,
                    status: Some(status),
                    rusage: Some(rusage),
                },
            ),
            (Purpose::Forward(signal), Err(_)) => self.ended(
                RunResult::SignalForwarded { signal, status: None, rusage: None },
            ),
            (Purpose::Stop(cause), Ok((status, rusage))) => self.ended(
                cause.outcome(config.signal, false, status, rusage),
            ),
            (Purpose::Kill(cause), Ok((status, rusage))) => self.ended(
                cause.outcome(config.signal, true, status, rusage),
            ),
            (_, Err(e)) => self.over(Err(wait_failure(e))),
        }
    }

    /// What the monitor knows and wants after an event.
    pub open spec fn next(self, event: MonitorEvent, config: RunConfig) -> (
        Monitor,
        MonitorAction,
    ) {
        match (self.phase, event) {
            (MonitorPhase::Starting, MonitorEvent::Clock(Ok(now))) => self.after_start(
                now,
                config,
            ),
            (MonitorPhase::Starting, MonitorEvent::Clock(Err(e))) => self.over(Err(e)),
            (
                MonitorPhase::StartingThrottle,
                MonitorEvent::ThrottleStarted(started),
            ) => self.after_throttle(started, config),
            (MonitorPhase::SayingNoThrottle, MonitorEvent::Said) => self.watching(config),
            (MonitorPhase::Waiting, MonitorEvent::Waited(Ok(result))) => self.after_wait(
                result,
                config,
            ),
            (MonitorPhase::Waiting, MonitorEvent::Waited(Err(e))) => self.over(Err(e)),
            (MonitorPhase::SayingReason(reason), MonitorEvent::Said) => self.hook_or_stop(
                reason,
                config,
            ),
            (MonitorPhase::Hooking(reason), MonitorEvent::HookRan(hook)) => self.announce(
                Purpose::Stop(Cause::Timeout { reason, hook: Some(hook) }),
                config,
            ),
            (MonitorPhase::Saying(purpose), MonitorEvent::Said) => self.let_go(purpose, config),
            (MonitorPhase::Resuming(purpose), MonitorEvent::Resumed) => self.sending(
                purpose,
                config,
            ),
            (MonitorPhase::Sending(purpose), MonitorEvent::Sent(Ok(_))) => self.after_send(
                purpose,
                config,
            ),
            (MonitorPhase::Sending(_), MonitorEvent::Sent(Err(e))) => self.over(Err(e)),
            (MonitorPhase::Grace(cause), MonitorEvent::Waited(Ok(result))) => self.after_grace(
                cause,
                result,
                config,
            ),
            (MonitorPhase::Grace(_), MonitorEvent::Waited(Err(e))) => self.over(Err(e)),
            (MonitorPhase::Reaping(purpose), MonitorEvent::Reaped(collected)) => self.after_reap(
                purpose,
                collected,
                config,
            ),
            (MonitorPhase::Marking(result), MonitorEvent::Marked) => self.over(Ok(result)),
            _ => (self, MonitorAction::ReadClock { confine: config.confine }),
        }
    }
}

/// Watching over the command, one action at a time.
impl Monitor {
    /// Begins to watch over the command `pid`.
    pub fn start(pid: i32, config: &RunConfig) -> (begun: (Monitor, MonitorAction))
        ensures
            begun == (Monitor::begun(pid), MonitorAction::ReadClock { confine: config.confine }),
    {
        (
            Monitor { phase: MonitorPhase::Starting, pid, start_ns: 0, throttle: None },
            MonitorAction::ReadClock { confine: config.confine },
        )
    }

    /// Goes on with what came of the action last asked for.
    pub fn step(self, event: MonitorEvent, config: &RunConfig) -> (next: (Monitor, MonitorAction))
        requires
            self.awaits(event),
        ensures
            next == self.next(event, *config),
    {
        match (self.phase, event) {
            (MonitorPhase::Starting, MonitorEvent::Clock(Ok(now))) => {
                self.handle_start(now, config)
            },
            (MonitorPhase::Starting, MonitorEvent::Clock(Err(e))) => self.finish(Err(e)),
            (
                MonitorPhase::StartingThrottle,
                MonitorEvent::ThrottleStarted(started),
            ) => self.handle_throttle(started, config),
            (MonitorPhase::SayingNoThrottle, MonitorEvent::Said) => self.watch(config),
            (MonitorPhase::Waiting, MonitorEvent::Waited(Ok(result))) => {
                self.handle_wait(result, config)
            },
            (MonitorPhase::Waiting, MonitorEvent::Waited(Err(e))) => self.finish(Err(e)),
            (MonitorPhase::SayingReason(reason), MonitorEvent::Said) => {
                self.run_hook_or_stop(reason, config)
            },
            (MonitorPhase::Hooking(reason), MonitorEvent::HookRan(hook)) => self.begin_signal(
                Purpose::Stop(Cause::Timeout { reason, hook: Some(hook) }),
                config,
            ),
            (MonitorPhase::Saying(purpose), MonitorEvent::Said) => {
                self.resume_and_send(purpose, config)
            },
            (MonitorPhase::Resuming(purpose), MonitorEvent::Resumed) => {
                self.send(purpose, config)
            },
            (MonitorPhase::Sending(purpose), MonitorEvent::Sent(Ok(_))) => {
                self.handle_sent(purpose, config)
            },
            (MonitorPhase::Sending(_), MonitorEvent::Sent(Err(e))) => self.finish(Err(e)),
            (MonitorPhase::Grace(cause), MonitorEvent::Waited(Ok(result))) => {
                self.handle_grace(cause, result, config)
            },
            (MonitorPhase::Grace(_), MonitorEvent::Waited(Err(e))) => self.finish(Err(e)),
            (MonitorPhase::Reaping(purpose), MonitorEvent::Reaped(collected)) => {
                self.handle_reap(purpose, collected, config)
            },
            (MonitorPhase::Marking(result), MonitorEvent::Marked) => self.finish(Ok(result)),
            _ => (self, MonitorAction::ReadClock { confine: config.confine }),
        }
    }

    fn in_phase(self, phase: MonitorPhase) -> (monitor: Monitor)
        ensures
            monitor == self.at(phase),
    {
        Monitor { phase, ..self }
    }

    fn finish(self, result: Result<RunResult, TimeoutError>) -> (next: (Monitor, MonitorAction))
        ensures
            next == self.over(result),
    {
        (self.in_phase(MonitorPhase::Done), MonitorAction::Return(result))
    }

    fn wait_setup(&self, config: &RunConfig) -> (setup: WaitSetup)
        ensures
            setup == self.main_setup(*config),
    {
        WaitSetup {
            pid: self.pid,
            wall_timeout: if is_no_timeout(&config.timeout) {
                None
            } else {
                Some(config.timeout)
            },
            heartbeat: match config.heartbeat {
                Some(interval) => Some(
                    HeartbeatConfig {
                        interval_ns: duration_to_ns(interval),
                        quiet: config.quiet,
                        pid: self.pid,
                        start_ns: self.start_ns,
                    },
                ),
                None => None,
            },
            stdin_timeout: match config.stdin_timeout {
                Some(d) => Some(
                    StdinTimeoutConfig {
                        timeout_ns: duration_to_ns(d),
                        last_activity_ns: self.start_ns,
                        mode: if config.stdin_passthrough {
                            StdinMode::Passthrough
                        } else {
                            StdinMode::Consume
                        },
                    },
                ),
                None => None,
            },
            throttle: self.throttle,
            memory_limit: match config.limits.mem_bytes {
                Some(limit_bytes) => Some(
                    MemoryLimitConfig { limit_bytes, check_interval_ns: MEMORY_POLL_NS },
                ),
                None => None,
            },
            confine: config.confine,
        }
    }

    fn watch(self, config: &RunConfig) -> (next: (Monitor, MonitorAction))
        ensures
            next == self.watching(*config),
    {
        let setup: WaitSetup = self.wait_setup(config);
        (self.in_phase(MonitorPhase::Waiting), MonitorAction::Wait(setup))
    }

    fn handle_start(self, now: u64, config: &RunConfig) -> (next: (Monitor, MonitorAction))
        ensures
            next == self.after_start(now, *config),
    {
        let started = Monitor { start_ns: now, ..self };
        if config.cpu_throttle.is_some() {
            (
                started.in_phase(MonitorPhase::StartingThrottle),
                MonitorAction::StartThrottle { pid: self.pid, start_ns: now },
            )
        } else {
            started.watch(config)
        }
    }

    fn handle_throttle(self, started: Result<(), TimeoutError>, config: &RunConfig) -> (next: (
        Monitor,
        MonitorAction,
    ))
        ensures
            next == self.after_throttle(started, *config),
    {
        match started {
            Ok(_) => {
                let throttled = Monitor {
                    throttle: match config.cpu_throttle {
                        Some(cfg) => Some(
                            ThrottleTiming {
                                interval_ns: cfg.interval_ns,
                                last_wall_ns: self.start_ns,
                            },
                        ),
                        None => None,
                    },
                    ..self
                };
                throttled.watch(config)
            },
            Err(e) => if config.quiet {
                self.watch(config)
            } else {
                (
                    self.in_phase(MonitorPhase::SayingNoThrottle),
                    MonitorAction::Say(Notice::ThrottleDisabled(e)),
                )
            },
        }
    }

    fn begin_signal(self, purpose: Purpose, config: &RunConfig) -> (next: (Monitor, MonitorAction))
        ensures
            next == self.announce(purpose, *config),
    {
        if config.is_loud() {
            if let Some(notice) = purpose.notice(config) {
                return (self.in_phase(MonitorPhase::Saying(purpose)), MonitorAction::Say(notice));
            }
        }
        self.resume_and_send(purpose, config)
    }

    fn resume_and_send(self, purpose: Purpose, config: &RunConfig) -> (next: (
        Monitor,
        MonitorAction,
    ))
        ensures
            next == self.let_go(purpose, *config),
    {
        if self.throttle.is_some() {
            (self.in_phase(MonitorPhase::Resuming(purpose)), MonitorAction::Resume)
        } else {
            self.send(purpose, config)
        }
    }

    fn send(self, purpose: Purpose, config: &RunConfig) -> (next: (Monitor, MonitorAction))
        ensures
            next == self.sending(purpose, *config),
    {
        (
            self.in_phase(MonitorPhase::Sending(purpose)),
            MonitorAction::Send {
                pid: self.pid,
                signal: purpose.signal(config),
                foreground: config.foreground,
            },
        )
    }

    fn handle_sent(self, purpose: Purpose, config: &RunConfig) -> (next: (Monitor, MonitorAction))
        ensures
            next == self.after_send(purpose, *config),
    {
        if let Purpose::Stop(cause) = purpose {
            if let Some(grace) = config.kill_after {
                let setup = WaitSetup {
                    pid: self.pid,
                    wall_timeout: Some(grace),
                    heartbeat: None,
                    stdin_timeout: None,
                    throttle: None,
                    memory_limit: None,
                    confine: config.confine,
                };
                return (self.in_phase(MonitorPhase::Grace(cause)), MonitorAction::Wait(setup));
            }
        }
        (self.in_phase(MonitorPhase::Reaping(purpose)), MonitorAction::Reap)
    }

    fn end(self, result: RunResult) -> (next: (Monitor, MonitorAction))
        ensures
            next == self.ended(result),
    {
        if self.throttle.is_some() {
            (self.in_phase(MonitorPhase::Marking(result)), MonitorAction::MarkExited)
        } else {
            self.finish(Ok(result))
        }
    }

    fn time_out(self, reason: TimeoutReason, config: &RunConfig) -> (next: (
        Monitor,
        MonitorAction,
    ))
        ensures
            next == self.timed_out(reason, *config),
    {
        if config.is_loud() {
            (
                self.in_phase(MonitorPhase::SayingReason(reason)),
                MonitorAction::Say(Notice::Triggered(reason)),
            )
        } else {
            self.run_hook_or_stop(reason, config)
        }
    }

    fn run_hook_or_stop(self, reason: TimeoutReason, config: &RunConfig) -> (next: (
        Monitor,
        MonitorAction,
    ))
        ensures
            next == self.hook_or_stop(reason, *config),
    {
        match &config.on_timeout {
            Some(hook) => (
                self.in_phase(MonitorPhase::Hooking(reason)),
                MonitorAction::RunHook { pid: self.pid, hook: hook.clone() },
            ),
            None => self.begin_signal(
                Purpose::Stop(Cause::Timeout { reason, hook: None }),
                config,
            ),
        }
    }

    fn handle_wait(self, result: WaitResult, config: &RunConfig) -> (next: (
        Monitor,
        MonitorAction,
    ))
        ensures
            next == self.after_wait(result, *config),
    {
        match result {
            WaitResult::Exited(status, rusage) => self.end(
                RunResult::Completed { status, rusage },
            ),
            WaitResult::ReceivedSignal(signal) => {
                self.begin_signal(Purpose::Forward(signal), config)
            },
            WaitResult::MemoryLimitExceeded { limit_bytes, actual_bytes } => self.begin_signal(
                Purpose::Stop(Cause::Memory { limit_bytes, actual_bytes }),
                config,
            ),
            WaitResult::TimedOut(reason) => self.time_out(reason, config),
        }
    }

    fn handle_grace(self, cause: Cause, result: WaitResult, config: &RunConfig) -> (next: (
        Monitor,
        MonitorAction,
    ))
        ensures
            next == self.after_grace(cause, result, *config),
    {
        match result {
            WaitResult::Exited(status, rusage) => self.end(
                cause.into_outcome(config.signal, false, status, rusage),
            ),
            WaitResult::ReceivedSignal(signal) => if matches!(cause, Cause::Timeout { .. }) {
                self.begin_signal(Purpose::Forward(signal), config)
            } else {
                self.begin_signal(Purpose::Kill(cause), config)
            },
            _ => self.begin_signal(Purpose::Kill(cause), config),
        }
    }

    fn handle_reap(
        self,
        purpose: Purpose,
        collected: Result<(RawExitStatus, ResourceUsage), SpawnError>,
        config: &RunConfig,
    ) -> (next: (Monitor, MonitorAction))
        ensures
            next == self.after_reap(purpose, collected, *config),
    {
        match (purpose, collected) {
            (Purpose::Forward(signal), Ok((status, rusage))) => self.end(
                RunResult::SignalForwarded {
                    signal,
                    status: Some(status),
                    rusage: Some(rusage),
                },
            ),
            (Purpose::Forward(signal), Err(_)) => self.end(
                RunResult::SignalForwarded { signal, status: None, rusage: None },
            ),
            (Purpose::Stop(cause), Ok((status, rusage))) => self.end(
                cause.into_outcome(config.signal, false, status, rusage),
            ),
            (Purpose::Kill(cause), Ok((status, rusage))) => self.end(
                cause.into_outcome(config.signal, true, status, rusage),
            ),
            (_, Err(e)) => self.finish(Err(wait_error(e))),
        }
    }
}

} // verus!
