//! Whole runs on a simulated machine: a clock that moves only when someone
//! waits, one command, one hook, and an input.

use procguard::args::{Confine, OwnedArgs};
use procguard::clock::{precise_now_ns, ClockReading, MachTimebaseInfo};
use procguard::command::{CommandAction, CommandEvent, CommandRun};
use procguard::error::{exit_codes, SpawnError, TimeoutError};
use procguard::hook::{
    HookAction, HookEvent, HookRun, HookWait, HookWaitAction, HookWaitEvent, HookWaitResult,
};
use procguard::kqueue::{KernelEvent, EVFILT_PROC, EVFILT_READ, EVFILT_TIMER, EV_ADD, EV_EOF};
use procguard::monitor::{Monitor, MonitorAction, MonitorEvent};
use procguard::notice::Notice;
use procguard::process::{RawExitStatus, ResourceUsage};
use procguard::retry::{Retry, RetryAction, RetryEvent};
use procguard::runner::{
    run_command, run_with_retry, Attempts, HookResult, RunConfig, RunResult, ThrottleContext,
};
use procguard::send::{send_signal, SendAction};
use procguard::signal::Signal;
use procguard::throttle::CpuThrottleState;
use procguard::time::Duration;
use procguard::wait::{Wait, WaitAction, WaitEvent, WaitResult, WaitSetup};
use procguard::{ResourceLimits, TimeoutReason};

const MS: u64 = 1_000_000;
const PID: i32 = 4242;
const HOOK_PID: i32 = 4343;
const SIGNAL_FD: i32 = 11;

/// What input does.
#[derive(Clone, Copy, PartialEq)]
enum Input {
    /// It stays open and nothing comes.
    Idle,
    /// A line comes every so many nanoseconds.
    Busy(u64),
    /// It is at its end from the start, as `/dev/null` is.
    Null,
    /// Its other end is closed at this time.
    HangsUp(u64),
    /// There is none.
    Closed,
}

/// The machine, and what its command does.
struct Machine {
    /// The time the machine has been awake.
    now: u64,
    /// The time it has slept.
    slept: u64,
    /// When it falls asleep, and for how long.
    sleeps_at: Option<(u64, u64)>,
    /// When the command exits by itself, and how; counted in time it may run.
    exits_after: Option<(u64, i32)>,
    /// Does it survive everything but `SIGKILL`?
    ignores_signals: bool,
    /// Why it cannot be started.
    spawn_error: Option<SpawnError>,
    memory: u64,
    input: Input,
    next_line: u64,
    /// When the supervisor gets a signal, and which.
    signal_at: Option<(u64, u8)>,
    /// How long the hook takes, and how it ends.
    hook: (u64, i32),
    hook_error: bool,
    /// Is there no process group to send to?
    group_gone: bool,

    running: bool,
    stopped: bool,
    ran_ns: u64,
    status: Option<i32>,
    queues: i32,
    sent: Vec<(Signal, bool)>,
    hooks: Vec<String>,
    hook_killed: bool,
    hook_started: u64,
    lines: Vec<String>,
    spawned: u32,
    drained: u32,
    requests: Vec<(String, Vec<String>, bool, bool)>,
    throttle: Option<ThrottleContext>,
}

impl Machine {
    /// A command that runs for ever and dies of any signal.
    fn new() -> Machine {
        Machine {
            now: 5_000 * MS,
            slept: 0,
            sleeps_at: None,
            exits_after: None,
            ignores_signals: false,
            spawn_error: None,
            memory: 1024,
            input: Input::Idle,
            next_line: 0,
            signal_at: None,
            hook: (MS, 0),
            hook_error: false,
            group_gone: false,
            running: false,
            stopped: false,
            ran_ns: 0,
            status: None,
            queues: 0,
            sent: Vec::new(),
            hooks: Vec::new(),
            hook_killed: false,
            hook_started: 0,
            lines: Vec::new(),
            spawned: 0,
            drained: 0,
            requests: Vec::new(),
            throttle: None,
        }
    }

    /// A command that exits with `code` after `ms` milliseconds.
    fn exiting(ms: u64, code: i32) -> Machine {
        let mut machine = Machine::new();
        machine.exits_after = Some((ms * MS, code << 8));
        machine
    }

    fn say(&mut self, notice: &Notice) {
        self.lines.push(notice.message());
    }

    fn said(&self, part: &str) -> bool {
        self.lines.iter().any(|line| line.contains(part))
    }

    fn usage(&self) -> ResourceUsage {
        ResourceUsage { user_time_ms: self.ran_ns / MS, system_time_ms: 1, max_rss_kb: 512 }
    }

    /// When the command will exit by itself.
    fn exit_time(&self) -> Option<u64> {
        if self.status.is_some() {
            return Some(self.now);
        }
        match self.exits_after {
            Some((after, _)) if !self.stopped => Some(self.now + (after - self.ran_ns)),
            _ => None,
        }
    }

    fn pass_until(&mut self, then: u64) {
        assert!(then >= self.now);
        if self.running && self.status.is_none() && !self.stopped {
            self.ran_ns += then - self.now;
            if let Some((after, raw)) = self.exits_after {
                if self.ran_ns >= after {
                    self.status = Some(raw);
                }
            }
        }
        self.now = then;
        if let Some((at, sleep)) = self.sleeps_at {
            if at <= then {
                self.slept += sleep;
                self.sleeps_at = None;
            }
        }
    }

    fn clock(&self, confine: Confine) -> Result<u64, TimeoutError> {
        let reading = ClockReading {
            timebase: MachTimebaseInfo { numer: 1, denom: 1 },
            continuous_ticks: self.now + self.slept,
            raw_ns: self.now,
        };
        precise_now_ns(confine, &reading)
    }

    fn deliver(&mut self, signal: Signal) {
        match signal {
            Signal::SIGSTOP => self.stopped = true,
            Signal::SIGCONT => self.stopped = false,
            Signal::SIGKILL => self.die(9),
            other if !self.ignores_signals => self.die(other.as_raw()),
            _ => {}
        }
    }

    fn die(&mut self, raw: i32) {
        if self.status.is_none() {
            self.status = Some(raw);
        }
    }

    fn reap(&mut self) -> Result<(RawExitStatus, ResourceUsage), SpawnError> {
        if !self.running {
            return Err(SpawnError::Wait(10));
        }
        let exit = self.exit_time().expect("waiting for a command that never ends");
        self.pass_until(exit);
        self.running = false;
        Ok((RawExitStatus::from_raw(self.status.unwrap()), self.usage()))
    }

    /// Waits on the queue and says what happened first.
    fn kevent(&mut self, wait: &Wait, wake_ns: u64) -> KernelEvent {
        let changes = wait.changes(wake_ns);
        assert_eq!(changes[0].ident, PID as u64);
        assert_eq!(changes[0].filter, EVFILT_PROC);
        assert_eq!(changes[1].filter, EVFILT_TIMER);
        assert_eq!(changes[1].data, wake_ns as i64);
        let watches = |fd: i32| {
            changes
                .iter()
                .any(|c| c.filter == EVFILT_READ && c.ident == fd as u64 && c.flags == EV_ADD)
        };
        let mut first = (self.now + wake_ns, EVFILT_TIMER, 1, 0);
        if watches(0) {
            let at = match self.input {
                Input::Busy(_) => Some((self.next_line.max(self.now), 0)),
                Input::Null => Some((self.now, 0)),
                Input::HangsUp(at) => Some((at.max(self.now), EV_EOF)),
                _ => None,
            };
            if let Some((at, flags)) = at {
                if at <= first.0 {
                    first = (at, EVFILT_READ, 0, flags);
                }
            }
        }
        if let (Some((at, _)), true) = (self.signal_at, watches(SIGNAL_FD)) {
            if at.max(self.now) <= first.0 {
                first = (at.max(self.now), EVFILT_READ, SIGNAL_FD as u64, 0);
            }
        }
        if let Some(at) = self.exit_time() {
            if at <= first.0 {
                first = (at, EVFILT_PROC, PID as u64, 0);
            }
        }
        self.pass_until(first.0);
        KernelEvent { ident: first.2, filter: first.1, flags: first.3, data: 0 }
    }

    fn poll(&self) -> WaitEvent {
        match self.input {
            Input::Busy(_) if self.next_line <= self.now => {
                WaitEvent::Polled { ready: 1, revents: 1 }
            }
            Input::HangsUp(at) if at <= self.now => WaitEvent::Polled { ready: 1, revents: 16 },
            _ => WaitEvent::Polled { ready: 0, revents: 0 },
        }
    }

    fn wait(&mut self, setup: WaitSetup) -> Result<WaitResult, TimeoutError> {
        let (mut wait, mut action) = Wait::start(setup, SIGNAL_FD);
        let mut turns = 0;
        loop {
            turns += 1;
            assert!(turns < 100_000, "busy loop");
            let event = match action {
                WaitAction::ReadClock { confine } => WaitEvent::Clock(self.clock(confine)),
                WaitAction::StatStdin => {
                    WaitEvent::StdinStat(if self.input == Input::Closed { -1 } else { 0 })
                }
                WaitAction::PollStdin => {
                    let event = self.poll();
                    if let Input::Busy(every) = self.input {
                        /* the command reads what there is */
                        while self.next_line <= self.now {
                            self.next_line += every;
                        }
                    }
                    event
                }
                WaitAction::OpenQueue => {
                    self.queues += 1;
                    WaitEvent::Queue { fd: 7, errno: 0 }
                }
                WaitAction::Submit { queue, wake_ns } => {
                    assert_eq!(queue, 7);
                    WaitEvent::Kernel(Ok(self.kevent(&wait, wake_ns)))
                }
                WaitAction::DrainStdin => {
                    self.drained += 1;
                    match self.input {
                        Input::Busy(every) => {
                            while self.next_line <= self.now {
                                self.next_line += every;
                            }
                            WaitEvent::Drained(5)
                        }
                        _ => WaitEvent::Drained(0),
                    }
                }
                WaitAction::UpdateThrottle { now_ns } => {
                    let used = self.ran_ns;
                    let context = self.throttle.as_mut().expect("throttled");
                    let signal = context.state.update(&context.cfg, now_ns, Ok(used));
                    if let Ok(Some(signal)) = signal {
                        self.deliver(signal);
                    }
                    WaitEvent::Throttled(Ok(()))
                }
                WaitAction::MeasureMemory => WaitEvent::Memory(Some(self.memory)),
                WaitAction::Heartbeat { elapsed_ns, pid } => {
                    self.say(&Notice::Heartbeat { elapsed_ns, pid });
                    WaitEvent::Said
                }
                WaitAction::CloseQueue { queue } => {
                    assert_eq!(queue, 7);
                    self.queues -= 1;
                    WaitEvent::Closed
                }
                WaitAction::TryReap => WaitEvent::TryReaped(self.reap().map(Some)),
                WaitAction::Reap => WaitEvent::Reaped(self.reap()),
                WaitAction::ReadSignal { fd } => {
                    assert_eq!(fd, SIGNAL_FD);
                    let (_, byte) = self.signal_at.take().expect("a signal");
                    WaitEvent::SignalByte { count: 1, byte }
                }
                WaitAction::Return(result) => {
                    assert_eq!(self.queues, 0, "every queue is closed");
                    return result;
                }
            };
            let (next, wanted) = wait.step(event);
            wait = next;
            action = wanted;
        }
    }

    fn hook_wait(&mut self, pid: i32, limit: Duration, confine: Confine) -> HookWaitResult {
        let (mut wait, mut action) = HookWait::start(pid, limit, confine);
        loop {
            let event = match action {
                HookWaitAction::ReadClock { confine } => HookWaitEvent::Clock(self.clock(confine)),
                HookWaitAction::OpenQueue => {
                    self.queues += 1;
                    HookWaitEvent::Queue { fd: 8, errno: 0 }
                }
                HookWaitAction::Submit { queue, wake_ns } => {
                    assert_eq!(queue, 8);
                    let changes = wait.changes(wake_ns);
                    assert_eq!(changes[0].ident, HOOK_PID as u64);
                    assert_eq!(changes[1].ident, 2);
                    let ends = self.hook_started + self.hook.0;
                    let (at, filter) = if ends <= self.now + wake_ns {
                        (ends, EVFILT_PROC)
                    } else {
                        (self.now + wake_ns, EVFILT_TIMER)
                    };
                    self.pass_until(at);
                    HookWaitEvent::Kernel(Ok(KernelEvent { ident: 0, filter, flags: 0, data: 0 }))
                }
                HookWaitAction::CloseQueue { queue } => {
                    assert_eq!(queue, 8);
                    self.queues -= 1;
                    HookWaitEvent::Closed
                }
                HookWaitAction::TryReap => {
                    HookWaitEvent::TryReaped(Ok(Some(RawExitStatus::from_raw(self.hook.1))))
                }
                HookWaitAction::Reap => {
                    HookWaitEvent::Reaped(Ok(RawExitStatus::from_raw(self.hook.1)))
                }
                HookWaitAction::Return(result) => return result,
            };
            let (next, wanted) = wait.step(event);
            wait = next;
            action = wanted;
        }
    }

    fn run_hook(&mut self, hook: &str, pid: i32, config: &RunConfig) -> HookResult {
        let (mut run, mut action) = HookRun::start(hook, pid, config);
        loop {
            let event = match action {
                HookAction::ReadClock { confine } => HookEvent::Clock(self.clock(confine)),
                HookAction::Spawn(request) => {
                    assert_eq!(request.command, "sh");
                    assert_eq!(request.args.len(), 2);
                    assert_eq!(request.args[0], "-c");
                    assert!(request.use_process_group);
                    assert!(request.limits.is_none());
                    if self.hook_error {
                        HookEvent::Spawned(Err(SpawnError::Spawn(35)))
                    } else {
                        self.hooks.push(request.args[1].clone());
                        self.hook_started = self.now;
                        HookEvent::Spawned(Ok(HOOK_PID))
                    }
                }
                HookAction::Wait { pid, limit, confine } => {
                    assert_eq!(pid, HOOK_PID);
                    HookEvent::Waited(self.hook_wait(pid, limit, confine))
                }
                HookAction::Say(notice) => {
                    self.say(&notice);
                    HookEvent::Said
                }
                HookAction::KillGroup { pid, signal } => {
                    assert_eq!((pid, signal), (HOOK_PID, Signal::SIGKILL));
                    self.hook_killed = true;
                    HookEvent::Killed
                }
                HookAction::Reap { pid } => {
                    assert_eq!(pid, HOOK_PID);
                    HookEvent::Reaped
                }
                HookAction::Return(result) => return result,
            };
            let (next, wanted) = run.step(event, config);
            run = next;
            action = wanted;
        }
    }

    fn send(&mut self, pid: i32, signal: Signal, foreground: bool) -> Result<(), TimeoutError> {
        assert!(!self.stopped, "a stopped command cannot act on a signal");
        let (mut sending, mut action) = send_signal(pid, signal, foreground);
        loop {
            let group = matches!(action, SendAction::KillGroup { .. });
            let (ret, errno) = match action {
                SendAction::KillGroup { pid, number } | SendAction::Kill { pid, number } => {
                    assert_eq!(pid, PID);
                    assert_eq!(number, signal.as_raw());
                    if group && self.group_gone {
                        (-1, libc::ESRCH)
                    } else {
                        self.sent.push((signal, group));
                        self.deliver(signal);
                        (0, 0)
                    }
                }
                SendAction::Return(result) => return result,
            };
            let (next, wanted) = sending.step(ret, errno);
            sending = next;
            action = wanted;
        }
    }

    fn monitor(&mut self, pid: i32, config: &RunConfig) -> Result<RunResult, TimeoutError> {
        let (mut monitor, mut action) = Monitor::start(pid, config);
        loop {
            let event = match action {
                MonitorAction::ReadClock { confine } => MonitorEvent::Clock(self.clock(confine)),
                MonitorAction::StartThrottle { pid, start_ns } => {
                    let state = CpuThrottleState::new(pid, start_ns, Ok(self.ran_ns)).unwrap();
                    let cfg = config.cpu_throttle.expect("a throttle");
                    self.throttle = Some(ThrottleContext { cfg, state });
                    MonitorEvent::ThrottleStarted(Ok(()))
                }
                MonitorAction::Say(notice) => {
                    self.say(&notice);
                    MonitorEvent::Said
                }
                MonitorAction::Wait(setup) => MonitorEvent::Waited(self.wait(setup)),
                MonitorAction::RunHook { pid, hook } => {
                    assert!(self.sent.is_empty(), "the hook comes before the signal");
                    MonitorEvent::HookRan(self.run_hook(&hook, pid, config))
                }
                MonitorAction::Resume => {
                    if let Some(signal) = self.throttle.as_mut().expect("throttled").state.resume()
                    {
                        self.deliver(signal);
                    }
                    MonitorEvent::Resumed
                }
                MonitorAction::Send { pid, signal, foreground } => {
                    MonitorEvent::Sent(self.send(pid, signal, foreground))
                }
                MonitorAction::Reap => MonitorEvent::Reaped(self.reap()),
                MonitorAction::MarkExited => {
                    self.throttle.as_mut().expect("throttled").state.mark_process_exited();
                    MonitorEvent::Marked
                }
                MonitorAction::Return(result) => return result,
            };
            let (next, wanted) = monitor.step(event, config);
            monitor = next;
            action = wanted;
        }
    }

    fn command(
        &mut self,
        command: &str,
        args: &[String],
        config: &RunConfig,
    ) -> Result<RunResult, TimeoutError> {
        let (mut run, mut action): (CommandRun, CommandAction) =
            run_command(command, args, config);
        loop {
            let event = match action {
                CommandAction::Spawn(request) => {
                    self.requests.push((
                        request.command,
                        request.args,
                        request.use_process_group,
                        request.limits.is_some(),
                    ));
                    self.spawned += 1;
                    match self.spawn_error.take() {
                        Some(error) => CommandEvent::Spawned(Err(error)),
                        None => {
                            self.running = true;
                            self.stopped = false;
                            self.status = None;
                            self.ran_ns = 0;
                            self.sent.clear();
                            CommandEvent::Spawned(Ok(PID))
                        }
                    }
                }
                CommandAction::Reap => CommandEvent::Reaped(self.reap()),
                CommandAction::Monitor { pid } => {
                    CommandEvent::Monitored(self.monitor(pid, config))
                }
                CommandAction::Return(result) => return result,
            };
            let (next, wanted) = run.step(event, config);
            run = next;
            action = wanted;
        }
    }

    fn retry(
        &mut self,
        command: &str,
        args: &[String],
        config: &RunConfig,
    ) -> Result<(RunResult, Attempts), TimeoutError> {
        let (mut retry, mut action): (Retry, RetryAction) =
            run_with_retry(command, args, config, SIGNAL_FD);
        loop {
            let event = match action {
                RetryAction::Say(notice) => {
                    self.say(&notice);
                    RetryEvent::Said
                }
                RetryAction::ReadClock { confine } => RetryEvent::Clock(self.clock(confine)),
                RetryAction::RunCommand => {
                    RetryEvent::Ran(self.command(&retry.command, &retry.args, config))
                }
                RetryAction::Delay { delay, signal_fd } => {
                    assert_eq!(signal_fd, Some(SIGNAL_FD));
                    let then = self.now + procguard::time::duration_to_ns(delay);
                    match self.signal_at {
                        Some((at, _)) if at <= then => {
                            self.pass_until(at.max(self.now));
                            RetryEvent::Delayed(false)
                        }
                        _ => {
                            self.pass_until(then);
                            RetryEvent::Delayed(true)
                        }
                    }
                }
                RetryAction::ReadSignal { fd } => {
                    assert_eq!(fd, SIGNAL_FD);
                    let (_, byte) = self.signal_at.take().expect("a signal");
                    RetryEvent::SignalByte { count: 1, byte }
                }
                RetryAction::Return(Ok(result)) => return Ok((result, retry.attempts)),
                RetryAction::Return(Err(error)) => return Err(error),
            };
            let (next, wanted) = retry.step(event, config);
            retry = next;
            action = wanted;
        }
    }
}

/// What a whole run came to.
struct Run {
    code: u8,
    took_ms: u64,
    result: Option<RunResult>,
    attempts: usize,
    machine: Machine,
}

fn options() -> OwnedArgs {
    OwnedArgs {
        signal: "TERM".to_string(),
        kill_after: None,
        foreground: false,
        verbose: false,
        quiet: false,
        timeout_exit_code: None,
        on_timeout: None,
        on_timeout_limit: "5s".to_string(),
        confine: Confine::Wall,
        retry: None,
        retry_delay: None,
        retry_backoff: None,
        heartbeat: None,
        stdin_timeout: None,
        stdin_passthrough: false,
        mem_limit: None,
        cpu_time: None,
        cpu_percent: None,
    }
}

fn some(text: &str) -> Option<String> {
    Some(text.to_string())
}

/// Reads the options and runs the command, as the program does.
fn run_preserving(
    options: &OwnedArgs,
    duration: &str,
    mut machine: Machine,
    preserve: bool,
) -> Run {
    let start = machine.now;
    let mut warnings = Vec::new();
    let config = RunConfig::from_args(options, duration, &mut warnings);
    for warning in &warnings {
        machine.say(warning);
    }
    let outcome = match &config {
        Ok(config) => machine
            .retry("sleep", &["10".to_string()], config)
            .map(|(result, attempts)| {
                (result.exit_code(preserve, config.timeout_exit_code), result, attempts.len())
            }),
        Err(_) => Err(config.err().unwrap()),
    };
    let took_ms = (machine.now - start) / MS;
    match outcome {
        Ok((code, result, attempts)) => {
            Run { code, took_ms, result: Some(result), attempts, machine }
        }
        Err(error) => {
            if !options.quiet {
                machine.lines.push(error.message());
            }
            Run { code: error.exit_code(), took_ms, result: None, attempts: 0, machine }
        }
    }
}

fn run(options: &OwnedArgs, duration: &str, machine: Machine) -> Run {
    run_preserving(options, duration, machine, false)
}

fn basic_config(timeout: Duration) -> RunConfig {
    RunConfig {
        timeout,
        signal: Signal::SIGTERM,
        kill_after: Some(Duration::from_millis(50)),
        quiet: true,
        ..RunConfig::default()
    }
}

/* The library, as a program uses it. */

#[test]
fn library_run_command_completes() {
    let config = basic_config(Duration::from_secs(2));
    let args = ["-c".to_string(), "exit 0".to_string()];
    let mut machine = Machine::exiting(1, 0);

    let result = machine.command("sh", &args, &config).expect("run_command should succeed");

    match result {
        RunResult::Completed { status, .. } => {
            assert_eq!(status.code(), Some(0));
        }
        _ => panic!("expected Completed, got other variant"),
    }
    assert_eq!(machine.requests, vec![("sh".to_string(), args.to_vec(), true, false)]);
    assert!(machine.sent.is_empty());
}

#[test]
fn library_run_command_nonzero_exit() {
    let config = basic_config(Duration::from_secs(2));
    let args = ["-c".to_string(), "exit 42".to_string()];
    let mut machine = Machine::exiting(1, 42);

    let result = machine.command("sh", &args, &config).expect("run_command should succeed");

    match result {
        RunResult::Completed { status, rusage } => {
            assert_eq!(status.code(), Some(42));
            assert!(rusage.max_rss_kb > 0);
        }
        _ => panic!("expected Completed, got other variant"),
    }
}

#[test]
fn library_run_command_times_out() {
    let config = basic_config(Duration::from_millis(150));
    let args = ["10".to_string()];
    let mut machine = Machine::exiting(10_000, 0);

    let result = machine.command("sleep", &args, &config).expect("run_command should succeed");

    match result {
        RunResult::TimedOut { reason, signal, .. } => {
            assert_eq!(signal, Signal::SIGTERM);
            assert!(matches!(reason, TimeoutReason::WallClock));
        }
        _ => panic!("expected TimedOut, got other variant"),
    }
    assert_eq!(machine.sent, vec![(Signal::SIGTERM, true)]);
}

#[test]
fn library_run_command_not_found() {
    let config = basic_config(Duration::from_secs(5));
    let args: [String; 0] = [];
    let mut machine = Machine::new();
    machine.spawn_error =
        Some(SpawnError::NotFound("nonexistent_command_xyz_12345".to_string()));

    let result = machine.command("nonexistent_command_xyz_12345", &args, &config);

    match result {
        Err(err) => {
            assert_eq!(err.exit_code(), exit_codes::NOT_FOUND);
        }
        Ok(_) => panic!("expected error for nonexistent command"),
    }
}

#[test]
fn library_run_with_retry_succeeds_first_try() {
    let config = RunConfig {
        timeout: Duration::from_secs(5),
        retry_count: 2,
        quiet: true,
        ..RunConfig::default()
    };
    let args = ["-c".to_string(), "exit 0".to_string()];
    let mut machine = Machine::exiting(3, 0);

    let (result, attempts) =
        machine.retry("sh", &args, &config).expect("run_with_retry should succeed");

    match result {
        RunResult::Completed { status, .. } => {
            assert_eq!(status.code(), Some(0));
        }
        _ => panic!("expected Completed, got other variant"),
    }

    assert_eq!(attempts.len(), 1);
    assert_eq!(attempts.as_slice()[0].status, "completed");
    assert_eq!(attempts.as_slice()[0].exit_code, Some(0));
    assert_eq!(attempts.as_slice()[0].elapsed_ms, 3);
}

#[test]
fn library_run_with_retry_retries_on_timeout() {
    let config = RunConfig {
        timeout: Duration::from_millis(100),
        retry_count: 2,
        retry_delay: Duration::from_millis(10),
        quiet: true,
        kill_after: Some(Duration::from_millis(50)),
        ..RunConfig::default()
    };
    let args = ["10".to_string()];

    let (result, attempts) = Machine::new()
        .retry("sleep", &args, &config)
        .expect("run_with_retry should succeed");

    assert!(matches!(result, RunResult::TimedOut { .. }));
    assert!(!attempts.is_empty(), "should have at least 1 attempt");
    assert_eq!(attempts.len(), 3);
    for attempt in attempts.as_slice() {
        assert!(
            attempt.status == "timeout" || attempt.status == "signal",
            "attempt status should be timeout or signal, got: {}",
            attempt.status
        );
    }

    /* a signal during the second attempt ends it all */
    let mut machine = Machine::new();
    machine.signal_at = Some((machine.now + 150 * MS, 15));
    let (result, attempts) =
        machine.retry("sleep", &args, &config).expect("run_with_retry should succeed");
    assert!(matches!(result, RunResult::SignalForwarded { .. }));
    let statuses: Vec<&str> = attempts.as_slice().iter().map(|a| a.status).collect();
    assert_eq!(statuses, vec!["timeout", "signal"]);
}

#[test]
fn only_completed_attempts_have_an_exit_code() {
    let config = RunConfig {
        timeout: Duration::from_millis(100),
        retry_count: 2,
        quiet: true,
        ..RunConfig::default()
    };

    let (_, attempts) = Machine::exiting(1, 7).retry("sh", &[], &config).expect("it runs");
    assert_eq!(attempts.as_slice()[0].status, "completed");
    assert_eq!(attempts.as_slice()[0].exit_code, Some(7));

    let mut machine = Machine::new();
    machine.signal_at = Some((machine.now + 150 * MS, 15));
    let (_, attempts) = machine.retry("sh", &[], &config).expect("it runs");
    let noted: Vec<(&str, Option<i32>)> =
        attempts.as_slice().iter().map(|a| (a.status, a.exit_code)).collect();
    assert_eq!(noted, vec![("timeout", None), ("signal", None)]);
}

#[test]
fn stopped_commands_have_been_collected() {
    let config = RunConfig {
        timeout: Duration::from_millis(100),
        quiet: true,
        limits: ResourceLimits { mem_bytes: Some(5 * 1024 * 1024), cpu_time: None },
        ..RunConfig::default()
    };

    match Machine::new().command("sleep", &[], &config) {
        Ok(RunResult::TimedOut { status, rusage, .. }) => {
            assert_eq!(status.and_then(|status| status.signal()), Some(15));
            assert!(rusage.is_some());
        }
        _ => panic!("expected TimedOut, got something else"),
    }

    let mut machine = Machine::new();
    machine.memory = 50 * 1024 * 1024;
    match machine.command("sleep", &[], &config) {
        Ok(RunResult::MemoryLimitExceeded { status, rusage, .. }) => {
            assert_eq!(status.and_then(|status| status.signal()), Some(15));
            assert!(rusage.is_some());
        }
        _ => panic!("expected MemoryLimitExceeded, got something else"),
    }
}

#[test]
fn library_mem_limit_enforced_with_zero_timeout() {
    let config = RunConfig {
        timeout: Duration::zero(),
        quiet: true,
        kill_after: Some(Duration::from_millis(50)),
        limits: ResourceLimits { mem_bytes: Some(5 * 1024 * 1024), cpu_time: None },
        ..RunConfig::default()
    };
    let args = [
        "-c".to_string(),
        "import time; x = [0] * (50 * 1024 * 1024 // 8); time.sleep(10)".to_string(),
    ];
    let mut machine = Machine::exiting(10_000, 0);
    machine.memory = 50 * 1024 * 1024;

    let result = machine.command("python3", &args, &config).expect("run_command should succeed");
    assert_eq!(machine.requests, vec![("python3".to_string(), args.to_vec(), true, true)]);

    match result {
        RunResult::MemoryLimitExceeded { limit_bytes, actual_bytes, .. } => {
            assert_eq!(limit_bytes, 5 * 1024 * 1024);
            assert!(actual_bytes > limit_bytes);
        }
        _ => panic!("expected MemoryLimitExceeded with zero timeout, got other variant"),
    }
    assert!(machine.requests[0].3, "limits are handed on");
}

/* Completion, timeouts and exit codes. */

#[test]
fn test_basic_timeout() {
    let run = run(&options(), "5s", Machine::exiting(2, 0));
    assert_eq!(run.code, 0);
    assert!(run.took_ms < 2_000);
}

#[test]
fn test_command_completes_with_exit_code() {
    assert_eq!(run(&options(), "5s", Machine::exiting(2, 42)).code, 42);
}

#[test]
fn test_timeout_triggers_exit_124() {
    let run = run(&options(), "0.5s", Machine::exiting(10_000, 0));
    assert_eq!(run.code, 124);
    assert!(run.took_ms >= 400, "timed out too early");
    assert!(run.took_ms < 2_000, "took too long to timeout");
}

#[test]
fn test_zero_duration_disables_timeout() {
    let run = run(&options(), "0", Machine::exiting(3_600_000, 0));
    assert_eq!(run.code, 0);
    assert_eq!(run.took_ms, 3_600_000);
}

#[test]
fn test_duration_fractional() {
    let run = run(&options(), "0.3s", Machine::new());
    assert_eq!(run.code, 124);
    assert!(run.took_ms >= 250);
    assert!(run.took_ms < 1_000);
}

#[test]
fn test_duration_fractional_no_suffix() {
    let run = run(&options(), "0.5", Machine::new());
    assert_eq!(run.code, 124);
    assert!(run.took_ms >= 400);
    assert!(run.took_ms < 1_000);
}

#[test]
fn test_invalid_duration() {
    let run = run(&options(), "abc", Machine::new());
    assert_eq!(run.code, 125);
    assert!(run.machine.said("invalid"));
    assert_eq!(run.machine.spawned, 0);
}

#[test]
fn test_invalid_signal() {
    let run = run(&OwnedArgs { signal: "INVALID".to_string(), ..options() }, "5s", Machine::new());
    assert_eq!(run.code, 125);
    assert!(run.machine.said("invalid signal"));
}

fn dies_of(signal: &str) -> (u8, Vec<(Signal, bool)>) {
    let run =
        run(&OwnedArgs { signal: signal.to_string(), ..options() }, "0.3s", Machine::new());
    (run.code, run.machine.sent)
}

#[test]
fn test_signal_by_name() {
    assert_eq!(dies_of("TERM"), (124, vec![(Signal::SIGTERM, true)]));
}

#[test]
fn test_signal_by_number() {
    assert_eq!(dies_of("15"), (124, vec![(Signal::SIGTERM, true)]));
}

#[test]
fn test_signal_with_sig_prefix() {
    assert_eq!(dies_of("SIGTERM"), (124, vec![(Signal::SIGTERM, true)]));
}

#[test]
fn test_signal_case_insensitive() {
    assert_eq!(dies_of("term"), (124, vec![(Signal::SIGTERM, true)]));
}

#[test]
fn test_signal_kill() {
    assert_eq!(dies_of("KILL"), (124, vec![(Signal::SIGKILL, true)]));
}

#[test]
fn test_signal_hup() {
    assert_eq!(dies_of("HUP"), (124, vec![(Signal::SIGHUP, true)]));
}

#[test]
fn test_signal_int() {
    assert_eq!(dies_of("INT"), (124, vec![(Signal::SIGINT, true)]));
}

#[test]
fn test_preserve_status_on_timeout() {
    let run = run_preserving(&options(), "0.3s", Machine::new(), true);
    assert!([128 + 15, 128 + 9].contains(&run.code));
}

#[test]
fn test_preserve_status_on_normal_exit() {
    assert_eq!(run_preserving(&options(), "5s", Machine::exiting(5, 7), true).code, 7);
}

#[test]
fn test_preserve_status_with_sigkill() {
    let options = OwnedArgs { signal: "KILL".to_string(), ..options() };
    assert_eq!(run_preserving(&options, "0.3s", Machine::new(), true).code, 137);
}

#[test]
fn test_exit_137_sigkill() {
    let options = OwnedArgs { signal: "KILL".to_string(), ..options() };
    assert_eq!(run_preserving(&options, "0.2s", Machine::new(), true).code, 137);
}

#[test]
fn test_exit_143_sigterm() {
    let run = run_preserving(&options(), "0.2s", Machine::new(), true);
    assert!([143, 137].contains(&run.code));
}

fn stubborn() -> Machine {
    let mut machine = Machine::exiting(10_000, 0);
    machine.ignores_signals = true;
    machine
}

#[test]
fn test_kill_after_escalation() {
    let options = OwnedArgs { kill_after: some("0.3s"), ..options() };
    let run = run(&options, "0.3s", stubborn());
    assert_eq!(run.code, 124);
    assert!(run.took_ms >= 500, "killed too early");
    assert!(run.took_ms < 3_000, "took too long");
    assert_eq!(run.machine.sent, vec![(Signal::SIGTERM, true), (Signal::SIGKILL, true)]);
}

#[test]
fn test_kill_after_not_needed() {
    let options = OwnedArgs { kill_after: some("5s"), ..options() };
    let run = run(&options, "0.3s", Machine::exiting(10_000, 0));
    assert_eq!(run.code, 124);
    assert!(run.took_ms < 1_000);
    assert!(matches!(run.result, Some(RunResult::TimedOut { killed: false, .. })));
}

#[test]
fn test_kill_after_with_preserve_status() {
    let options = OwnedArgs { kill_after: some("0.2s"), ..options() };
    let run = run_preserving(&options, "0.2s", stubborn(), true);
    assert_eq!(run.code, 137);
    assert!(matches!(run.result, Some(RunResult::TimedOut { killed: true, .. })));
}

#[test]
fn test_kill_after_zero_escalates_immediately_zero_grace() {
    let options = OwnedArgs { kill_after: some("0"), ..options() };
    let run = run(&options, "1s", stubborn());
    assert_eq!(run.took_ms, 1_000);
    assert_eq!(run.code, 124);
    assert_eq!(run.machine.sent, vec![(Signal::SIGTERM, true), (Signal::SIGKILL, true)]);
}

#[test]
fn without_kill_after_a_stubborn_command_is_waited_for() {
    let run = run(&options(), "1s", stubborn());
    assert_eq!(run.took_ms, 10_000);
    assert_eq!(run.code, 124);
    assert_eq!(run.machine.sent, vec![(Signal::SIGTERM, true)]);
}

#[test]
fn test_verbose_output() {
    let run = run(&OwnedArgs { verbose: true, ..options() }, "0.2s", Machine::new());
    assert_eq!(run.code, 124);
    assert!(run.machine.said("sending signal"));
    assert_eq!(
        run.machine.lines,
        vec![
            "timeout: triggered by wall clock".to_string(),
            "timeout: sending signal SIGTERM to command".to_string(),
        ]
    );
}

#[test]
fn test_verbose_shows_signal_name() {
    let options = OwnedArgs { verbose: true, signal: "HUP".to_string(), ..options() };
    let run = run(&options, "0.2s", Machine::new());
    assert_eq!(run.code, 124);
    assert!(run.machine.said("SIGHUP"));
}

#[test]
fn test_verbose_with_kill_after() {
    let options = OwnedArgs { verbose: true, kill_after: some("0.2s"), ..options() };
    let run = run(&options, "0.2s", stubborn());
    assert_eq!(run.code, 124);
    assert!(run.machine.said("SIGTERM"));
    assert!(run.machine.said("SIGKILL"));
}

#[test]
fn test_foreground_mode() {
    let run = run(&OwnedArgs { foreground: true, ..options() }, "5s", Machine::exiting(1, 0));
    assert_eq!(run.code, 0);
    assert!(!run.machine.requests[0].2, "no process group");
}

#[test]
fn test_foreground_timeout() {
    let run = run(&OwnedArgs { foreground: true, ..options() }, "0.3s", Machine::new());
    assert_eq!(run.code, 124);
    assert_eq!(run.machine.sent, vec![(Signal::SIGTERM, false)]);
}

#[test]
fn test_exit_124_on_timeout() {
    assert_eq!(run(&options(), "0.1s", Machine::new()).code, 124);
}

#[test]
fn test_exit_125_on_internal_error() {
    assert_eq!(run(&options(), "invalid", Machine::new()).code, 125);
}

#[test]
fn test_exit_126_permission_denied() {
    let mut machine = Machine::new();
    machine.spawn_error = Some(SpawnError::PermissionDenied("/dev/null".to_string()));
    let run = run(&options(), "5s", machine);
    assert_eq!(run.code, 126);
    assert!(run.machine.said("permission denied"));
}

#[test]
fn test_exit_127_command_not_found() {
    let mut machine = Machine::new();
    machine.spawn_error =
        Some(SpawnError::NotFound("nonexistent_command_xyz_12345".to_string()));
    let run = run(&options(), "5s", machine);
    assert_eq!(run.code, 127);
    assert!(run.machine.said("not found"));
}

#[test]
fn other_spawn_errors_are_internal() {
    for error in [SpawnError::Spawn(12), SpawnError::Wait(10), SpawnError::InvalidArg] {
        let mut machine = Machine::new();
        machine.spawn_error = Some(error);
        assert_eq!(run(&options(), "5s", machine).code, 125);
    }
}

#[test]
fn test_quiet_suppresses_errors() {
    let mut machine = Machine::new();
    machine.spawn_error =
        Some(SpawnError::NotFound("nonexistent_command_xyz_12345".to_string()));
    let run = run(&OwnedArgs { quiet: true, ..options() }, "5s", machine);
    assert_eq!(run.code, 127);
    assert!(run.machine.lines.is_empty());
}

#[test]
fn test_timeout_exit_code_custom() {
    let options = OwnedArgs { timeout_exit_code: Some(42), ..options() };
    assert_eq!(run(&options, "0.1s", Machine::new()).code, 42);
}

#[test]
fn test_timeout_exit_code_not_used_on_normal_exit() {
    let options = OwnedArgs { timeout_exit_code: Some(42), ..options() };
    assert_eq!(run(&options, "5s", Machine::exiting(1, 7)).code, 7);
}

#[test]
fn test_script_with_exit_code() {
    for code in [0, 1, 255] {
        assert_eq!(run(&options(), "5s", Machine::exiting(1, code)).code, code as u8);
    }
}

#[test]
fn test_very_short_timeout() {
    let run = run(&options(), "0.01s", Machine::new());
    assert_eq!(run.code, 124);
    assert!(run.took_ms < 500);
}

#[test]
fn test_race_very_short_timeouts() {
    for i in 0..50 {
        assert_eq!(run(&options(), "0.001s", Machine::new()).code, 124);
        let duration = format!("0.00{}s", (i % 9) + 1);
        assert_eq!(run(&options(), &duration, Machine::new()).code, 124);
    }
}

#[test]
fn test_race_command_exits_immediately() {
    for code in [0, 1, 42, 127, 255] {
        assert_eq!(run(&options(), "10s", Machine::exiting(0, code)).code, code as u8);
    }
}

#[test]
fn test_confine_active_timeout_works() {
    let options = OwnedArgs { confine: Confine::Active, ..options() };
    let run = run(&options, "0.5s", Machine::new());
    assert_eq!(run.code, 124);
    assert!(run.took_ms >= 400, "timed out too early");
    assert!(run.took_ms < 2_000, "took too long to timeout");
}

#[test]
fn sleep_counts_on_the_wall_clock_only() {
    for (confine, awake_ms) in [(Confine::Wall, 200), (Confine::Active, 500)] {
        /* with a limit on memory there is something to look at every 100 ms */
        let options = OwnedArgs { confine, mem_limit: some("1G"), ..options() };
        let mut machine = Machine::new();
        machine.sleeps_at = Some((machine.now + 100 * MS, 300 * MS));
        let run = run(&options, "0.5s", machine);
        assert_eq!(run.code, 124);
        assert_eq!(run.took_ms, awake_ms);
        assert_eq!(run.machine.slept, 300 * MS);
    }
}

/* Signals that are passed on. */

#[test]
fn test_signal_forwarding_sigterm() {
    let mut machine = Machine::exiting(60_000, 0);
    machine.signal_at = Some((machine.now + 200 * MS, 15));
    let run = run(&options(), "60s", machine);
    assert!(run.took_ms < 5_000);
    assert_ne!(run.code, 124);
    assert_eq!(run.code, 143);
    assert_eq!(run.machine.sent, vec![(Signal::SIGTERM, true)]);
}

#[test]
fn test_signal_forwarding_sigint() {
    let mut machine = Machine::exiting(60_000, 0);
    machine.signal_at = Some((machine.now + 200 * MS, 2));
    let run = run(&options(), "60s", machine);
    assert!(run.took_ms < 5_000);
    assert_ne!(run.code, 124);
    assert_eq!(run.machine.sent, vec![(Signal::SIGINT, true)]);
}

#[test]
fn test_signal_forwarding_reports_correct_signal() {
    let mut machine = Machine::exiting(100_000, 0);
    machine.signal_at = Some((machine.now + 200 * MS, 2));
    let run = run(&OwnedArgs { verbose: true, ..options() }, "30s", machine);
    assert!(run.machine.said("SIGINT"));
    assert_eq!(run.machine.lines, vec!["timeout: forwarding signal SIGINT to command".to_string()]);
}

#[test]
fn signal_during_grace_is_passed_on() {
    let mut machine = stubborn();
    machine.exits_after = Some((900 * MS, 3 << 8));
    machine.signal_at = Some((machine.now + 500 * MS, 1));
    let options = OwnedArgs { kill_after: some("5s"), verbose: true, ..options() };
    let run = run(&options, "0.3s", machine);
    assert_eq!(run.machine.sent, vec![(Signal::SIGTERM, true), (Signal::SIGHUP, true)]);
    assert!(matches!(
        run.result,
        Some(RunResult::SignalForwarded { signal: Signal::SIGHUP, status: Some(_), .. })
    ));
    assert_eq!(run.code, 3);
    assert!(run.machine.said("forwarding signal SIGHUP"));
}

#[test]
fn signal_during_grace_after_memory_limit_kills() {
    let mut machine = stubborn();
    machine.memory = 100 * 1024 * 1024;
    machine.signal_at = Some((machine.now + 500 * MS, 1));
    let options = OwnedArgs { kill_after: some("5s"), mem_limit: some("1M"), ..options() };
    let run = run(&options, "10s", machine);
    assert_eq!(run.machine.sent, vec![(Signal::SIGTERM, true), (Signal::SIGKILL, true)]);
    assert!(matches!(run.result, Some(RunResult::MemoryLimitExceeded { killed: true, .. })));
    assert_eq!(run.took_ms, 500);
}

/* The hook. */

#[test]
fn test_on_timeout_runs_hook() {
    let options = OwnedArgs { on_timeout: some("touch /tmp/timeout_hook_test"), ..options() };
    let run = run(&options, "0.1s", Machine::new());
    assert_eq!(run.code, 124);
    assert_eq!(run.machine.hooks, vec!["touch /tmp/timeout_hook_test".to_string()]);
}

#[test]
fn test_on_timeout_not_run_on_success() {
    let options =
        OwnedArgs { on_timeout: some("touch /tmp/timeout_hook_no_run_test"), ..options() };
    let run = run(&options, "5s", Machine::exiting(1, 0));
    assert_eq!(run.code, 0);
    assert!(run.machine.hooks.is_empty(), "hook should NOT have run");
}

fn hook_of(run: &Run) -> HookResult {
    match run.result {
        Some(RunResult::TimedOut { hook: Some(hook), .. }) => hook,
        _ => panic!("expected a timeout with a hook"),
    }
}

#[test]
fn test_on_timeout_limit() {
    let options = OwnedArgs {
        on_timeout: some("sleep 10"),
        on_timeout_limit: "0.2s".to_string(),
        ..options()
    };
    let mut machine = Machine::new();
    machine.hook = (10_000 * MS, 0);
    let run = run(&options, "0.1s", machine);
    assert_eq!(run.code, 124);
    assert!(run.took_ms < 2_000, "hook should have been limited");
    assert!(run.machine.hook_killed);
    let hook = hook_of(&run);
    assert!(hook.ran && hook.timed_out && hook.exit_code.is_none());
    assert_eq!(hook.elapsed_ms, 200);
}

#[test]
fn test_on_timeout_verbose() {
    let options = OwnedArgs { verbose: true, on_timeout: some("true"), ..options() };
    let run = run(&options, "0.1s", Machine::new());
    assert_eq!(run.code, 124);
    assert!(run.machine.said("on-timeout hook"));
    assert_eq!(
        run.machine.lines[..3],
        [
            /* the limit of five seconds is the default */
            "warning: --on-timeout-limit (5s) exceeds main timeout (0.1s)".to_string(),
            "timeout: triggered by wall clock".to_string(),
            "timeout: running on-timeout hook: true".to_string(),
        ]
    );
}

#[test]
fn test_on_timeout_pid_substitution() {
    let options = OwnedArgs { on_timeout: some("echo %p > /tmp/timeout_pid_test"), ..options() };
    let run = run(&options, "0.1s", Machine::new());
    assert_eq!(run.machine.hooks, vec![format!("echo {PID} > /tmp/timeout_pid_test")]);
}

#[test]
fn test_on_timeout_percent_escape() {
    let options =
        OwnedArgs { on_timeout: some("echo '100%%' > /tmp/timeout_percent_test"), ..options() };
    let run = run(&options, "0.1s", Machine::new());
    assert_eq!(run.code, 124);
    assert!(run.machine.hooks[0].contains("100%"), "should contain literal %");
    assert_eq!(run.machine.hooks[0], "echo '100%' > /tmp/timeout_percent_test");
}

#[test]
fn test_on_timeout_limit_warning() {
    let options = OwnedArgs {
        on_timeout: some("true"),
        on_timeout_limit: "60s".to_string(),
        ..options()
    };
    let run = run(&options, "1s", Machine::exiting(1, 0));
    assert_eq!(run.code, 0);
    assert!(run.machine.said("warning"));
    assert!(run.machine.said("exceeds"));
}

#[test]
fn failing_hook_is_reported_and_does_not_matter() {
    let options = OwnedArgs { verbose: true, on_timeout: some("false"), ..options() };
    let mut machine = Machine::new();
    machine.hook = (2 * MS, 1 << 8);
    let first = run(&options, "10s", machine);
    assert_eq!(first.code, 124);
    assert!(hook_of(&first).ran);
    assert_eq!(hook_of(&first).exit_code, Some(1));
    assert_eq!(hook_of(&first).elapsed_ms, 2);
    assert!(first.machine.said("timeout: on-timeout hook exited with code 1"));

    let mut machine = Machine::new();
    machine.hook_error = true;
    let second = run(&options, "10s", machine);
    assert_eq!(second.code, 124);
    assert!(!hook_of(&second).ran);
    assert!(second.machine.said("on-timeout hook failed to start: spawn failed: errno 35"));
    assert_eq!(second.machine.sent, vec![(Signal::SIGTERM, true)]);
}

/* Retries. */

#[test]
fn test_retry_no_timeout_no_retry() {
    let run = run(&OwnedArgs { retry: some("3"), ..options() }, "5s", Machine::exiting(1, 0));
    assert_eq!(run.code, 0);
    assert_eq!(run.attempts, 1);
}

#[test]
fn test_retry_timeout_triggers_retry() {
    let options = OwnedArgs { retry: some("1"), verbose: true, ..options() };
    let run = run(&options, "0.1s", Machine::new());
    assert_eq!(run.attempts, 2);
    assert!(run.machine.said("retry"));
    assert!(run.machine.said("timeout: attempt 1 timed out, retry delay 0ms"));
}

#[test]
fn test_retry_respects_retry_count() {
    let run = run(&OwnedArgs { retry: some("2"), ..options() }, "0.1s", Machine::new());
    assert_eq!(run.attempts, 3);
    assert!(run.took_ms >= 280);
    assert!(run.took_ms < 1_000);
}

#[test]
fn test_retry_delay() {
    let options = OwnedArgs { retry: some("1"), retry_delay: some("200ms"), ..options() };
    let run = run(&options, "0.1s", Machine::new());
    assert!(run.took_ms >= 380, "should include retry delay");
    assert_eq!(run.took_ms, 400);
}

#[test]
fn test_retry_backoff() {
    let options = OwnedArgs {
        retry: some("2"),
        retry_delay: some("100ms"),
        retry_backoff: some("2x"),
        ..options()
    };
    let run = run(&options, "50ms", Machine::new());
    assert!(run.took_ms >= 400, "should include exponential backoff delays");
    assert_eq!(run.took_ms, 450);
}

#[test]
fn test_retry_does_not_retry_on_success() {
    let run = run(&OwnedArgs { retry: some("3"), ..options() }, "5s", Machine::exiting(1, 1));
    assert_eq!(run.attempts, 1);
    assert_eq!(run.code, 1);
}

#[test]
fn retries_are_capped() {
    let options = OwnedArgs { retry: some("4000000000"), verbose: true, ..options() };
    let run = run(&options, "1ms", Machine::new());
    assert_eq!(run.attempts, 32);
    assert_eq!(run.machine.spawned, 32);
    let request = ("sleep".to_string(), vec!["10".to_string()], true, false);
    assert!(run.machine.requests.iter().all(|r| *r == request));
    assert_eq!(
        run.machine.lines[0],
        "timeout: warning: retry count 4000000000 capped to maximum 31"
    );
}

#[test]
fn signal_during_the_delay_ends_the_retries() {
    let options = OwnedArgs { retry: some("5"), retry_delay: some("10s"), ..options() };
    let mut machine = Machine::new();
    machine.signal_at = Some((machine.now + 3_000 * MS, 1));
    let run = run(&options, "1s", machine);
    assert_eq!(run.took_ms, 3_000);
    assert_eq!(run.attempts, 1);
    assert_eq!(run.code, 129);
    assert!(matches!(
        run.result,
        Some(RunResult::SignalForwarded { signal: Signal::SIGHUP, status: None, rusage: None })
    ));
}

#[test]
fn errors_are_not_retried() {
    let mut machine = Machine::new();
    machine.spawn_error = Some(SpawnError::NotFound("x".to_string()));
    let run = run(&OwnedArgs { retry: some("5"), ..options() }, "1s", machine);
    assert_eq!(run.machine.spawned, 1);
    assert_eq!(run.code, 127);
}

#[test]
fn memory_limit_is_retried_like_a_timeout() {
    let mut machine = Machine::new();
    machine.memory = 2048;
    let options = OwnedArgs { retry: some("2"), mem_limit: some("1K"), ..options() };
    let run = run(&options, "1m", machine);
    assert_eq!(run.attempts, 3);
    assert!(matches!(run.result, Some(RunResult::MemoryLimitExceeded { .. })));
}

/* Heartbeats. */

#[test]
fn test_heartbeat_prints_status() {
    let run = run(&OwnedArgs { heartbeat: some("500ms"), ..options() }, "2s", Machine::new());
    assert!(run.machine.said("timeout: heartbeat:"));
    assert!(run.machine.said("elapsed, command still running"));
    assert!(run.machine.said("pid"));
    assert_eq!(
        run.machine.lines,
        vec![
            "timeout: heartbeat: 0s elapsed, command still running (pid 4242)".to_string(),
            "timeout: heartbeat: 1s elapsed, command still running (pid 4242)".to_string(),
            "timeout: heartbeat: 1s elapsed, command still running (pid 4242)".to_string(),
        ]
    );
}

#[test]
fn heartbeat_shows_minutes() {
    let run = run(&OwnedArgs { heartbeat: some("125s"), ..options() }, "3m", Machine::new());
    assert_eq!(
        run.machine.lines,
        vec!["timeout: heartbeat: 2m 5s elapsed, command still running (pid 4242)".to_string()]
    );
}

#[test]
fn test_heartbeat_quiet_suppresses() {
    let options = OwnedArgs { heartbeat: some("200ms"), quiet: true, ..options() };
    let run = run(&options, "1s", Machine::new());
    assert!(!run.machine.said("heartbeat"));
    assert_eq!(run.took_ms, 1_000);
}

#[test]
fn test_heartbeat_no_output_before_interval() {
    let options = OwnedArgs { heartbeat: some("5s"), ..options() };
    let run = run(&options, "10s", Machine::exiting(4, 0));
    assert!(!run.machine.said("heartbeat"));
    assert_eq!(run.code, 0);
}

#[test]
fn test_heartbeat_elapsed_time_format() {
    let run = run(&OwnedArgs { heartbeat: some("500ms"), ..options() }, "1.5s", Machine::new());
    assert!(run.machine.said("s elapsed"));
}

#[test]
fn test_heartbeat_with_confine_active() {
    let options =
        OwnedArgs { heartbeat: some("500ms"), confine: Confine::Active, ..options() };
    assert!(run(&options, "1.5s", Machine::new()).machine.said("timeout: heartbeat:"));
}

#[test]
fn test_heartbeat_with_zero_duration() {
    let options = OwnedArgs { heartbeat: some("200ms"), ..options() };
    let run = run(&options, "0", Machine::exiting(1_000, 0));
    assert_eq!(run.code, 0);
    assert!(run.machine.said("timeout: heartbeat:"));
    assert_eq!(run.machine.lines.len(), 4);
}

/* Idle input. */

fn reason_of(run: &Run) -> TimeoutReason {
    match run.result {
        Some(RunResult::TimedOut { reason, .. }) => reason,
        _ => panic!("expected a timeout"),
    }
}

fn idle_options(limit: &str) -> OwnedArgs {
    OwnedArgs { stdin_timeout: some(limit), ..options() }
}

#[test]
fn test_stdin_timeout_triggers() {
    let run = run(&idle_options("200ms"), "60s", Machine::exiting(60_000, 0));
    assert_eq!(run.code, 124, "should timeout due to stdin idle");
    assert_eq!(reason_of(&run), TimeoutReason::StdinIdle);
    assert_eq!(run.took_ms, 200);
}

#[test]
fn test_stdin_timeout_not_triggered_on_fast_exit() {
    assert_eq!(run(&idle_options("60s"), "60s", Machine::exiting(1, 0)).code, 0);
}

#[test]
fn test_stdin_timeout_verbose() {
    let options = OwnedArgs { verbose: true, ..idle_options("100ms") };
    let run = run(&options, "60s", Machine::new());
    assert_eq!(run.code, 124);
    assert!(run.machine.said("timeout: triggered by stdin idle"));
}

#[test]
fn test_stdin_timeout_quiet() {
    let options = OwnedArgs { quiet: true, ..idle_options("100ms") };
    let run = run(&options, "60s", Machine::new());
    assert_eq!(run.code, 124);
    assert!(run.machine.lines.is_empty());
}

#[test]
fn test_stdin_timeout_with_wall_timeout() {
    let run = run(&idle_options("100ms"), "60s", Machine::new());
    assert_eq!(run.code, 124);
    assert!(run.took_ms < 5_000);
}

#[test]
fn test_stdin_timeout_wall_timeout_fires_first() {
    let run = run(&idle_options("60s"), "100ms", Machine::new());
    assert_eq!(run.code, 124);
    assert_eq!(reason_of(&run), TimeoutReason::WallClock);
}

#[test]
fn test_stdin_timeout_with_heartbeat() {
    let options = OwnedArgs { heartbeat: some("50ms"), ..idle_options("200ms") };
    let run = run(&options, "60s", Machine::new());
    assert_eq!(run.code, 124);
    assert!(run.machine.said("heartbeat"));
}

#[test]
fn test_stdin_timeout_dev_null_no_busy_loop() {
    let mut machine = Machine::new();
    machine.input = Input::Null;
    let run = run(&idle_options("50ms"), "200ms", machine);
    assert_eq!(run.code, 124);
    assert!(run.took_ms >= 150, "should wait for wall clock timeout");
    assert_eq!(reason_of(&run), TimeoutReason::WallClock);
    assert_eq!(run.machine.drained, 1);
}

#[test]
fn test_stdin_timeout_closed_stdin_graceful() {
    let mut machine = Machine::new();
    machine.input = Input::Closed;
    let run = run(&idle_options("50ms"), "200ms", machine);
    assert_eq!(run.code, 124);
    assert!(run.took_ms >= 150);
    assert_eq!(reason_of(&run), TimeoutReason::WallClock);
}

#[test]
fn test_stdin_timeout_with_retry() {
    let options = OwnedArgs { retry: some("1"), ..idle_options("100ms") };
    let run = run(&options, "60s", Machine::new());
    assert_eq!(run.code, 124);
    assert_eq!(run.attempts, 2);
    assert_eq!(reason_of(&run), TimeoutReason::StdinIdle);
    assert!(run.took_ms < 2_000);
}

#[test]
fn test_stdin_timeout_retry_with_dev_null() {
    let mut machine = Machine::new();
    machine.input = Input::Null;
    let options = OwnedArgs { retry: some("1"), ..idle_options("50ms") };
    let run = run(&options, "100ms", machine);
    assert_eq!(run.code, 124);
    assert_eq!(run.attempts, 2);
    assert_eq!(reason_of(&run), TimeoutReason::WallClock);
    assert!(run.took_ms >= 150);
}

#[test]
fn test_stdin_timeout_with_zero_duration() {
    let run = run(&idle_options("200ms"), "0", Machine::exiting(60_000, 0));
    assert_eq!(run.code, 124, "stdin idle timeout should fire with duration 0");
}

#[test]
fn busy_input_never_times_out() {
    let mut machine = Machine::exiting(2_000, 0);
    machine.next_line = machine.now;
    machine.input = Input::Busy(50 * MS);
    let run = run(&idle_options("100ms"), "60s", machine);
    assert_eq!(run.code, 0);
    assert!(run.machine.drained >= 39);
}

#[test]
fn input_that_hangs_up_is_not_watched_any_more() {
    let mut machine = Machine::exiting(2_000, 0);
    machine.input = Input::HangsUp(machine.now + 50 * MS);
    let run = run(&idle_options("100ms"), "60s", machine);
    assert_eq!(run.code, 0);
    assert_eq!(run.machine.drained, 0);
}

fn passthrough(limit: &str) -> OwnedArgs {
    OwnedArgs { stdin_passthrough: true, ..idle_options(limit) }
}

#[test]
fn test_stdin_passthrough_keeps_data_for_child() {
    let mut machine = Machine::exiting(20, 0);
    machine.next_line = machine.now;
    machine.input = Input::Busy(10 * MS);
    let run = run(&passthrough("5s"), "5s", machine);
    assert_eq!(run.code, 0);
    assert_eq!(run.machine.drained, 0, "input is left for the command");
}

#[test]
fn test_stdin_passthrough_times_out_on_idle() {
    let run = run(&passthrough("0.2s"), "5s", Machine::exiting(10_000, 0));
    assert_eq!(run.code, 124);
    assert_eq!(reason_of(&run), TimeoutReason::StdinIdle);
}

#[test]
fn test_stdin_passthrough_eof_no_false_timeout() {
    let mut machine = Machine::exiting(500, 0);
    machine.input = Input::HangsUp(machine.now);
    let run = run(&passthrough("0.2s"), "5s", machine);
    assert_eq!(run.code, 0);
    assert_eq!(run.machine.drained, 0);
}

#[test]
fn passthrough_without_an_idle_limit_is_refused() {
    let options = OwnedArgs { stdin_passthrough: true, ..options() };
    let run = run(&options, "5s", Machine::new());
    assert_eq!(run.code, 125);
    assert!(run.machine.said("--stdin-passthrough requires --stdin-timeout"));
}

/* Resource limits. */

#[test]
fn test_mem_limit_flag_accepted() {
    let run = run(&OwnedArgs { mem_limit: some("1G"), ..options() }, "5s", Machine::exiting(1, 0));
    assert_eq!(run.code, 0);
}

#[test]
fn test_mem_limit_invalid_negative() {
    let run = run(&OwnedArgs { mem_limit: some("-1"), ..options() }, "5s", Machine::new());
    assert_eq!(run.code, 125);
    assert!(run.machine.said("invalid"));
}

#[test]
fn test_mem_limit_units_accepted() {
    for unit in ["1K", "1KB", "1M", "1MB", "1G", "1GB"] {
        let options = OwnedArgs { mem_limit: some(unit), ..options() };
        assert_eq!(run(&options, "5s", Machine::exiting(1, 0)).code, 0);
    }
}

fn greedy() -> Machine {
    let mut machine = Machine::exiting(10_000, 0);
    machine.memory = 50 * 1024 * 1024;
    machine
}

#[test]
fn test_mem_limit_kills_on_exceed() {
    let options = OwnedArgs { mem_limit: some("5M"), verbose: true, ..options() };
    let run = run(&options, "10s", greedy());
    assert!(matches!(
        run.result,
        Some(RunResult::MemoryLimitExceeded {
            limit_bytes: 5_242_880,
            actual_bytes: 52_428_800,
            killed: false,
            ..
        })
    ));
    assert_ne!(run.code, 0);
    assert_eq!(run.took_ms, 100);
    assert_eq!(
        run.machine.lines,
        vec!["timeout: memory limit exceeded (52428800 bytes > 5242880 bytes limit)".to_string()]
    );
}

#[test]
fn test_mem_limit_kills_on_exceed_zero_duration() {
    let run = run(&OwnedArgs { mem_limit: some("5M"), ..options() }, "0", greedy());
    assert!(matches!(run.result, Some(RunResult::MemoryLimitExceeded { .. })));
    assert_ne!(run.code, 0);
}

#[test]
fn memory_at_the_limit_is_not_too_much() {
    let mut machine = Machine::exiting(350, 0);
    machine.memory = 1024;
    let run = run(&OwnedArgs { mem_limit: some("1K"), ..options() }, "10s", machine);
    assert_eq!(run.code, 0);
}

#[test]
fn test_cpu_percent_flag_accepted() {
    let options = OwnedArgs { cpu_percent: some("99"), ..options() };
    assert_eq!(run(&options, "5s", Machine::exiting(1, 0)).code, 0);
}

#[test]
fn test_cpu_percent_invalid_zero() {
    let options = OwnedArgs { cpu_percent: some("0"), ..options() };
    let run = run(&options, "5s", Machine::new());
    assert_eq!(run.code, 125);
    assert!(run.machine.said("invalid"));
}

#[test]
fn test_cpu_percent_invalid_over_100() {
    let options = OwnedArgs { cpu_percent: some("abc"), ..options() };
    let run = run(&options, "5s", Machine::new());
    assert_eq!(run.code, 125);
    assert!(run.machine.said("invalid"));
}

#[test]
fn test_cpu_percent_throttles_busy_loop() {
    let baseline = run(&options(), "10s", Machine::exiting(1_000, 0)).took_ms;
    let options = OwnedArgs { cpu_percent: some("20"), ..options() };
    let run = run(&options, "10s", Machine::exiting(1_000, 0));
    assert_eq!(run.code, 0);
    assert!(run.took_ms > baseline);
    /* a second of work at a fifth of a core */
    assert!(run.took_ms >= 4_000 && run.took_ms <= 5_100, "took {}", run.took_ms);
    assert!(run.machine.throttle.unwrap().state.exited);
}

#[test]
fn test_cpu_percent_throttles_with_zero_duration() {
    let options = OwnedArgs { cpu_percent: some("20"), ..options() };
    let run = run(&options, "0", Machine::exiting(1_000, 0));
    assert_eq!(run.code, 0);
    assert!(run.took_ms < 15_000);
    assert!(run.took_ms >= 4_000);
}

#[test]
fn throttled_command_is_let_go_before_it_is_told_to_stop() {
    let options = OwnedArgs { cpu_percent: some("1"), quiet: true, ..options() };
    let run = run(&options, "750ms", Machine::exiting(60_000, 0));
    assert_eq!(run.code, 124);
    assert!(!run.machine.stopped);
    assert_eq!(run.machine.sent, vec![(Signal::SIGTERM, true)]);
}

#[test]
fn test_cpu_time_flag_accepted() {
    let options = OwnedArgs { cpu_time: some("60s"), ..options() };
    let run = run(&options, "5s", Machine::exiting(1, 0));
    assert_eq!(run.code, 0);
    assert!(run.machine.requests[0].3, "the limit is set at the start");
}

#[test]
fn test_cpu_time_zero_kills_immediately() {
    /* the kernel sends SIGXCPU */
    let mut machine = Machine::new();
    machine.exits_after = Some((0, 24));
    let options = OwnedArgs { cpu_time: some("0s"), ..options() };
    assert_eq!(run(&options, "5s", machine).code, 152);
}

#[test]
fn low_share_of_processor_time_is_warned_of() {
    let options = OwnedArgs { cpu_percent: some("5"), ..options() };
    let loud = run(&options, "5s", Machine::exiting(1, 0));
    assert_eq!(
        loud.machine.lines,
        vec![
            "warning: --cpu-percent 5 is very low; may cause stuttery execution".to_string()
        ]
    );
    let options = OwnedArgs { quiet: true, ..options };
    assert!(run(&options, "5s", Machine::exiting(1, 0)).machine.lines.is_empty());
    let options = OwnedArgs { quiet: false, cpu_percent: some("10"), ..options };
    assert!(run(&options, "5s", Machine::exiting(1, 0)).machine.lines.is_empty());
}

#[test]
fn first_violation_counts() {
    let options = OwnedArgs {
        mem_limit: some("1M"),
        stdin_timeout: some("50ms"),
        heartbeat: some("20ms"),
        ..options()
    };
    let first = run(&options, "60s", greedy());
    assert_eq!(reason_of(&first), TimeoutReason::StdinIdle);
    let options = OwnedArgs { stdin_timeout: some("500ms"), ..options };
    let second = run(&options, "60s", greedy());
    assert!(matches!(second.result, Some(RunResult::MemoryLimitExceeded { .. })));
    assert_eq!(second.machine.lines.len(), 4);
}

/* Timing, races and arguments. */

#[test]
fn test_timing_precision_100ms() {
    let run = run(&options(), "0.1s", Machine::new());
    assert_eq!(run.code, 124);
    assert!(run.took_ms >= 50 && run.took_ms < 1_000);
    assert_eq!(run.took_ms, 100);
}

#[test]
fn test_timing_precision_500ms() {
    let run = run(&options(), "0.5s", Machine::new());
    assert_eq!(run.code, 124);
    assert!(run.took_ms >= 450 && run.took_ms < 1_500);
    assert_eq!(run.took_ms, 500);
}

#[test]
fn test_timing_precision_1s() {
    let run = run(&options(), "1s", Machine::new());
    assert_eq!(run.code, 124);
    assert!(run.took_ms >= 950 && run.took_ms < 1_200);
    assert_eq!(run.took_ms, 1_000);
}

#[test]
fn test_fast_command_no_delay() {
    let run = run(&options(), "60s", Machine::exiting(2, 0));
    assert_eq!(run.code, 0);
    assert!(run.took_ms < 500, "simple echo took too long");
}

#[test]
fn test_kills_child_processes() {
    let run = run(&options(), "0.3s", Machine::exiting(100_000, 0));
    assert_eq!(run.code, 124);
    assert!(run.took_ms < 2_000);
    assert_eq!(run.machine.sent, vec![(Signal::SIGTERM, true)], "the group gets the signal");
}

#[test]
fn test_foreground_does_not_kill_children() {
    let run = run(&OwnedArgs { foreground: true, ..options() }, "0.3s", Machine::new());
    assert_eq!(run.code, 124);
    assert!(run.machine.sent.iter().all(|(_, group)| !group));
}

#[test]
fn test_process_group_signal_fallback() {
    let mut warnings = Vec::new();
    let config = match RunConfig::from_args(&options(), "0.05s", &mut warnings) {
        Ok(config) => config,
        Err(error) => panic!("{}", error.message()),
    };
    let args = ["-c".to_string(), "sleep 100 & wait".to_string()];
    for group_gone in [false, true] {
        for _ in 0..30 {
            let mut machine = Machine::exiting(100_000, 0);
            machine.group_gone = group_gone;
            let start = machine.now;
            let (result, _) = machine.retry("sh", &args, &config).expect("it runs");
            assert_eq!(result.exit_code(false, config.timeout_exit_code), 124);
            assert!(machine.now - start < 2_000 * MS, "process group signal may have failed");
            assert_eq!(machine.now - start, 50 * MS);
            assert_eq!(machine.requests, vec![("sh".to_string(), args.to_vec(), true, false)]);
            assert_eq!(machine.sent, vec![(Signal::SIGTERM, !group_gone)]);
        }
    }
}

#[test]
fn test_foreground_signal_no_process_group() {
    for _ in 0..30 {
        let run = run(&OwnedArgs { foreground: true, ..options() }, "0.05s", Machine::new());
        assert_eq!(run.code, 124);
        assert_eq!(run.machine.sent, vec![(Signal::SIGTERM, false)]);
    }
}

#[test]
fn test_curl_simulation() {
    assert_eq!(run(&options(), "0.3s", Machine::exiting(10_000, 0)).code, 124);
}

#[test]
fn test_rapid_succession() {
    for _ in 0..3 {
        assert_eq!(run(&options(), "0.1s", Machine::exiting(10_000, 0)).code, 124);
    }
}

#[test]
fn test_race_fast_exiting_commands() {
    for _ in 0..100 {
        assert_eq!(run(&options(), "10s", Machine::exiting(0, 0)).code, 0);
    }
}

#[test]
fn test_confine_wall_mode_accepted() {
    let options = OwnedArgs { confine: Confine::Wall, ..options() };
    assert_eq!(run(&options, "5s", Machine::exiting(1, 0)).code, 0);
}

#[test]
fn test_confine_active_mode_accepted() {
    let options = OwnedArgs { confine: Confine::Active, ..options() };
    assert_eq!(run(&options, "5s", Machine::exiting(1, 0)).code, 0);
}

#[test]
fn test_stdin_timeout_null_stdin_no_cpu_spike() {
    let mut machine = Machine::new();
    machine.input = Input::Null;
    let run = run(&idle_options("50ms"), "200ms", machine);
    assert_eq!(run.code, 124);
    assert!(run.took_ms >= 150, "should wait for wall clock timeout");
}

#[test]
fn test_stdin_timeout_combined_flags() {
    let options = OwnedArgs { verbose: true, ..idle_options("100ms") };
    let run = run(&options, "60s", Machine::new());
    assert_eq!(run.code, 124);
    assert!(!run.machine.lines.is_empty(), "verbose should produce output");
}

#[test]
fn test_cpu_time_kills_cpu_intensive() {
    /* the kernel sends SIGXCPU after a second of work */
    let mut machine = Machine::new();
    machine.exits_after = Some((1_000 * MS, 24));
    let options = OwnedArgs { cpu_time: some("1s"), ..options() };
    let run = run(&options, "30s", machine);
    assert!(run.took_ms < 10_000);
    assert!([152, 137, 124].contains(&run.code));
}

fn starts_with(command: &str, args: &[&str]) -> (String, Vec<String>) {
    let args: Vec<String> = args.iter().map(|a| a.to_string()).collect();
    let mut machine = Machine::exiting(1, 0);
    let config = RunConfig { timeout: Duration::from_secs(5), ..RunConfig::default() };
    assert!(machine.command(command, &args, &config).is_ok());
    let (command, args, _, _) = machine.requests.remove(0);
    (command, args)
}

#[test]
fn test_command_with_arguments() {
    let (command, args) = starts_with("echo", &["arg1", "arg2", "arg3"]);
    assert_eq!(command, "echo");
    assert_eq!(args.join(" "), "arg1 arg2 arg3");
}

#[test]
fn test_command_with_spaces_in_args() {
    let (_, args) = starts_with("echo", &["hello world", "foo bar"]);
    assert_eq!(args, vec!["hello world".to_string(), "foo bar".to_string()]);
}

#[test]
fn test_long_argument_list() {
    let many: Vec<String> = (0..100).map(|i| format!("arg{i}")).collect();
    let many: Vec<&str> = many.iter().map(String::as_str).collect();
    let (_, args) = starts_with("echo", &many);
    assert_eq!(args.len(), 100);
    assert_eq!(args[0], "arg0");
    assert_eq!(args[99], "arg99");
}
