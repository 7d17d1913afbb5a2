//! Running a command once.

use vstd::prelude::*;

use crate::config::RunConfig;
use crate::error::{InternalError, SpawnError, TimeoutError};
use crate::outcome::RunResult;
use crate::process::{RawExitStatus, ResourceUsage};
use crate::rlimit::ResourceLimits;
use crate::time::is_no_timeout;
use crate::wait::{wait_error, wait_failure};

verus! {

/// A command to be started.
#[derive(Debug)]
pub struct SpawnRequest {
    pub command: String,
    pub args: Vec<String>,
    /// Does it get a process group of its own?
    pub use_process_group: bool,
    /// Limits to be set before it starts, if there are any.
    pub limits: Option<ResourceLimits>,
}

/// What a run is in the middle of.
#[derive(Clone, Copy, Debug, PartialEq, Eq, Structural)]
pub enum CommandPhase {
    Spawning,
    Reaping,
    Monitoring,
    Done,
}

/// What a run wants done.
#[derive(Debug)]
pub enum CommandAction {
    /// Start the command.
    Spawn(SpawnRequest),
    /// Collect the command.
    Reap,
    /// Watch over the command, to the end.
    Monitor { pid: i32 },
    /// It is over.
    Return(Result<RunResult, TimeoutError>),
}

/// What came of a [`CommandAction`].
#[derive(Debug)]
pub enum CommandEvent {
    /// The command's number.
    Spawned(Result<i32, SpawnError>),
    Reaped(Result<(RawExitStatus, ResourceUsage), SpawnError>),
    Monitored(Result<RunResult, TimeoutError>),
}

/// A run of a command.
#[derive(Clone, Copy, Debug, PartialEq, Eq, Structural)]
pub struct CommandRun {
    pub phase: CommandPhase,
}

/// The error that a command that cannot be started stands for.
pub open spec fn spawn_failure(e: SpawnError) -> TimeoutError {
    match e {
        SpawnError::NotFound(s) => TimeoutError::CommandNotFound(s),
        SpawnError::PermissionDenied(s) => TimeoutError::PermissionDenied(s),
        SpawnError::Spawn(errno) => TimeoutError::SpawnError(errno),
        SpawnError::Wait(errno) => TimeoutError::SpawnError(errno),
        SpawnError::InvalidArg => TimeoutError::Internal(InternalError::InvalidArgument),
    }
}

/// The error that a command that cannot be started stands for.
fn spawn_error(e: SpawnError) -> (error: TimeoutError)
    ensures
        error == spawn_failure(e),
{
    match e {
        SpawnError::NotFound(s) => TimeoutError::CommandNotFound(s),
        SpawnError::PermissionDenied(s) => TimeoutError::PermissionDenied(s),
        SpawnError::Spawn(errno) => TimeoutError::SpawnError(errno),
        SpawnError::Wait(errno) => TimeoutError::SpawnError(errno),
        SpawnError::InvalidArg => TimeoutError::Internal(InternalError::InvalidArgument),
    }
}

impl RunConfig {
    /// Is there anything to watch but the exit of the command?
    pub open spec fn watches(self) -> bool {
        ||| self.timeout.total_ns() > 0
        ||| self.limits.mem_bytes is Some
        ||| self.cpu_throttle is Some
        ||| self.heartbeat is Some
        ||| self.stdin_timeout is Some
    }

    /// Is there anything to watch but the exit of the command?
    pub fn needs_monitor(&self) -> (yes: bool)
        ensures
            yes == self.watches(),
    {
        !is_no_timeout(&self.timeout) || self.limits.mem_bytes.is_some()
            || self.cpu_throttle.is_some() || self.heartbeat.is_some()
            || self.stdin_timeout.is_some()
    }
}

impl SpawnRequest {
    /// Is this the request for `command` with `args`?
    pub open spec fn starts(self, command: Seq<char>, args: Seq<String>, config: RunConfig) -> bool {
        &&& self.command@ == command
        &&& self.args@ == args
        &&& self.use_process_group == !config.foreground
        &&& self.limits == if config.limits.unlimited() {
            None
        } else {
            Some(config.limits)
        }
    }
}

impl CommandRun {
    /// Is `event` what came of the action last asked for?
    pub open spec fn awaits(self, event: CommandEvent) -> bool {
        match self.phase {
            CommandPhase::Spawning => event is Spawned,
            CommandPhase::Reaping => event is Reaped,
            CommandPhase::Monitoring => event is Monitored,
            CommandPhase::Done => false,
        }
    }

    /// It is over.
    pub open spec fn over(self, result: Result<RunResult, TimeoutError>) -> (
        CommandRun,
        CommandAction,
    ) {
        (CommandRun { phase: CommandPhase::Done }, CommandAction::Return(result))
    }

    /// What the run knows and wants after an event.
    pub open spec fn next(self, event: CommandEvent, config: RunConfig) -> (
        CommandRun,
        CommandAction,
    ) {
        match event {
            CommandEvent::Spawned(Ok(pid)) => if config.watches() {
                (
                    CommandRun { phase: CommandPhase::Monitoring },
                    CommandAction::Monitor { pid },
                )
            } else {
                (CommandRun { phase: CommandPhase::Reaping }, CommandAction::Reap)
            },
            CommandEvent::Spawned(Err(e)) => self.over(Err(spawn_failure(e))),
            CommandEvent::Reaped(Ok((status, rusage))) => self.over(
                Ok(RunResult::Completed { status, rusage }),
            ),
            CommandEvent::Reaped(Err(e)) => self.over(Err(wait_failure(e))),
            CommandEvent::Monitored(result) => self.over(result),
        }
    }

    /// Goes on with what came of the action last asked for.
    pub fn step(self, event: CommandEvent, config: &RunConfig) -> (next: (
        CommandRun,
        CommandAction,
    ))
        requires
            self.awaits(event),
        ensures
            next == self.next(event, *config),
    {
        match event {
            CommandEvent::Spawned(Ok(pid)) => {
                if config.needs_monitor() {
                    (
                        CommandRun { phase: CommandPhase::Monitoring },
                        CommandAction::Monitor { pid },
                    )
                } else {
                    (CommandRun { phase: CommandPhase::Reaping }, CommandAction::Reap)
                }
            },
            CommandEvent::Spawned(Err(e)) => finish_command(Err(spawn_error(e))),
            CommandEvent::Reaped(Ok((status, rusage))) => {
                finish_command(Ok(RunResult::Completed { status, rusage }))
            },
            CommandEvent::Reaped(Err(e)) => finish_command(Err(wait_error(e))),
            CommandEvent::Monitored(result) => finish_command(result),
        }
    }
}

fn finish_command(result: Result<RunResult, TimeoutError>) -> (next: (CommandRun, CommandAction))
    ensures
        next == ((CommandRun { phase: CommandPhase::Done }), CommandAction::Return(result)),
{
    (CommandRun { phase: CommandPhase::Done }, CommandAction::Return(result))
}

/// Copies of some arguments.
pub fn copy_args(args: &[String]) -> (copies: Vec<String>)
    ensures
        copies@ == args@,
{
    let mut copies: Vec<String> = Vec::new();
    let mut i: usize = 0;
    while i < args.len()
        invariant
            i <= args.len(),
            copies@ == args@.take(i as int),
        decreases args.len() - i,
    {
        copies.push(args[i].clone());
        i += 1;
        assert(copies@ =~= args@.take(i as int));
    }
    assert(args@.take(i as int) =~= args@);
    copies
}

/// Begins to run `command`.
pub fn run_command(command: &str, args: &[String], config: &RunConfig) -> (begun: (
    CommandRun,
    CommandAction,
))
    ensures
        begun.0.phase is Spawning,
        begun.1 matches CommandAction::Spawn(request) && request.starts(command@, args@, *config)
            && (request.limits is Some <==> config.limits.mem_bytes is Some
            || config.limits.cpu_time is Some) && (request.limits is Some
            ==> request.limits->0.cpu_time == config.limits.cpu_time
            && request.limits->0.mem_bytes == config.limits.mem_bytes),
{
    let limits: Option<ResourceLimits> = if config.limits.is_empty() {
        None
    } else {
        Some(config.limits)
    };
    let request = SpawnRequest {
        command: command.to_owned(),
        args: copy_args(args),
        use_process_group: !config.foreground,
        limits,
    };
    (CommandRun { phase: CommandPhase::Spawning }, CommandAction::Spawn(request))
}

/// With or without a time limit, a command is watched over whenever there is
/// anything to watch: only one with nothing to watch is simply waited for.
pub proof fn law_limits_hold_without_timeout(run: CommandRun, pid: i32, config: RunConfig)
    requires
        run.phase is Spawning,
    ensures
        run.next(CommandEvent::Spawned(Ok(pid)), config).1 == (if config.watches() {
            CommandAction::Monitor { pid }
        } else {
            CommandAction::Reap
        }),
        config.limits.mem_bytes is Some ==> config.watches(),
        config.cpu_throttle is Some ==> config.watches(),
        config.heartbeat is Some ==> config.watches(),
        config.stdin_timeout is Some ==> config.watches(),
{
}

/// A watched command without a time limit has no deadline, and all its other
/// limits.
pub proof fn law_no_timeout_keeps_other_limits(
    monitor: crate::monitor::Monitor,
    config: RunConfig,
)
    requires
        config.timeout.total_ns() == 0,
    ensures
        monitor.main_setup(config).wall_timeout is None,
        monitor.main_setup(config).memory_limit matches Some(m) ==> config.limits.mem_bytes == Some(
            m.limit_bytes,
        ),
        config.limits.mem_bytes is Some ==> monitor.main_setup(config).memory_limit is Some,
        config.heartbeat is Some ==> monitor.main_setup(config).heartbeat is Some,
        config.stdin_timeout is Some ==> monitor.main_setup(config).stdin_timeout is Some,
        monitor.main_setup(config).throttle == monitor.throttle,
{
}

/// A command is over after two events.
pub proof fn law_command_comes_to_an_end(
    run: CommandRun,
    first: CommandEvent,
    second: CommandEvent,
    config: RunConfig,
)
    requires
        run.phase is Spawning,
        run.awaits(first),
        run.next(first, config).1 !is Return,
        run.next(first, config).0.awaits(second),
    ensures
        run.next(first, config).0.next(second, config).1 is Return,
{
}

/// A command is started as it was asked for: by its name, with its arguments, and
/// in a process group of its own unless it is to stay in the foreground. Every
/// limit that is configured is set before it starts, at its configured value, and
/// none that is not.
pub proof fn law_command_is_started_with_its_limits(
    request: SpawnRequest,
    command: Seq<char>,
    args: Seq<String>,
    config: RunConfig,
)
    requires
        request.starts(command, args, config),
    ensures
        request.command@ == command,
        request.args@ == args,
        request.use_process_group <==> !config.foreground,
        config.limits.cpu_time matches Some(d) ==> (request.limits matches Some(l) && l.cpu_time
            == Some(d)),
        config.limits.mem_bytes matches Some(n) ==> (request.limits matches Some(l) && l.mem_bytes
            == Some(n)),
        request.limits matches Some(l) ==> l.cpu_time == config.limits.cpu_time && l.mem_bytes
            == config.limits.mem_bytes && (l.cpu_time is Some || l.mem_bytes is Some),
{
}

/// A command that was started is watched over whenever a limit on its time, its
/// memory, its processor time or its idle input is configured, or a heartbeat;
/// otherwise it is only collected.
pub proof fn law_started_command_is_watched_if_need_be(
    run: CommandRun,
    pid: i32,
    config: RunConfig,
)
    requires
        run.phase is Spawning,
    ensures
        ({
            let watched = config.timeout.total_ns() > 0 || config.limits.mem_bytes is Some
                || config.cpu_throttle is Some || config.heartbeat is Some
                || config.stdin_timeout is Some;
            let action = run.next(CommandEvent::Spawned(Ok(pid)), config).1;
            &&& watched ==> action == (CommandAction::Monitor { pid })
            &&& !watched ==> action is Reap
        }),
{
}

/// What a run returns is what came of the command: the end of one that was
/// collected, what watching over it came to, or why it could not be started. A
/// command that is not there and one that may not be run are told apart, by the
/// codes that shells give them.
pub proof fn law_run_returns_what_came_of_it(
    run: CommandRun,
    event: CommandEvent,
    config: RunConfig,
)
    requires
        run.awaits(event),
    ensures
        ({
            let action = run.next(event, config).1;
            &&& event matches CommandEvent::Reaped(Ok((status, rusage))) ==> action
                == CommandAction::Return(Ok(RunResult::Completed { status, rusage }))
            &&& event matches CommandEvent::Reaped(Err(SpawnError::Wait(errno))) ==> action
                == CommandAction::Return(Err(TimeoutError::SpawnError(errno)))
            &&& event matches CommandEvent::Reaped(Err(_)) ==> action is Return && action->Return_0
                is Err
            &&& event matches CommandEvent::Monitored(result) ==> action == CommandAction::Return(
                result,
            )
            &&& event matches CommandEvent::Spawned(Err(SpawnError::NotFound(name))) ==> action
                == CommandAction::Return(Err(TimeoutError::CommandNotFound(name)))
                && action->Return_0->Err_0.code() == 127
            &&& event matches CommandEvent::Spawned(Err(SpawnError::PermissionDenied(name)))
                ==> action == CommandAction::Return(Err(TimeoutError::PermissionDenied(name)))
                && action->Return_0->Err_0.code() == 126
            &&& event matches CommandEvent::Spawned(Err(SpawnError::Spawn(errno))) ==> action
                == CommandAction::Return(Err(TimeoutError::SpawnError(errno)))
                && action->Return_0->Err_0.code() == 125
            &&& event matches CommandEvent::Spawned(Err(SpawnError::InvalidArg)) ==> action
                == CommandAction::Return(
                Err(TimeoutError::Internal(InternalError::InvalidArgument)),
            ) && action->Return_0->Err_0.code() == 125
        }),
{
}

} // verus!
