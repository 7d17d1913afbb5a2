//! The outcome of a run and the exit code it stands for.

use vstd::prelude::*;

use crate::process::{law_exit_or_signal, RawExitStatus, ResourceUsage};
use crate::signal::{law_number_round_trip, signal_number, Signal};

verus! {

/// What became of the on-timeout hook.
#[derive(Clone, Copy, Debug, PartialEq, Eq, Structural)]
pub struct HookResult {
    /// Was it started at all?
    pub ran: bool,
    /// Its exit code; `None` if it was killed or never started.
    pub exit_code: Option<i32>,
    /// Was it killed for taking too long?
    pub timed_out: bool,
    /// How long it ran, in milliseconds.
    pub elapsed_ms: u64,
}

impl Default for HookResult {
    /// A hook that was not started.
    fn default() -> (hook: HookResult)
        ensures
            hook == (HookResult { ran: false, exit_code: None, timed_out: false, elapsed_ms: 0 }),
    {
        HookResult { ran: false, exit_code: None, timed_out: false, elapsed_ms: 0 }
    }
}

/// What the command ran out of.
#[derive(Clone, Copy, Debug, PartialEq, Eq, Structural)]
#[non_exhaustive]
pub enum TimeoutReason {
    /// The time it was given.
    WallClock,
    /// The time its input may stay idle.
    StdinIdle,
}

impl Default for TimeoutReason {
    /// The time it was given.
    fn default() -> (reason: TimeoutReason)
        ensures
            reason == TimeoutReason::WallClock,
    {
        TimeoutReason::WallClock
    }
}

/// How a supervised run ended.
#[derive(Clone, Copy, Debug, PartialEq, Eq, Structural)]
#[allow(inconsistent_fields)]
#[non_exhaustive]
pub enum RunResult {
    /// The command ended on its own.
    Completed { status: RawExitStatus, rusage: ResourceUsage },
    /// The command ran out of time.
    TimedOut {
        /// The signal that was sent first.
        signal: Signal,
        /// Did it take a `SIGKILL`?
        killed: bool,
        status: Option<RawExitStatus>,
        rusage: Option<ResourceUsage>,
        /// What became of the on-timeout hook, if there is one.
        hook: Option<HookResult>,
        reason: TimeoutReason,
    },
    /// The command used more memory than it may.
    MemoryLimitExceeded {
        signal: Signal,
        killed: bool,
        status: Option<RawExitStatus>,
        rusage: Option<ResourceUsage>,
        /// What it may use.
        limit_bytes: u64,
        /// What it was found to use.
        actual_bytes: u64,
    },
    /// The supervisor was told to stop and passed the signal on.
    SignalForwarded {
        signal: Signal,
        status: Option<RawExitStatus>,
        rusage: Option<ResourceUsage>,
    },
}

/// The exit code of a process killed by `signal`.
pub open spec fn code_of_signal(signal: Signal) -> u8 {
    (128 + signal.number()) as u8
}

/// The exit code that a wait status stands for: 128 more than the signal for a
/// killed child, its own code for one that exited, and 1 for neither.
pub open spec fn code_of_status(status: RawExitStatus) -> u8 {
    match status.term_signal() {
        Some(n) => (128 + n) as u8,
        None => match status.exit_code() {
            Some(c) => c as u8,
            None => 1,
        },
    }
}

/// The exit code of a command that the supervisor stopped: what its status
/// says or, where no status was had, the last signal it was sent.
pub open spec fn code_of_stopped(
    signal: Signal,
    killed: bool,
    status: Option<RawExitStatus>,
) -> u8 {
    match status {
        Some(s) => code_of_status(s),
        None => code_of_signal(if killed {
            Signal::SIGKILL
        } else {
            signal
        }),
    }
}

/// The exit code of a process killed by `signal`: 128 more than its number.
pub fn signal_exit_code(signal: Signal) -> (code: u8)
    ensures
        code == code_of_signal(signal),
        code == 128 + signal.number(),
{
    proof {
        law_number_round_trip(signal);
    }
    let sum: i32 = 128 + signal_number(signal);
    assert(129 <= sum <= 159 ==> sum & 0xff == sum) by (bit_vector);
    (sum & 0xff) as u8
}

/// The exit code that a wait status stands for.
pub fn status_to_exit_code(status: &RawExitStatus) -> (code: u8)
    ensures
        code == code_of_status(*status),
{
    proof {
        law_exit_or_signal(*status);
    }
    if let Some(n) = status.signal() {
        let sum: i32 = 128 + n;
        assert(129 <= sum <= 254 ==> sum & 0xff == sum) by (bit_vector);
        return (sum & 0xff) as u8;
    }
    let code: i32 = match status.code() {
        Some(c) => c,
        None => 1,
    };
    assert(0 <= code <= 255 ==> code & 0xff == code) by (bit_vector);
    (code & 0xff) as u8
}

/// The exit code of a command that the supervisor stopped.
fn stopped_exit_code(signal: Signal, killed: bool, status: &Option<RawExitStatus>) -> (code: u8)
    ensures
        code == code_of_stopped(signal, killed, *status),
{
    match status {
        Some(s) => status_to_exit_code(s),
        None => signal_exit_code(if killed {
            Signal::SIGKILL
        } else {
            signal
        }),
    }
}

impl RunResult {
    /// The exit code of the supervisor after this run.
    pub open spec fn code(self, preserve_status: bool, timeout_exit_code: u8) -> u8 {
        match self {
            RunResult::Completed { status, .. } => code_of_status(status),
            RunResult::TimedOut { signal, killed, status, .. } => if preserve_status {
                code_of_stopped(signal, killed, status)
            } else {
                timeout_exit_code
            },
            RunResult::MemoryLimitExceeded { signal, killed, status, .. } => if preserve_status {
                code_of_stopped(signal, killed, status)
            } else {
                timeout_exit_code
            },
            RunResult::SignalForwarded { signal, status, .. } => code_of_stopped(
                signal,
                false,
                status,
            ),
        }
    }

    /// What the command used, if that is known.
    pub open spec fn usage(self) -> Option<ResourceUsage> {
        match self {
            RunResult::Completed { rusage, .. } => Some(rusage),
            RunResult::TimedOut { rusage, .. } => rusage,
            RunResult::MemoryLimitExceeded { rusage, .. } => rusage,
            RunResult::SignalForwarded { rusage, .. } => rusage,
        }
    }

    /// The exit code of the supervisor after this run.
    #[must_use]
    pub fn exit_code(&self, preserve_status: bool, timeout_exit_code: u8) -> (code: u8)
        ensures
            code == self.code(preserve_status, timeout_exit_code),
    {
        match self {
            RunResult::Completed { status, .. } => status_to_exit_code(status),
            RunResult::TimedOut { signal, killed, status, .. } => if preserve_status {
                stopped_exit_code(*signal, *killed, status)
            } else {
                timeout_exit_code
            },
            RunResult::MemoryLimitExceeded { signal, killed, status, .. } => if preserve_status {
                stopped_exit_code(*signal, *killed, status)
            } else {
                timeout_exit_code
            },
            RunResult::SignalForwarded { signal, status, .. } => stopped_exit_code(
                *signal,
                false,
                status,
            ),
        }
    }

    /// What the command used, if that is known.
    #[must_use]
    pub fn resource_usage(&self) -> (usage: Option<&ResourceUsage>)
        ensures
            usage matches Some(u) ==> self.usage() == Some(*u),
            usage is None ==> self.usage() is None,
    {
        match self {
            RunResult::Completed { rusage, .. } => Some(rusage),
            RunResult::TimedOut { rusage, .. } => rusage.as_ref(),
            RunResult::MemoryLimitExceeded { rusage, .. } => rusage.as_ref(),
            RunResult::SignalForwarded { rusage, .. } => rusage.as_ref(),
        }
    }
}

/// Where the child's own end is known, a completed command always reports it:
/// neither switch matters.
pub proof fn law_completed_code_is_childs(
    status: RawExitStatus,
    rusage: ResourceUsage,
    preserve_status: bool,
    timeout_exit_code: u8,
)
    ensures
        (RunResult::Completed { status, rusage }).code(preserve_status, timeout_exit_code)
            == code_of_status(status),
{
}

/// Running out of memory gives the same exit code as running out of time.
pub proof fn law_memory_code_is_timeout_code(
    signal: Signal,
    killed: bool,
    status: Option<RawExitStatus>,
    rusage: Option<ResourceUsage>,
    hook: Option<HookResult>,
    reason: TimeoutReason,
    limit_bytes: u64,
    actual_bytes: u64,
    preserve_status: bool,
    timeout_exit_code: u8,
)
    ensures
        (RunResult::MemoryLimitExceeded {
            signal,
            killed,
            status,
            rusage,
            limit_bytes,
            actual_bytes,
        }).code(preserve_status, timeout_exit_code) == (RunResult::TimedOut {
            signal,
            killed,
            status,
            rusage,
            hook,
            reason,
        }).code(preserve_status, timeout_exit_code),
{
}

/// A signal that was passed on gives the code of the signal or of the child,
/// never the timeout's.
pub proof fn law_forwarded_code_ignores_switches(
    signal: Signal,
    status: Option<RawExitStatus>,
    rusage: Option<ResourceUsage>,
    preserve_status: bool,
    timeout_exit_code: u8,
)
    ensures
        (RunResult::SignalForwarded { signal, status, rusage }).code(
            preserve_status,
            timeout_exit_code,
        ) == code_of_stopped(signal, false, status),
{
}

/// Where the command's end is known and is asked for, it decides the code: a
/// command that left by `exit` gives its own code, and one that a signal killed
/// gives 128 more than the signal's number. Whether and why it was stopped does
/// not matter, nor what it was sent.
pub proof fn law_known_end_gives_the_code(
    result: RunResult,
    end: RawExitStatus,
    preserve_status: bool,
    timeout_exit_code: u8,
)
    requires
        match result {
            RunResult::Completed { status, .. } => status == end,
            RunResult::TimedOut { status, .. } => preserve_status && status == Some(end),
            RunResult::MemoryLimitExceeded { status, .. } => preserve_status && status == Some(
                end,
            ),
            RunResult::SignalForwarded { status, .. } => status == Some(end),
        },
    ensures
        end.exit_code() matches Some(c) ==> result.code(preserve_status, timeout_exit_code) == c,
        end.term_signal() matches Some(n) ==> result.code(preserve_status, timeout_exit_code)
            == 128 + n,
        end.exit_code() is None && end.term_signal() is None ==> result.code(
            preserve_status,
            timeout_exit_code,
        ) == 1,
{
    law_exit_or_signal(end);
}

/// Where the command's end is asked for and not known, the last signal that it
/// was sent gives the code: 128 more than its number, which for a command that
/// was killed is 137.
pub proof fn law_unknown_end_gives_the_signals_code(
    result: RunResult,
    preserve_status: bool,
    timeout_exit_code: u8,
)
    ensures
        result matches RunResult::TimedOut { signal, killed, status: None, .. }
            ==> preserve_status ==> result.code(preserve_status, timeout_exit_code) == if killed {
            137
        } else {
            128 + signal.number()
        },
        result matches RunResult::MemoryLimitExceeded { signal, killed, status: None, .. }
            ==> preserve_status ==> result.code(preserve_status, timeout_exit_code) == if killed {
            137
        } else {
            128 + signal.number()
        },
        result matches RunResult::SignalForwarded { signal, status: None, .. } ==> result.code(
            preserve_status,
            timeout_exit_code,
        ) == 128 + signal.number(),
{
    match result {
        RunResult::TimedOut { signal, .. } => {
            law_number_round_trip(signal);
        },
        RunResult::MemoryLimitExceeded { signal, .. } => {
            law_number_round_trip(signal);
        },
        RunResult::SignalForwarded { signal, .. } => {
            law_number_round_trip(signal);
        },
        _ => {},
    }
}

/// Where the command's end is not asked for, one that ran out of something gives
/// the code for that, and no other run does so on that account.
pub proof fn law_timeout_gives_its_code(result: RunResult, first: u8, second: u8)
    ensures
        result is TimedOut || result is MemoryLimitExceeded ==> result.code(false, first) == first,
        result is Completed || result is SignalForwarded ==> result.code(false, first)
            == result.code(true, second),
        result.code(true, first) == result.code(true, second),
{
}

/// What a command used is told as it was collected, whatever became of the
/// command.
pub proof fn law_usage_is_what_was_collected(result: RunResult, used: ResourceUsage)
    ensures
        result.usage() == Some(used) <==> match result {
            RunResult::Completed { rusage, .. } => rusage == used,
            RunResult::TimedOut { rusage, .. } => rusage == Some(used),
            RunResult::MemoryLimitExceeded { rusage, .. } => rusage == Some(used),
            RunResult::SignalForwarded { rusage, .. } => rusage == Some(used),
        },
{
}

} // verus!
