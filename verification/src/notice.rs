//! What the supervisor says about itself.

use vstd::prelude::*;

use crate::error::{SpawnError, TimeoutError};
use crate::outcome::TimeoutReason;
use crate::signal::{signal_name, Signal};
use crate::text::{
    decimal, push_decimal, push_signed, signed_decimal, text_around, text_with_number,
    text_with_signed,
};

verus! {

/// Why waiting for the hook failed.
#[derive(Debug)]
pub enum HookError {
    /// No event queue could be had.
    KqueueFailed(i32),
    /// Waiting on the event queue failed.
    KeventFailed(i32),
    /// The event queue refused a filter.
    RegistrationFailed(i32),
    /// The hook could not be collected.
    Reap(SpawnError),
}

impl HookError {
    /// The error in words.
    pub open spec fn text(self) -> Seq<char> {
        match self {
            HookError::KqueueFailed(n) => "kqueue failed: errno "@ + signed_decimal(n as int)
                + ""@,
            HookError::KeventFailed(n) => "kevent failed: errno "@ + signed_decimal(n as int)
                + ""@,
            HookError::RegistrationFailed(n) => "kqueue registration failed: errno "@
                + signed_decimal(n as int) + ""@,
            HookError::Reap(e) => e.text(),
        }
    }

    /// The error in words.
    pub fn message(&self) -> (text: String)
        ensures
            text@ == self.text(),
    {
        match self {
            HookError::KqueueFailed(n) => text_with_signed("kqueue failed: errno ", *n, ""),
            HookError::KeventFailed(n) => text_with_signed("kevent failed: errno ", *n, ""),
            HookError::RegistrationFailed(n) => {
                text_with_signed("kqueue registration failed: errno ", *n, "")
            },
            HookError::Reap(e) => e.message(),
        }
    }
}

/// A line on standard error.
#[derive(Debug)]
pub enum Notice {
    /// The share of processor time is very low.
    LowCpuPercent(u32),
    /// The hook may run for longer than the command.
    HookLimitExceedsTimeout { limit: String, timeout: String },
    /// More retries were asked for than there can be.
    RetryCapped { asked: u32, maximum: u32 },
    /// An attempt timed out and another follows.
    RetryDelay { attempt: u32, delay_ms: u64 },
    /// The command's processor time cannot be read.
    ThrottleDisabled(TimeoutError),
    /// A signal is passed on.
    Forwarding(Signal),
    /// The command uses too much memory.
    MemoryExceeded { actual_bytes: u64, limit_bytes: u64 },
    /// What the command ran out of.
    Triggered(TimeoutReason),
    /// The command is told to stop.
    Sending(Signal),
    /// The hook starts.
    HookRunning(String),
    /// The hook did not start.
    HookNotStarted(SpawnError),
    /// The hook failed.
    HookExited(i32),
    /// The hook takes too long.
    HookTimedOut,
    /// The hook was lost.
    HookWaitFailed(HookError),
    /// The command still runs.
    Heartbeat { elapsed_ns: u64, pid: i32 },
}

/// A time in minutes and seconds, or in seconds if it is under a minute.
pub open spec fn clock_text(elapsed_ns: u64) -> Seq<char> {
    let secs = elapsed_ns as nat / 1_000_000_000;
    if secs >= 60 {
        decimal(secs / 60) + "m "@ + decimal(secs % 60) + "s"@
    } else {
        decimal(secs) + "s"@
    }
}

/// A time in minutes and seconds, or in seconds if it is under a minute.
fn clock_string(elapsed_ns: u64) -> (text: String)
    ensures
        text@ == clock_text(elapsed_ns),
{
    let secs: u64 = elapsed_ns / 1_000_000_000;
    let mins: u64 = secs / 60;
    let mut text: String = String::new();
    if mins > 0 {
        push_decimal(&mut text, mins);
        text.append("m ");
        push_decimal(&mut text, secs % 60);
        text.append("s");
        assert(text@ =~= clock_text(elapsed_ns));
    } else {
        push_decimal(&mut text, secs);
        text.append("s");
        assert(text@ =~= clock_text(elapsed_ns));
    }
    text
}

impl Notice {
    /// The line.
    pub open spec fn text(self) -> Seq<char> {
        match self {
            Notice::LowCpuPercent(percent) => "warning: --cpu-percent "@ + decimal(percent as nat)
                + " is very low; may cause stuttery execution"@,
            Notice::HookLimitExceedsTimeout { limit, timeout } =>
                "warning: --on-timeout-limit ("@ + limit@ + ") exceeds main timeout ("@ + timeout@
                + ")"@,
            Notice::RetryCapped { asked, maximum } => "timeout: warning: retry count "@ + decimal(
                asked as nat,
            ) + " capped to maximum "@ + decimal(maximum as nat),
            Notice::RetryDelay { attempt, delay_ms } => "timeout: attempt "@ + decimal(
                attempt as nat,
            ) + " timed out, retry delay "@ + decimal(delay_ms as nat) + "ms"@,
            Notice::ThrottleDisabled(e) => "timeout: warning: CPU throttle disabled ("@ + e.text()
                + ")"@,
            Notice::Forwarding(signal) => "timeout: forwarding signal "@ + signal.full_name()
                + " to command"@,
            Notice::MemoryExceeded { actual_bytes, limit_bytes } =>
                "timeout: memory limit exceeded ("@ + decimal(actual_bytes as nat) + " bytes > "@
                + decimal(limit_bytes as nat) + " bytes limit)"@,
            Notice::Triggered(reason) => "timeout: triggered by "@ + reason_text(reason) + ""@,
            Notice::Sending(signal) => "timeout: sending signal "@ + signal.full_name()
                + " to command"@,
            Notice::HookRunning(command) => "timeout: running on-timeout hook: "@ + command@ + ""@,
            Notice::HookNotStarted(e) => "timeout: on-timeout hook failed to start: "@ + e.text()
                + ""@,
            Notice::HookExited(code) => "timeout: on-timeout hook exited with code "@
                + signed_decimal(code as int) + ""@,
            Notice::HookTimedOut => "timeout: on-timeout hook timed out, killing"@,
            Notice::HookWaitFailed(e) => "timeout: on-timeout hook wait failed: "@ + e.text()
                + ""@,
            Notice::Heartbeat { elapsed_ns, pid } => "timeout: heartbeat: "@ + clock_text(
                elapsed_ns,
            ) + " elapsed, command still running (pid "@ + signed_decimal(pid as int) + ")"@,
        }
    }

    /// The line.
    pub fn message(&self) -> (text: String)
        ensures
            text@ == self.text(),
    {
        match self {
            Notice::LowCpuPercent(percent) => text_with_number(
                "warning: --cpu-percent ",
                *percent as u64,
                " is very low; may cause stuttery execution",
            ),
            Notice::HookLimitExceedsTimeout { limit, timeout } => {
                let mut text: String = text_around(
                    "warning: --on-timeout-limit (",
                    limit.as_str(),
                    ") exceeds main timeout (",
                );
                text.append(timeout.as_str());
                text.append(")");
                text
            },
            Notice::RetryCapped { asked, maximum } => {
                let mut text: String = text_with_number(
                    "timeout: warning: retry count ",
                    *asked as u64,
                    " capped to maximum ",
                );
                push_decimal(&mut text, *maximum as u64);
                text
            },
            Notice::RetryDelay { attempt, delay_ms } => {
                let mut text: String = text_with_number(
                    "timeout: attempt ",
                    *attempt as u64,
                    " timed out, retry delay ",
                );
                push_decimal(&mut text, *delay_ms);
                text.append("ms");
                text
            },
            Notice::ThrottleDisabled(e) => text_around(
                "timeout: warning: CPU throttle disabled (",
                e.message().as_str(),
                ")",
            ),
            Notice::Forwarding(signal) => text_around(
                "timeout: forwarding signal ",
                signal_name(*signal),
                " to command",
            ),
            Notice::MemoryExceeded { actual_bytes, limit_bytes } => {
                let mut text: String = text_with_number(
                    "timeout: memory limit exceeded (",
                    *actual_bytes,
                    " bytes > ",
                );
                push_decimal(&mut text, *limit_bytes);
                text.append(" bytes limit)");
                text
            },
            Notice::Triggered(reason) => text_around(
                "timeout: triggered by ",
                reason_name(*reason),
                "",
            ),
            Notice::Sending(signal) => text_around(
                "timeout: sending signal ",
                signal_name(*signal),
                " to command",
            ),
            Notice::HookRunning(command) => text_around(
                "timeout: running on-timeout hook: ",
                command.as_str(),
                "",
            ),
            Notice::HookNotStarted(e) => text_around(
                "timeout: on-timeout hook failed to start: ",
                e.message().as_str(),
                "",
            ),
            Notice::HookExited(code) => text_with_signed(
                "timeout: on-timeout hook exited with code ",
                *code,
                "",
            ),
            Notice::HookTimedOut => "timeout: on-timeout hook timed out, killing".to_owned(),
            Notice::HookWaitFailed(e) => text_around(
                "timeout: on-timeout hook wait failed: ",
                e.message().as_str(),
                "",
            ),
            Notice::Heartbeat { elapsed_ns, pid } => {
                let mut text: String = text_around(
                    "timeout: heartbeat: ",
                    clock_string(*elapsed_ns).as_str(),
                    " elapsed, command still running (pid ",
                );
                push_signed(&mut text, *pid);
                text.append(")");
                text
            },
        }
    }
}

/// What the command ran out of, in words.
pub open spec fn reason_text(reason: TimeoutReason) -> Seq<char> {
    match reason {
        TimeoutReason::WallClock => "wall clock"@,
        TimeoutReason::StdinIdle => "stdin idle"@,
    }
}

fn reason_name(reason: TimeoutReason) -> (name: &'static str)
    ensures
        name@ == reason_text(reason),
{
    match reason {
        TimeoutReason::WallClock => "wall clock",
        TimeoutReason::StdinIdle => "stdin idle",
    }
}

/// The lines of a row of notices.
pub open spec fn texts(notices: Seq<Notice>) -> Seq<Seq<char>> {
    notices.map_values(|n: Notice| n.text())
}

/// How long the command has run is told in seconds, and from a minute on in minutes
/// and the seconds past them.
pub proof fn law_time_is_told_in_minutes_and_seconds(elapsed_ns: u64, minutes: nat, seconds: nat)
    requires
        (minutes * 60 + seconds) * 1_000_000_000 <= elapsed_ns < (minutes * 60 + seconds + 1)
            * 1_000_000_000,
        seconds < 60,
    ensures
        minutes > 0 ==> clock_text(elapsed_ns) == decimal(minutes) + "m "@ + decimal(seconds)
            + "s"@,
        minutes == 0 ==> clock_text(elapsed_ns) == decimal(seconds) + "s"@,
{
    assert(elapsed_ns as nat / 1_000_000_000 == minutes * 60 + seconds);
}

/// Every line tells what it is about: the numbers, names and texts that it is given,
/// in words of its own.
pub proof fn law_lines_tell_what_they_are_about(
    number: u32,
    amount: u64,
    other: u64,
    pid: i32,
    signal: Signal,
    text: String,
    more: String,
    error: TimeoutError,
    cause: SpawnError,
    lost: HookError,
)
    ensures
        Notice::LowCpuPercent(number).text() == "warning: --cpu-percent "@ + decimal(
            number as nat,
        ) + " is very low; may cause stuttery execution"@,
        (Notice::HookLimitExceedsTimeout { limit: text, timeout: more }).text()
            == "warning: --on-timeout-limit ("@ + text@ + ") exceeds main timeout ("@ + more@
            + ")"@,
        (Notice::RetryCapped { asked: number, maximum: 31 }).text()
            == "timeout: warning: retry count "@ + decimal(number as nat)
            + " capped to maximum "@ + decimal(31),
        (Notice::RetryDelay { attempt: number, delay_ms: amount }).text() == "timeout: attempt "@
            + decimal(number as nat) + " timed out, retry delay "@ + decimal(amount as nat)
            + "ms"@,
        Notice::ThrottleDisabled(error).text() == "timeout: warning: CPU throttle disabled ("@
            + error.text() + ")"@,
        Notice::Forwarding(signal).text() == "timeout: forwarding signal "@ + signal.full_name()
            + " to command"@,
        Notice::Sending(signal).text() == "timeout: sending signal "@ + signal.full_name()
            + " to command"@,
        (Notice::MemoryExceeded { actual_bytes: amount, limit_bytes: other }).text()
            == "timeout: memory limit exceeded ("@ + decimal(amount as nat) + " bytes > "@
            + decimal(other as nat) + " bytes limit)"@,
        Notice::Triggered(TimeoutReason::WallClock).text() == "timeout: triggered by "@
            + "wall clock"@,
        Notice::Triggered(TimeoutReason::StdinIdle).text() == "timeout: triggered by "@
            + "stdin idle"@,
        Notice::HookRunning(text).text() == "timeout: running on-timeout hook: "@ + text@,
        Notice::HookNotStarted(cause).text() == "timeout: on-timeout hook failed to start: "@
            + cause.text(),
        Notice::HookExited(pid).text() == "timeout: on-timeout hook exited with code "@
            + signed_decimal(pid as int),
        Notice::HookTimedOut.text() == "timeout: on-timeout hook timed out, killing"@,
        Notice::HookWaitFailed(lost).text() == "timeout: on-timeout hook wait failed: "@
            + lost.text(),
        (Notice::Heartbeat { elapsed_ns: amount, pid }).text() == "timeout: heartbeat: "@
            + clock_text(amount) + " elapsed, command still running (pid "@ + signed_decimal(
            pid as int,
        ) + ")"@,
        HookError::KqueueFailed(pid).text() == "kqueue failed: errno "@ + signed_decimal(
            pid as int,
        ),
        HookError::KeventFailed(pid).text() == "kevent failed: errno "@ + signed_decimal(
            pid as int,
        ),
        HookError::RegistrationFailed(pid).text() == "kqueue registration failed: errno "@
            + signed_decimal(pid as int),
        HookError::Reap(cause).text() == cause.text(),
{
    reveal_strlit("");
    let nothing = ""@;
    assert(nothing =~= Seq::empty());
    assert forall|s: Seq<char>| #[trigger] (s + nothing) == s by {
        assert(s + nothing =~= s);
    }
}

} // verus!
