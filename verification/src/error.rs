//! Errors of the supervisor.

use vstd::prelude::*;

use crate::text::{signed_decimal, text_around, text_with_signed};

pub mod exit_codes;

verus! {

/// Why a child could not be started or waited for.
#[derive(Debug)]
pub enum SpawnError {
    /// No such command.
    NotFound(String),
    /// The command may not be executed.
    PermissionDenied(String),
    /// Starting the child failed with this error number.
    Spawn(i32),
    /// Waiting for the child failed with this error number.
    Wait(i32),
    /// The command or an argument cannot be handed to the system.
    InvalidArg,
}

/// An error of the supervisor itself.
#[derive(Debug)]
pub enum TimeoutError {
    /// No such command.
    CommandNotFound(String),
    /// The command may not be executed.
    PermissionDenied(String),
    /// The child could not be started or waited for.
    SpawnError(i32),
    /// A signal could not be sent.
    SignalError(i32),
    /// The text is no duration.
    InvalidDuration(String),
    /// The text is no signal.
    InvalidSignal(String),
    /// The text is no memory size.
    InvalidMemoryLimit(String),
    /// The text is no percentage of processor time.
    InvalidCpuPercent(String),
    /// The system's clock reports an unusable time base.
    TimebaseError,
    /// Anything else that went wrong inside.
    Internal(InternalError),
}

/// What went wrong inside.
#[derive(Debug)]
pub enum InternalError {
    /// The command or an argument cannot be handed to the system.
    InvalidArgument,
    /// Waiting for the child failed, for want of a reason.
    WaitFailed,
    /// Waiting for the child failed.
    WaitFailedWith(SpawnError),
    /// No event queue could be had.
    KqueueFailed(i32),
    /// Waiting on the event queue failed.
    KeventFailed(i32),
    /// The event queue refused a filter.
    RegistrationFailed(i32),
    /// The text is no number of retries.
    InvalidRetryCount(String),
    /// The text is no backoff multiplier.
    InvalidRetryBackoff(String),
    /// Watching input without consuming it needs an idle limit.
    PassthroughNeedsTimeout,
}

impl SpawnError {
    /// The error in words.
    pub open spec fn text(self) -> Seq<char> {
        match self {
            SpawnError::NotFound(s) => "command not found: "@ + s@ + ""@,
            SpawnError::PermissionDenied(s) => "permission denied: "@ + s@ + ""@,
            SpawnError::Spawn(n) => "spawn failed: errno "@ + signed_decimal(n as int) + ""@,
            SpawnError::Wait(n) => "wait failed: errno "@ + signed_decimal(n as int) + ""@,
            SpawnError::InvalidArg => "invalid argument"@,
        }
    }

    /// The error in words.
    pub fn message(&self) -> (text: String)
        ensures
            text@ == self.text(),
    {
        match self {
            SpawnError::NotFound(s) => text_around("command not found: ", s.as_str(), ""),
            SpawnError::PermissionDenied(s) => text_around("permission denied: ", s.as_str(), ""),
            SpawnError::Spawn(n) => text_with_signed("spawn failed: errno ", *n, ""),
            SpawnError::Wait(n) => text_with_signed("wait failed: errno ", *n, ""),
            SpawnError::InvalidArg => "invalid argument".to_owned(),
        }
    }
}

impl InternalError {
    /// The error in words.
    pub open spec fn text(self) -> Seq<char> {
        match self {
            InternalError::InvalidArgument => "invalid argument"@,
            InternalError::WaitFailed => "wait failed"@,
            InternalError::WaitFailedWith(e) => "wait failed: "@ + e.text() + ""@,
            InternalError::KqueueFailed(n) => "kqueue failed: errno "@ + signed_decimal(n as int)
                + ""@,
            InternalError::KeventFailed(n) => "kevent failed: errno "@ + signed_decimal(n as int)
                + ""@,
            InternalError::RegistrationFailed(n) => "kqueue event registration failed: errno "@
                + signed_decimal(n as int) + ""@,
            InternalError::InvalidRetryCount(s) => "invalid retry count: '"@ + s@ + "'"@,
            InternalError::InvalidRetryBackoff(s) => "invalid retry backoff: '"@ + s@
                + "' (use e.g., 2x)"@,
            InternalError::PassthroughNeedsTimeout =>
                "--stdin-passthrough requires --stdin-timeout"@,
        }
    }

    /// The error in words.
    pub fn message(&self) -> (text: String)
        ensures
            text@ == self.text(),
    {
        match self {
            InternalError::InvalidArgument => "invalid argument".to_owned(),
            InternalError::WaitFailed => "wait failed".to_owned(),
            InternalError::WaitFailedWith(e) => {
                text_around("wait failed: ", e.message().as_str(), "")
            },
            InternalError::KqueueFailed(n) => text_with_signed("kqueue failed: errno ", *n, ""),
            InternalError::KeventFailed(n) => text_with_signed("kevent failed: errno ", *n, ""),
            InternalError::RegistrationFailed(n) => {
                text_with_signed("kqueue event registration failed: errno ", *n, "")
            },
            InternalError::InvalidRetryCount(s) => {
                text_around("invalid retry count: '", s.as_str(), "'")
            },
            InternalError::InvalidRetryBackoff(s) => {
                text_around("invalid retry backoff: '", s.as_str(), "' (use e.g., 2x)")
            },
            InternalError::PassthroughNeedsTimeout => {
                "--stdin-passthrough requires --stdin-timeout".to_owned()
            },
        }
    }
}

impl TimeoutError {
    /// The exit code of the supervisor that failed so.
    pub open spec fn code(self) -> u8 {
        match self {
            TimeoutError::CommandNotFound(_) => exit_codes::NOT_FOUND,
            TimeoutError::PermissionDenied(_) => exit_codes::CANNOT_INVOKE,
            _ => exit_codes::INTERNAL_ERROR,
        }
    }

    /// The exit code of the supervisor that failed so.
    pub fn exit_code(&self) -> (code: u8)
        ensures
            code == self.code(),
    {
        match self {
            TimeoutError::CommandNotFound(_) => exit_codes::NOT_FOUND,
            TimeoutError::PermissionDenied(_) => exit_codes::CANNOT_INVOKE,
            _ => exit_codes::INTERNAL_ERROR,
        }
    }

    /// The error in words.
    pub open spec fn text(self) -> Seq<char> {
        match self {
            TimeoutError::CommandNotFound(s) => "command not found: "@ + s@ + ""@,
            TimeoutError::PermissionDenied(s) => "permission denied: "@ + s@ + ""@,
            TimeoutError::SpawnError(n) => "failed to spawn process: errno "@ + signed_decimal(
                n as int,
            ) + ""@,
            TimeoutError::SignalError(n) => "failed to send signal: errno "@ + signed_decimal(
                n as int,
            ) + ""@,
            TimeoutError::InvalidDuration(s) => "invalid duration: '"@ + s@ + "'"@,
            TimeoutError::InvalidSignal(s) => "invalid signal: '"@ + s@ + "'"@,
            TimeoutError::InvalidMemoryLimit(s) => "invalid memory limit: '"@ + s@ + "'"@,
            TimeoutError::InvalidCpuPercent(s) => "invalid cpu percent: '"@ + s@ + "'"@,
            TimeoutError::TimebaseError => "invalid time base"@,
            TimeoutError::Internal(e) => e.text(),
        }
    }

    /// The error in words.
    pub fn message(&self) -> (text: String)
        ensures
            text@ == self.text(),
    {
        match self {
            TimeoutError::CommandNotFound(s) => text_around("command not found: ", s.as_str(), ""),
            TimeoutError::PermissionDenied(s) => text_around("permission denied: ", s.as_str(), ""),
            TimeoutError::SpawnError(n) => {
                text_with_signed("failed to spawn process: errno ", *n, "")
            },
            TimeoutError::SignalError(n) => {
                text_with_signed("failed to send signal: errno ", *n, "")
            },
            TimeoutError::InvalidDuration(s) => text_around("invalid duration: '", s.as_str(), "'"),
            TimeoutError::InvalidSignal(s) => text_around("invalid signal: '", s.as_str(), "'"),
            TimeoutError::InvalidMemoryLimit(s) => {
                text_around("invalid memory limit: '", s.as_str(), "'")
            },
            TimeoutError::InvalidCpuPercent(s) => {
                text_around("invalid cpu percent: '", s.as_str(), "'")
            },
            TimeoutError::TimebaseError => "invalid time base".to_owned(),
            TimeoutError::Internal(e) => e.message(),
        }
    }
}

/// The supervisor's failures have the codes that shells give: 127 for a command
/// that is not there, 126 for one that may not be run, and 125 for all else.
pub proof fn law_failures_have_the_shells_codes(error: TimeoutError)
    ensures
        error is CommandNotFound ==> error.code() == 127,
        error is PermissionDenied ==> error.code() == 126,
        error !is CommandNotFound && error !is PermissionDenied ==> error.code() == 125,
        exit_codes::TIMEOUT == 124,
{
}

/// Every failure is told in words of its own, with the text or the error number
/// that it is about.
pub proof fn law_failures_are_told_in_words(
    text: String,
    errno: i32,
    cause: SpawnError,
)
    ensures
        TimeoutError::CommandNotFound(text).text() == "command not found: "@ + text@,
        TimeoutError::PermissionDenied(text).text() == "permission denied: "@ + text@,
        TimeoutError::SpawnError(errno).text() == "failed to spawn process: errno "@
            + signed_decimal(errno as int),
        TimeoutError::SignalError(errno).text() == "failed to send signal: errno "@
            + signed_decimal(errno as int),
        TimeoutError::InvalidDuration(text).text() == "invalid duration: '"@ + text@ + "'"@,
        TimeoutError::InvalidSignal(text).text() == "invalid signal: '"@ + text@ + "'"@,
        TimeoutError::InvalidMemoryLimit(text).text() == "invalid memory limit: '"@ + text@ + "'"@,
        TimeoutError::InvalidCpuPercent(text).text() == "invalid cpu percent: '"@ + text@ + "'"@,
        TimeoutError::TimebaseError.text() == "invalid time base"@,
        TimeoutError::Internal(InternalError::InvalidArgument).text() == "invalid argument"@,
        TimeoutError::Internal(InternalError::WaitFailed).text() == "wait failed"@,
        TimeoutError::Internal(InternalError::WaitFailedWith(cause)).text() == "wait failed: "@
            + cause.text(),
        TimeoutError::Internal(InternalError::KqueueFailed(errno)).text()
            == "kqueue failed: errno "@ + signed_decimal(errno as int),
        TimeoutError::Internal(InternalError::KeventFailed(errno)).text()
            == "kevent failed: errno "@ + signed_decimal(errno as int),
        TimeoutError::Internal(InternalError::RegistrationFailed(errno)).text()
            == "kqueue event registration failed: errno "@ + signed_decimal(errno as int),
        TimeoutError::Internal(InternalError::InvalidRetryCount(text)).text()
            == "invalid retry count: '"@ + text@ + "'"@,
        TimeoutError::Internal(InternalError::InvalidRetryBackoff(text)).text()
            == "invalid retry backoff: '"@ + text@ + "' (use e.g., 2x)"@,
        TimeoutError::Internal(InternalError::PassthroughNeedsTimeout).text()
            == "--stdin-passthrough requires --stdin-timeout"@,
        SpawnError::NotFound(text).text() == "command not found: "@ + text@,
        SpawnError::PermissionDenied(text).text() == "permission denied: "@ + text@,
        SpawnError::Spawn(errno).text() == "spawn failed: errno "@ + signed_decimal(errno as int),
        SpawnError::Wait(errno).text() == "wait failed: errno "@ + signed_decimal(errno as int),
        SpawnError::InvalidArg.text() == "invalid argument"@,
{
    reveal_strlit("");
    let nothing = ""@;
    assert(nothing =~= Seq::empty());
    assert forall|s: Seq<char>| #[trigger] (s + nothing) == s by {
        assert(s + nothing =~= s);
    }
}

} // verus!
