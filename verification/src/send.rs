//! Sending the command a signal.
//!
//! The signal goes to the command's whole process group, or to the command
//! alone where it shares the supervisor's group. A command that is already gone
//! is no error.

use vstd::prelude::*;

use crate::error::TimeoutError;
use crate::signal::Signal;
use crate::sys::esrch;

verus! {

/// What a signal is in the middle of.
#[derive(Clone, Copy, Debug, PartialEq, Eq, Structural)]
pub enum SendPhase {
    ToGroup,
    ToProcess,
    Done,
}

/// What a signal wants done.
#[derive(Debug)]
pub enum SendAction {
    /// Send the signal with this number to the process group.
    KillGroup { pid: i32, number: i32 },
    /// Send the signal with this number to the process.
    Kill { pid: i32, number: i32 },
    /// It is over.
    Return(Result<(), TimeoutError>),
}

/// A signal on its way.
#[derive(Clone, Copy, Debug, PartialEq, Eq, Structural)]
pub struct SendSignal {
    pub phase: SendPhase,
    pub pid: i32,
    pub signal: Signal,
}

/// What sending came to: `ret` is what the call returned, `errno` the error
/// number. No such process is as good as done.
pub open spec fn send_result(ret: i32, errno: i32) -> Result<(), TimeoutError> {
    if ret == 0 || errno == 3 {
        Ok(())
    } else {
        Err(TimeoutError::SignalError(errno))
    }
}

impl SendSignal {
    /// A signal that is about to be sent.
    pub open spec fn begun(pid: i32, signal: Signal, foreground: bool) -> (
        SendSignal,
        SendAction,
    ) {
        let number = signal.number() as i32;
        if foreground {
            (
                SendSignal { phase: SendPhase::ToProcess, pid, signal },
                SendAction::Kill { pid, number },
            )
        } else {
            (
                SendSignal { phase: SendPhase::ToGroup, pid, signal },
                SendAction::KillGroup { pid, number },
            )
        }
    }

    /// What follows from what the call returned: a group that is gone may have
    /// left the process itself.
    pub open spec fn next(self, ret: i32, errno: i32) -> (SendSignal, SendAction) {
        if self.phase is ToGroup && ret != 0 && errno == 3 {
            (
                SendSignal { phase: SendPhase::ToProcess, ..self },
                SendAction::Kill { pid: self.pid, number: self.signal.number() as i32 },
            )
        } else {
            (
                SendSignal { phase: SendPhase::Done, ..self },
                SendAction::Return(send_result(ret, errno)),
            )
        }
    }

    /// Goes on with what the call returned, and the error number.
    pub fn step(self, ret: i32, errno: i32) -> (next: (SendSignal, SendAction))
        requires
            self.phase !is Done,
        ensures
            next == self.next(ret, errno),
    {
        if matches!(self.phase, SendPhase::ToGroup) && ret != 0 && errno == esrch() {
            return (
                SendSignal { phase: SendPhase::ToProcess, ..self },
                SendAction::Kill { pid: self.pid, number: self.signal.as_raw() },
            );
        }
        let result: Result<(), TimeoutError> = if ret == 0 || errno == esrch() {
            Ok(())
        } else {
            Err(TimeoutError::SignalError(errno))
        };
        (SendSignal { phase: SendPhase::Done, ..self }, SendAction::Return(result))
    }
}

/// Begins to send `signal` to the command `pid`.
pub fn send_signal(pid: i32, signal: Signal, foreground: bool) -> (begun: (SendSignal, SendAction))
    ensures
        begun == SendSignal::begun(pid, signal, foreground),
{
    if foreground {
        (
            SendSignal { phase: SendPhase::ToProcess, pid, signal },
            SendAction::Kill { pid, number: signal.as_raw() },
        )
    } else {
        (
            SendSignal { phase: SendPhase::ToGroup, pid, signal },
            SendAction::KillGroup { pid, number: signal.as_raw() },
        )
    }
}

/// A command that is gone is never an error, whichever way the signal goes.
pub proof fn law_gone_command_is_no_error(pid: i32, signal: Signal, ret: i32)
    requires
        ret != 0,
    ensures
        SendSignal::begun(pid, signal, true).0.next(ret, 3).1 == SendAction::Return(Ok(())),
        SendSignal::begun(pid, signal, false).0.next(ret, 3).0.next(ret, 3).1
            == SendAction::Return(Ok(())),
{
}

/// A signal is sent twice at most: to the group, and to the process if the
/// group is gone. In the foreground the group is left alone.
pub proof fn law_signal_is_sent_twice_at_most(
    pid: i32,
    signal: Signal,
    foreground: bool,
    first: (i32, i32),
    second: (i32, i32),
)
    ensures
        ({
            let begun = SendSignal::begun(pid, signal, foreground);
            let then = begun.0.next(first.0, first.1);
            &&& foreground ==> begun.1 is Kill && then.1 is Return
            &&& !foreground ==> begun.1 is KillGroup
            &&& then.1 is Return || then.1 is Kill && then.0.next(second.0, second.1).1 is Return
        }),
{
}

/// Any other failure is reported as it is.
pub proof fn law_failure_is_reported(
    pid: i32,
    signal: Signal,
    foreground: bool,
    ret: i32,
    errno: i32,
)
    requires
        ret != 0,
        errno != 3,
    ensures
        SendSignal::begun(pid, signal, foreground).0.next(ret, errno).1 == SendAction::Return(
            Err(TimeoutError::SignalError(errno)),
        ),
{
}

/// The signal goes by its own number to the command that it is for: to its whole
/// group at first, unless that is the supervisor's, and to the command alone
/// exactly if the group is gone. A call that succeeds is the last.
pub proof fn law_signal_goes_to_the_command(
    pid: i32,
    signal: Signal,
    foreground: bool,
    ret: i32,
    errno: i32,
)
    ensures
        ({
            let (sending, action) = SendSignal::begun(pid, signal, foreground);
            let then = sending.next(ret, errno).1;
            &&& foreground ==> action == (SendAction::Kill {
                pid,
                number: signal.number() as i32,
            })
            &&& !foreground ==> action == (SendAction::KillGroup {
                pid,
                number: signal.number() as i32,
            })
            &&& ret == 0 ==> then == SendAction::Return(Ok(()))
            &&& !foreground && ret != 0 && errno == 3 ==> then == (SendAction::Kill {
                pid,
                number: signal.number() as i32,
            })
            &&& foreground || errno != 3 ==> then is Return
        }),
{
}

/// What the second call, to the command alone, came to is what sending came to: it
/// was sent, or the command is gone, or it failed with its error number.
pub proof fn law_second_call_decides(
    pid: i32,
    signal: Signal,
    first: i32,
    ret: i32,
    errno: i32,
)
    requires
        first != 0,
    ensures
        ({
            let sending = SendSignal::begun(pid, signal, false).0.next(first, 3).0;
            let end = sending.next(ret, errno).1;
            &&& ret == 0 || errno == 3 ==> end == SendAction::Return(Ok(()))
            &&& ret != 0 && errno != 3 ==> end == SendAction::Return(
                Err(TimeoutError::SignalError(errno)),
            )
        }),
{
}

} // verus!
