//! What the supervisor takes from `libc`: error numbers, poll bits and the
//! decoding of a wait status.
//!
//! Each item here is believed as stated. The numbers are the ones that libc
//! declares for Darwin; its Linux targets declare the same.

use vstd::prelude::*;

verus! {

/// `libc::ENOENT`, "no such file or directory", is 2.
#[verifier::external_body]
pub(crate) fn enoent() -> (code: i32)
    ensures
        code == 2,
{
    libc::ENOENT
}

/// `libc::ESRCH`, "no such process", is 3.
#[verifier::external_body]
pub(crate) fn esrch() -> (code: i32)
    ensures
        code == 3,
{
    libc::ESRCH
}

/// `libc::EINTR`, "interrupted system call", is 4.
#[verifier::external_body]
pub(crate) fn eintr() -> (code: i32)
    ensures
        code == 4,
{
    libc::EINTR
}

/// `libc::EBADF`, "bad file descriptor", is 9.
#[verifier::external_body]
pub(crate) fn ebadf() -> (code: i32)
    ensures
        code == 9,
{
    libc::EBADF
}

/// `libc::ECHILD`, "no child processes", is 10.
#[verifier::external_body]
pub(crate) fn echild() -> (code: i32)
    ensures
        code == 10,
{
    libc::ECHILD
}

/// `libc::POLLIN`, the poll bit for readable data, is 1.
#[verifier::external_body]
pub(crate) fn pollin() -> (bits: i16)
    ensures
        bits == 1,
{
    libc::POLLIN
}

/// `libc::POLLHUP`, the poll bit for a hung-up peer, is 16.
#[verifier::external_body]
pub(crate) fn pollhup() -> (bits: i16)
    ensures
        bits == 16,
{
    libc::POLLHUP
}

/// `libc::WIFEXITED`: the low seven bits of a wait status are zero exactly
/// when the process left by `exit`.
pub assume_specification [libc::WIFEXITED](status: libc::c_int) -> (exited: bool)
    ensures
        exited == (status & 0x7f == 0),
;

/// `libc::WEXITSTATUS`: the exit code is the second byte of the wait status.
pub assume_specification [libc::WEXITSTATUS](status: libc::c_int) -> (code: libc::c_int)
    ensures
        code == (status >> 8) & 0xff,
;

/// `libc::WIFSIGNALED`: the low seven bits name a signal unless they are zero
/// (exited) or all ones (stopped).
pub assume_specification [libc::WIFSIGNALED](status: libc::c_int) -> (signaled: bool)
    ensures
        signaled == (status & 0x7f != 0 && status & 0x7f != 0x7f),
;

/// `libc::WTERMSIG`: the signal is the low seven bits of the wait status.
pub assume_specification [libc::WTERMSIG](status: libc::c_int) -> (signal: libc::c_int)
    ensures
        signal == status & 0x7f,
;

} // verus!
