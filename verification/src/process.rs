//! How a child ended and what it used.

use vstd::prelude::*;

verus! {

/// The status word that waiting for a child gives.
#[derive(Clone, Copy, Debug, PartialEq, Eq, Structural)]
pub struct RawExitStatus {
    pub raw: i32,
}

impl RawExitStatus {
    /// The exit code, for a child that left by `exit`.
    pub open spec fn exit_code(self) -> Option<i32> {
        if self.raw & 0x7f == 0 {
            Some((self.raw >> 8) & 0xff)
        } else {
            None
        }
    }

    /// The signal's number, for a child that a signal killed.
    pub open spec fn term_signal(self) -> Option<i32> {
        if self.raw & 0x7f != 0 && self.raw & 0x7f != 0x7f {
            Some(self.raw & 0x7f)
        } else {
            None
        }
    }

    /// The status word `raw`.
    pub fn from_raw(raw: i32) -> (status: RawExitStatus)
        ensures
            status.raw == raw,
    {
        RawExitStatus { raw }
    }

    /// The exit code, for a child that left by `exit`.
    pub fn code(&self) -> (code: Option<i32>)
        ensures
            code == self.exit_code(),
            code matches Some(c) ==> 0 <= c <= 255,
    {
        let raw: i32 = self.raw;
        assert(0 <= (raw >> 8) & 0xff <= 255) by (bit_vector);
        if libc::WIFEXITED(raw) {
            Some(libc::WEXITSTATUS(raw))
        } else {
            None
        }
    }

    /// The signal's number, for a child that a signal killed.
    pub fn signal(&self) -> (signal: Option<i32>)
        ensures
            signal == self.term_signal(),
            signal matches Some(n) ==> 1 <= n <= 126,
    {
        let raw: i32 = self.raw;
        assert(0 <= raw & 0x7f <= 127) by (bit_vector);
        if libc::WIFSIGNALED(raw) {
            Some(libc::WTERMSIG(raw))
        } else {
            None
        }
    }
}

/// A child either left by `exit` or was killed by a signal, or neither (it is
/// stopped): never both.
pub proof fn law_exit_or_signal(status: RawExitStatus)
    ensures
        !(status.exit_code() is Some && status.term_signal() is Some),
        status.exit_code() matches Some(c) ==> 0 <= c <= 255,
        status.term_signal() matches Some(n) ==> 1 <= n <= 126,
{
    let raw = status.raw;
    assert(0 <= (raw >> 8) & 0xff <= 255) by (bit_vector);
    assert(0 <= raw & 0x7f <= 127) by (bit_vector);
}

/// What a child used.
#[derive(Clone, Copy, Debug, PartialEq, Eq, Structural)]
pub struct ResourceUsage {
    /// Processor time in user mode, in milliseconds.
    pub user_time_ms: u64,
    /// Processor time in the kernel, in milliseconds.
    pub system_time_ms: u64,
    /// The largest resident set, in kilobytes.
    pub max_rss_kb: u64,
}

/// A status word with an exit code in its second byte and nothing below it is
/// that of a child that left by `exit` with that code. One with a signal's number
/// in its low seven bits is that of a child that the signal killed, whether or
/// not memory was dumped.
pub proof fn law_status_word_tells_the_end(
    status: RawExitStatus,
    code: u8,
    number: u8,
    dumped: bool,
)
    requires
        1 <= number <= 126,
    ensures
        status.raw == code * 256 ==> status.exit_code() == Some(code as i32)
            && status.term_signal() is None,
        status.raw == number + if dumped {
            128int
        } else {
            0
        } ==> status.term_signal() == Some(number as i32) && status.exit_code() is None,
{
    let raw = status.raw;
    if raw == code * 256 {
        assert(raw & 0x7f == 0 && (raw >> 8) & 0xff == code as i32) by (bit_vector)
            requires
                raw == code * 256,
        ;
    }
    if dumped && raw == number + 128 {
        assert(raw & 0x7f == number as i32) by (bit_vector)
            requires
                raw == number + 128,
                number <= 126u8,
        ;
    }
    if !dumped && raw == number {
        assert(raw & 0x7f == number as i32) by (bit_vector)
            requires
                raw == number,
                number <= 126u8,
        ;
    }
}

} // verus!
