//! The kernel event queue: filters that are handed to it and events that come
//! back, and what polling input and the signal pipe say.
//!
//! libc declares the filter numbers and flags for Darwin only, so they stand
//! here, by their Darwin values.

use vstd::prelude::*;

use crate::signal::{signal_of, Signal};
use crate::sys::{pollhup, pollin};

verus! {

/// Filter: a descriptor is readable.
pub const EVFILT_READ: i16 = -1;

/// Filter: something happened to a process.
pub const EVFILT_PROC: i16 = -5;

/// Filter: a timer fired.
pub const EVFILT_TIMER: i16 = -7;

/// Flag: add the filter.
pub const EV_ADD: u16 = 0x1;

/// Flag: delete the filter.
pub const EV_DELETE: u16 = 0x2;

/// Flag: the filter goes away once it has fired.
pub const EV_ONESHOT: u16 = 0x10;

/// Flag: the event reports an error; its number is in the data.
pub const EV_ERROR: u16 = 0x4000;

/// Flag: the other end is closed.
pub const EV_EOF: u16 = 0x8000;

/// Process filter: report the exit.
pub const NOTE_EXIT: u32 = 0x8000_0000;

/// Timer filter: the data counts nanoseconds.
pub const NOTE_NSECONDS: u32 = 0x4;

/// The timer of the main wait.
pub const MAIN_TIMER: u64 = 1;

/// The timer of the hook's wait.
pub const HOOK_TIMER: u64 = 2;

/// A filter to be changed.
#[derive(Clone, Copy, Debug, PartialEq, Eq, Structural)]
pub struct KeventChange {
    pub ident: u64,
    pub filter: i16,
    pub flags: u16,
    pub fflags: u32,
    pub data: i64,
}

/// An event that the queue reported.
#[derive(Clone, Copy, Debug, PartialEq, Eq, Structural)]
pub struct KernelEvent {
    pub ident: u64,
    pub filter: i16,
    pub flags: u16,
    pub data: i64,
}

impl KernelEvent {
    /// Does it report an error?
    pub open spec fn failed(self) -> bool {
        self.flags & EV_ERROR != 0
    }

    /// Does it report a closed other end?
    pub open spec fn hung_up(self) -> bool {
        self.flags & EV_EOF != 0
    }

    /// The error number it reports.
    pub open spec fn error(self) -> i32 {
        self.data as i32
    }

    /// Does it report an error?
    pub fn is_error(&self) -> (yes: bool)
        ensures
            yes == self.failed(),
    {
        (self.flags & EV_ERROR) != 0
    }

    /// Does it report a closed other end?
    pub fn is_eof(&self) -> (yes: bool)
        ensures
            yes == self.hung_up(),
    {
        (self.flags & EV_EOF) != 0
    }

    /// The error number it reports.
    pub fn error_number(&self) -> (code: i32)
        ensures
            code == self.error(),
    {
        #[verifier::truncate]
        (self.data as i32)
    }
}

/// The filter that reports the exit of `pid`, once.
pub open spec fn exit_filter(pid: i32) -> KeventChange {
    KeventChange {
        ident: pid as u64,
        filter: EVFILT_PROC,
        flags: EV_ADD | EV_ONESHOT,
        fflags: NOTE_EXIT,
        data: 0,
    }
}

/// The filter that fires after `ns` nanoseconds, once.
pub open spec fn timer_filter(timer: u64, ns: u64) -> KeventChange {
    KeventChange {
        ident: timer,
        filter: EVFILT_TIMER,
        flags: EV_ADD | EV_ONESHOT,
        fflags: NOTE_NSECONDS,
        data: ns as i64,
    }
}

/// The filter that reports readable data on `fd`.
pub open spec fn read_filter(fd: i32, flags: u16) -> KeventChange {
    KeventChange { ident: fd as u64, filter: EVFILT_READ, flags, fflags: 0, data: 0 }
}

/// The filter that reports the exit of `pid`, once.
pub fn watch_exit(pid: i32) -> (change: KeventChange)
    ensures
        change == exit_filter(pid),
{
    KeventChange {
        ident: pid as u64,
        filter: EVFILT_PROC,
        flags: EV_ADD | EV_ONESHOT,
        fflags: NOTE_EXIT,
        data: 0,
    }
}

/// The filter that fires after `ns` nanoseconds, once.
pub fn watch_timer(timer: u64, ns: u64) -> (change: KeventChange)
    ensures
        change == timer_filter(timer, ns),
{
    KeventChange {
        ident: timer,
        filter: EVFILT_TIMER,
        flags: EV_ADD | EV_ONESHOT,
        fflags: NOTE_NSECONDS,
        data: ns as i64,
    }
}

/// The filter that reports readable data on `fd`.
pub fn watch_read(fd: i32, flags: u16) -> (change: KeventChange)
    ensures
        change == read_filter(fd, flags),
{
    KeventChange { ident: fd as u64, filter: EVFILT_READ, flags, fflags: 0, data: 0 }
}

/// What polling the input without reading it says.
#[derive(Clone, Copy, Debug, PartialEq, Eq, Structural)]
pub enum StdinPollResult {
    /// There is data.
    Readable,
    /// There is none, and there may be more.
    Idle,
    /// There is none and there will be no more.
    Eof,
}

/// What a poll of the input says, by the number of ready descriptors and the
/// bits reported: data counts before a closed other end.
pub open spec fn poll_result(ready: i32, revents: i16) -> StdinPollResult {
    if ready <= 0 {
        StdinPollResult::Idle
    } else if revents & 1 != 0 {
        StdinPollResult::Readable
    } else if revents & 16 != 0 {
        StdinPollResult::Eof
    } else {
        StdinPollResult::Idle
    }
}

/// What a poll of the input says.
pub fn stdin_poll_status(ready: i32, revents: i16) -> (result: StdinPollResult)
    ensures
        result == poll_result(ready, revents),
{
    if ready <= 0 {
        return StdinPollResult::Idle;
    }
    if (revents & pollhup()) != 0 && (revents & pollin()) == 0 {
        return StdinPollResult::Eof;
    }
    if (revents & pollin()) != 0 {
        return StdinPollResult::Readable;
    }
    StdinPollResult::Idle
}

/// The byte that stands for a signal in the pipe: its number's low eight bits.
pub open spec fn byte_of_signal(number: i32) -> u8 {
    number as u8
}

/// What the signal handler writes to the pipe: one byte, unless there is no
/// pipe.
pub fn signal_handler(write_fd: i32, number: i32) -> (byte: Option<u8>)
    ensures
        byte == (if write_fd >= 0 {
            Some(byte_of_signal(number))
        } else {
            None
        }),
{
    if write_fd >= 0 {
        #[verifier::truncate]
        let byte: u8 = number as u8;
        Some(byte)
    } else {
        None
    }
}

/// The signal that a byte in the pipe stands for; `SIGTERM` where it stands
/// for none.
pub open spec fn signal_of_byte(byte: u8) -> Signal {
    match signal_of(byte as int) {
        Some(signal) => signal,
        None => Signal::SIGTERM,
    }
}

/// The signal that reading the pipe gave: `count` is what the read returned.
pub open spec fn pipe_signal(count: i64, byte: u8) -> Option<Signal> {
    if count > 0 {
        Some(signal_of_byte(byte))
    } else {
        None
    }
}

/// The signal that reading the pipe gave: `count` is what the read returned.
pub fn read_signal_from_pipe(count: i64, byte: u8) -> (signal: Option<Signal>)
    ensures
        signal == pipe_signal(count, byte),
{
    if count > 0 {
        match Signal::try_from_raw(byte as i32) {
            Some(signal) => Some(signal),
            None => Some(Signal::SIGTERM),
        }
    } else {
        None
    }
}

/// A signal comes out of the pipe as it went in.
pub proof fn law_pipe_round_trip(signal: Signal, count: i64)
    requires
        count > 0,
    ensures
        pipe_signal(count, byte_of_signal(signal.number() as i32)) == Some(signal),
{
    crate::signal::law_number_round_trip(signal);
}

/// What a poll of the input says, by what the kernel reports: nothing without a
/// ready descriptor, data wherever there is some, and the end only where the other
/// end is closed and all data is gone.
pub proof fn law_poll_finds_data_before_the_end(ready: i32, revents: i16)
    ensures
        poll_result(ready, revents) is Readable <==> ready > 0 && revents & 1 != 0,
        poll_result(ready, revents) is Eof <==> ready > 0 && revents & 1 == 0 && revents & 16 != 0,
        ready <= 0 ==> poll_result(ready, revents) is Idle,
{
}

/// Something in the pipe is always a signal: the one with that number or, where
/// there is none, `SIGTERM`. Nothing in the pipe is none.
pub proof fn law_pipe_gives_the_signal_with_the_number(count: i64, byte: u8)
    ensures
        count <= 0 ==> pipe_signal(count, byte) is None,
        count > 0 ==> pipe_signal(count, byte) is Some,
        count > 0 && 1 <= byte <= 31 ==> pipe_signal(count, byte)->0.number() == byte,
        count > 0 && !(1 <= byte <= 31) ==> pipe_signal(count, byte) == Some(Signal::SIGTERM),
{
}

/// An event reports an error, or a closed other end, by a flag of its own, and the
/// number of an error in its data.
pub proof fn law_event_reports_by_its_flags(event: KernelEvent)
    ensures
        event.failed() <==> event.flags & 0x4000 != 0,
        event.hung_up() <==> event.flags & 0x8000 != 0,
        0 <= event.data <= 0x7fff_ffff ==> event.error() == event.data,
{
}

/// The filters ask for what they are for: the exit of one process, a timer after
/// so many nanoseconds, and data on one descriptor. The first two fire once.
pub proof fn law_filters_ask_for_one_thing(pid: i32, timer: u64, ns: u64, fd: i32, flags: u16)
    requires
        pid >= 0,
        fd >= 0,
        ns <= 0x7fff_ffff_ffff_ffff,
    ensures
        ({
            let exit = exit_filter(pid);
            &&& exit.ident == pid && exit.filter == (-5) as i16 && exit.data == 0
            &&& exit.flags & 0x1 != 0 && exit.flags & 0x10 != 0 && exit.flags & 0x2 == 0
            &&& exit.fflags == 0x8000_0000
        }),
        ({
            let alarm = timer_filter(timer, ns);
            &&& alarm.ident == timer && alarm.filter == (-7) as i16 && alarm.data == ns
            &&& alarm.flags & 0x1 != 0 && alarm.flags & 0x10 != 0 && alarm.flags & 0x2 == 0
            &&& alarm.fflags == 0x4
        }),
        ({
            let read = read_filter(fd, flags);
            &&& read.ident == fd && read.filter == (-1) as i16 && read.data == 0
            &&& read.flags == flags && read.fflags == 0
        }),
{
    assert((0x1u16 | 0x10u16) & 0x1 != 0 && (0x1u16 | 0x10u16) & 0x10 != 0 && (0x1u16 | 0x10u16)
        & 0x2 == 0) by (bit_vector);
}

} // verus!
