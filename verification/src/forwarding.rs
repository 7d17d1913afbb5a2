//! Taking in the signals that are to be passed on.
//!
//! A signal handler can do little but write to a pipe. So each handled signal
//! puts its number into a pipe, and the event queue watches the other end. Both
//! ends are kept in slots that all of the process shares; an empty slot holds
//! -1.

use vstd::prelude::*;

use crate::signal::Signal;

verus! {

/// How many signals are handled.
pub const HANDLED: u8 = 6;

/// The signals that are handled, in the order in which they are.
pub open spec fn handled(index: int) -> Signal {
    if index == 0 {
        Signal::SIGTERM
    } else if index == 1 {
        Signal::SIGINT
    } else if index == 2 {
        Signal::SIGHUP
    } else if index == 3 {
        Signal::SIGQUIT
    } else if index == 4 {
        Signal::SIGUSR1
    } else {
        Signal::SIGUSR2
    }
}

fn handled_signal(index: u8) -> (signal: Signal)
    ensures
        signal == handled(index as int),
{
    if index == 0 {
        Signal::SIGTERM
    } else if index == 1 {
        Signal::SIGINT
    } else if index == 2 {
        Signal::SIGHUP
    } else if index == 3 {
        Signal::SIGQUIT
    } else if index == 4 {
        Signal::SIGUSR1
    } else {
        Signal::SIGUSR2
    }
}

/// What setting up is in the middle of.
#[derive(Clone, Copy, Debug, PartialEq, Eq, Structural)]
pub enum SetupPhase {
    Creating,
    ReadFlags,
    ReadNonblocking,
    WriteFlags,
    WriteNonblocking,
    ReadCloseOnExec,
    WriteCloseOnExec,
    Claiming,
    Storing,
    Installing(u8),
    /// Closing the pipe; was the slot taken?
    ClosingRead(bool),
    ClosingWrite(bool),
    Loading,
    Done,
}

/// What setting up wants done.
#[derive(Clone, Copy, Debug, PartialEq, Eq, Structural)]
pub enum SetupAction {
    /// Make a pipe.
    CreatePipe,
    /// Read the flags of a descriptor.
    GetFlags { fd: i32 },
    /// Set the flags of a descriptor to these and "does not block".
    SetNonblocking { fd: i32, flags: i32 },
    /// Have a descriptor closed when another program is run.
    SetCloseOnExec { fd: i32 },
    /// Put the read end into its slot, if that is empty, at one stroke.
    Claim { fd: i32 },
    /// Put the write end into its slot.
    StoreWrite { fd: i32 },
    /// Install the handler for a signal.
    Install { signal: Signal },
    /// Close a descriptor.
    Close { fd: i32 },
    /// Look into the slot for the read end.
    LoadRead,
    /// It is over: the read end, if there is one.
    Return(Option<i32>),
}

/// What came of a [`SetupAction`].
#[derive(Clone, Copy, Debug, PartialEq, Eq)]
pub enum SetupEvent {
    /// Both ends of the pipe, if there is one.
    Pipe(Option<(i32, i32)>),
    /// The flags; negative if they could not be read.
    Flags(i32),
    /// What setting returned: negative if it failed.
    FlagsSet(i32),
    /// Was the slot empty?
    Claimed(bool),
    Stored,
    Installed,
    Closed,
    /// What is in the slot.
    Loaded(i32),
}

/// Setting up.
#[derive(Clone, Copy, Debug, PartialEq, Eq, Structural)]
pub struct Setup {
    pub phase: SetupPhase,
    pub read_fd: i32,
    pub write_fd: i32,
}

impl Setup {
    /// Is `event` what came of the action last asked for?
    pub open spec fn awaits(self, event: SetupEvent) -> bool {
        match self.phase {
            SetupPhase::Creating => event is Pipe,
            SetupPhase::ReadFlags => event is Flags,
            SetupPhase::ReadNonblocking => event is FlagsSet,
            SetupPhase::WriteFlags => event is Flags,
            SetupPhase::WriteNonblocking => event is FlagsSet,
            SetupPhase::ReadCloseOnExec => event is FlagsSet,
            SetupPhase::WriteCloseOnExec => event is FlagsSet,
            SetupPhase::Claiming => event is Claimed,
            SetupPhase::Storing => event is Stored,
            SetupPhase::Installing(i) => event is Installed && i < HANDLED,
            SetupPhase::ClosingRead(_) => event is Closed,
            SetupPhase::ClosingWrite(_) => event is Closed,
            SetupPhase::Loading => event is Loaded,
            SetupPhase::Done => false,
        }
    }

    /// Setting up that has asked for a pipe.
    pub open spec fn begun() -> Setup {
        Setup { phase: SetupPhase::Creating, read_fd: (-1) as i32, write_fd: (-1) as i32 }
    }

    /// Setting up with another thing to do.
    pub open spec fn at(self, phase: SetupPhase) -> Setup {
        Setup { phase, ..self }
    }

    /// Setting up gives its pipe up.
    pub open spec fn giving_up(self, taken: bool) -> (Setup, SetupAction) {
        (self.at(SetupPhase::ClosingRead(taken)), SetupAction::Close { fd: self.read_fd })
    }

    /// It is over.
    pub open spec fn over(self, fd: Option<i32>) -> (Setup, SetupAction) {
        (self.at(SetupPhase::Done), SetupAction::Return(fd))
    }

    /// What is done after an event: a pipe that cannot be kept from blocking is
    /// given up, and so is one for which the slot is taken. The write end is
    /// stored before any handler could need it.
    pub open spec fn next(self, event: SetupEvent) -> (Setup, SetupAction) {
        match (self.phase, event) {
            (SetupPhase::Creating, SetupEvent::Pipe(Some((read_fd, write_fd)))) => (
                Setup { phase: SetupPhase::ReadFlags, read_fd, write_fd },
                SetupAction::GetFlags { fd: read_fd },
            ),
            (SetupPhase::Creating, SetupEvent::Pipe(None)) => self.over(None),
            (SetupPhase::ReadFlags, SetupEvent::Flags(flags)) => if flags < 0 {
                self.giving_up(false)
            } else {
                (
                    self.at(SetupPhase::ReadNonblocking),
                    SetupAction::SetNonblocking { fd: self.read_fd, flags },
                )
            },
            (SetupPhase::ReadNonblocking, SetupEvent::FlagsSet(result)) => if result < 0 {
                self.giving_up(false)
            } else {
                (self.at(SetupPhase::WriteFlags), SetupAction::GetFlags { fd: self.write_fd })
            },
            (SetupPhase::WriteFlags, SetupEvent::Flags(flags)) => if flags < 0 {
                self.giving_up(false)
            } else {
                (
                    self.at(SetupPhase::WriteNonblocking),
                    SetupAction::SetNonblocking { fd: self.write_fd, flags },
                )
            },
            (SetupPhase::WriteNonblocking, SetupEvent::FlagsSet(result)) => if result < 0 {
                self.giving_up(false)
            } else {
                (
                    self.at(SetupPhase::ReadCloseOnExec),
                    SetupAction::SetCloseOnExec { fd: self.read_fd },
                )
            },
            (SetupPhase::ReadCloseOnExec, SetupEvent::FlagsSet(_)) => (
                self.at(SetupPhase::WriteCloseOnExec),
                SetupAction::SetCloseOnExec { fd: self.write_fd },
            ),
            (SetupPhase::WriteCloseOnExec, SetupEvent::FlagsSet(_)) => (
                self.at(SetupPhase::Claiming),
                SetupAction::Claim { fd: self.read_fd },
            ),
            (SetupPhase::Claiming, SetupEvent::Claimed(empty)) => if empty {
                (self.at(SetupPhase::Storing), SetupAction::StoreWrite { fd: self.write_fd })
            } else {
                self.giving_up(true)
            },
            (SetupPhase::Storing, SetupEvent::Stored) => (
                self.at(SetupPhase::Installing(0)),
                SetupAction::Install { signal: handled(0) },
            ),
            (SetupPhase::Installing(i), SetupEvent::Installed) => if i + 1 < HANDLED {
                (
                    self.at(SetupPhase::Installing((i + 1) as u8)),
                    SetupAction::Install { signal: handled(i + 1) },
                )
            } else {
                self.over(Some(self.read_fd))
            },
            (SetupPhase::ClosingRead(taken), SetupEvent::Closed) => (
                self.at(SetupPhase::ClosingWrite(taken)),
                SetupAction::Close { fd: self.write_fd },
            ),
            (SetupPhase::ClosingWrite(true), SetupEvent::Closed) => (
                self.at(SetupPhase::Loading),
                SetupAction::LoadRead,
            ),
            (SetupPhase::ClosingWrite(false), SetupEvent::Closed) => self.over(None),
            (SetupPhase::Loading, SetupEvent::Loaded(fd)) => self.over(
                if fd >= 0 {
                    Some(fd)
                } else {
                    None
                },
            ),
            _ => self.over(None),
        }
    }

    /// Goes on with what came of the action last asked for.
    pub fn step(self, event: SetupEvent) -> (next: (Setup, SetupAction))
        requires
            self.awaits(event),
        ensures
            next == self.next(event),
    {
        match (self.phase, event) {
            (SetupPhase::Creating, SetupEvent::Pipe(Some((read_fd, write_fd)))) => (
                Setup { phase: SetupPhase::ReadFlags, read_fd, write_fd },
                SetupAction::GetFlags { fd: read_fd },
            ),
            (SetupPhase::Creating, SetupEvent::Pipe(None)) => self.finish(None),
            (SetupPhase::ReadFlags, SetupEvent::Flags(flags)) => {
                if flags < 0 {
                    self.give_up(false)
                } else {
                    (
                        self.in_phase(SetupPhase::ReadNonblocking),
                        SetupAction::SetNonblocking { fd: self.read_fd, flags },
                    )
                }
            },
            (SetupPhase::ReadNonblocking, SetupEvent::FlagsSet(result)) => {
                if result < 0 {
                    self.give_up(false)
                } else {
                    (
                        self.in_phase(SetupPhase::WriteFlags),
                        SetupAction::GetFlags { fd: self.write_fd },
                    )
                }
            },
            (SetupPhase::WriteFlags, SetupEvent::Flags(flags)) => {
                if flags < 0 {
                    self.give_up(false)
                } else {
                    (
                        self.in_phase(SetupPhase::WriteNonblocking),
                        SetupAction::SetNonblocking { fd: self.write_fd, flags },
                    )
                }
            },
            (SetupPhase::WriteNonblocking, SetupEvent::FlagsSet(result)) => {
                if result < 0 {
                    self.give_up(false)
                } else {
                    (
                        self.in_phase(SetupPhase::ReadCloseOnExec),
                        SetupAction::SetCloseOnExec { fd: self.read_fd },
                    )
                }
            },
            (SetupPhase::ReadCloseOnExec, SetupEvent::FlagsSet(_)) => (
                self.in_phase(SetupPhase::WriteCloseOnExec),
                SetupAction::SetCloseOnExec { fd: self.write_fd },
            ),
            (SetupPhase::WriteCloseOnExec, SetupEvent::FlagsSet(_)) => (
                self.in_phase(SetupPhase::Claiming),
                SetupAction::Claim { fd: self.read_fd },
            ),
            (SetupPhase::Claiming, SetupEvent::Claimed(empty)) => {
                if empty {
                    (
                        self.in_phase(SetupPhase::Storing),
                        SetupAction::StoreWrite { fd: self.write_fd },
                    )
                } else {
                    self.give_up(true)
                }
            },
            (SetupPhase::Storing, SetupEvent::Stored) => (
                self.in_phase(SetupPhase::Installing(0)),
                SetupAction::Install { signal: handled_signal(0) },
            ),
            (SetupPhase::Installing(i), SetupEvent::Installed) => {
                if i + 1 < HANDLED {
                    (
                        self.in_phase(SetupPhase::Installing(i + 1)),
                        SetupAction::Install { signal: handled_signal(i + 1) },
                    )
                } else {
                    self.finish(Some(self.read_fd))
                }
            },
            (SetupPhase::ClosingRead(taken), SetupEvent::Closed) => (
                self.in_phase(SetupPhase::ClosingWrite(taken)),
                SetupAction::Close { fd: self.write_fd },
            ),
            (SetupPhase::ClosingWrite(taken), SetupEvent::Closed) => {
                if taken {
                    (self.in_phase(SetupPhase::Loading), SetupAction::LoadRead)
                } else {
                    self.finish(None)
                }
            },
            (SetupPhase::Loading, SetupEvent::Loaded(fd)) => self.finish(
                if fd >= 0 {
                    Some(fd)
                } else {
                    None
                },
            ),
            _ => self.finish(None),
        }
    }

    fn in_phase(self, phase: SetupPhase) -> (setup: Setup)
        ensures
            setup == self.at(phase),
    {
        Setup { phase, ..self }
    }

    fn finish(self, fd: Option<i32>) -> (next: (Setup, SetupAction))
        ensures
            next == self.over(fd),
    {
        (self.in_phase(SetupPhase::Done), SetupAction::Return(fd))
    }

    fn give_up(self, taken: bool) -> (next: (Setup, SetupAction))
        ensures
            next == self.giving_up(taken),
    {
        (self.in_phase(SetupPhase::ClosingRead(taken)), SetupAction::Close { fd: self.read_fd })
    }
}

/// Begins to set up the handlers and their pipe.
#[must_use]
pub fn setup_signal_forwarding() -> (begun: (Setup, SetupAction))
    ensures
        begun == (Setup::begun(), SetupAction::CreatePipe),
{
    (
        Setup { phase: SetupPhase::Creating, read_fd: -1, write_fd: -1 },
        SetupAction::CreatePipe,
    )
}

/// What cleaning up is in the middle of.
#[derive(Clone, Copy, Debug, PartialEq, Eq, Structural)]
pub enum CleanupPhase {
    Resetting(u8),
    TakingWrite,
    ClosingWrite,
    TakingRead,
    ClosingRead,
    Done,
}

/// What cleaning up wants done.
#[derive(Clone, Copy, Debug, PartialEq, Eq, Structural)]
pub enum CleanupAction {
    /// Give a signal its default handling again.
    Reset { signal: Signal },
    /// Take the write end out of its slot.
    TakeWrite,
    /// Take the read end out of its slot.
    TakeRead,
    /// Close a descriptor.
    Close { fd: i32 },
    /// It is over.
    Return,
}

/// What came of a [`CleanupAction`].
#[derive(Clone, Copy, Debug, PartialEq, Eq, Structural)]
pub enum CleanupEvent {
    Reset,
    /// What was in the slot.
    Taken(i32),
    Closed,
}

/// Cleaning up.
#[derive(Clone, Copy, Debug, PartialEq, Eq, Structural)]
pub struct Cleanup {
    pub phase: CleanupPhase,
}

impl Cleanup {
    /// Is `event` what came of the action last asked for?
    pub open spec fn awaits(self, event: CleanupEvent) -> bool {
        match self.phase {
            CleanupPhase::Resetting(i) => event is Reset && i < HANDLED,
            CleanupPhase::TakingWrite => event is Taken,
            CleanupPhase::ClosingWrite => event is Closed,
            CleanupPhase::TakingRead => event is Taken,
            CleanupPhase::ClosingRead => event is Closed,
            CleanupPhase::Done => false,
        }
    }

    /// What is done after an event: no handler is left when the pipe is closed.
    pub open spec fn next(self, event: CleanupEvent) -> (Cleanup, CleanupAction) {
        match (self.phase, event) {
            (CleanupPhase::Resetting(i), CleanupEvent::Reset) => if i + 1 < HANDLED {
                (
                    Cleanup { phase: CleanupPhase::Resetting((i + 1) as u8) },
                    CleanupAction::Reset { signal: handled(i + 1) },
                )
            } else {
                (Cleanup { phase: CleanupPhase::TakingWrite }, CleanupAction::TakeWrite)
            },
            (CleanupPhase::TakingWrite, CleanupEvent::Taken(fd)) => if fd >= 0 {
                (Cleanup { phase: CleanupPhase::ClosingWrite }, CleanupAction::Close { fd })
            } else {
                (Cleanup { phase: CleanupPhase::TakingRead }, CleanupAction::TakeRead)
            },
            (CleanupPhase::ClosingWrite, CleanupEvent::Closed) => (
                Cleanup { phase: CleanupPhase::TakingRead },
                CleanupAction::TakeRead,
            ),
            (CleanupPhase::TakingRead, CleanupEvent::Taken(fd)) => if fd >= 0 {
                (Cleanup { phase: CleanupPhase::ClosingRead }, CleanupAction::Close { fd })
            } else {
                (Cleanup { phase: CleanupPhase::Done }, CleanupAction::Return)
            },
            _ => (Cleanup { phase: CleanupPhase::Done }, CleanupAction::Return),
        }
    }

    /// Goes on with what came of the action last asked for.
    pub fn step(self, event: CleanupEvent) -> (next: (Cleanup, CleanupAction))
        requires
            self.awaits(event),
        ensures
            next == self.next(event),
    {
        match (self.phase, event) {
            (CleanupPhase::Resetting(i), CleanupEvent::Reset) => {
                if i + 1 < HANDLED {
                    (
                        Cleanup { phase: CleanupPhase::Resetting(i + 1) },
                        CleanupAction::Reset { signal: handled_signal(i + 1) },
                    )
                } else {
                    (Cleanup { phase: CleanupPhase::TakingWrite }, CleanupAction::TakeWrite)
                }
            },
            (CleanupPhase::TakingWrite, CleanupEvent::Taken(fd)) => {
                if fd >= 0 {
                    (Cleanup { phase: CleanupPhase::ClosingWrite }, CleanupAction::Close { fd })
                } else {
                    (Cleanup { phase: CleanupPhase::TakingRead }, CleanupAction::TakeRead)
                }
            },
            (CleanupPhase::ClosingWrite, CleanupEvent::Closed) => (
                Cleanup { phase: CleanupPhase::TakingRead },
                CleanupAction::TakeRead,
            ),
            (CleanupPhase::TakingRead, CleanupEvent::Taken(fd)) => {
                if fd >= 0 {
                    (Cleanup { phase: CleanupPhase::ClosingRead }, CleanupAction::Close { fd })
                } else {
                    (Cleanup { phase: CleanupPhase::Done }, CleanupAction::Return)
                }
            },
            _ => (Cleanup { phase: CleanupPhase::Done }, CleanupAction::Return),
        }
    }
}

/// Begins to clean up: the handlers go first, then their pipe.
pub fn cleanup_signal_forwarding() -> (begun: (Cleanup, CleanupAction))
    ensures
        begun == (
            (Cleanup { phase: CleanupPhase::Resetting(0) }),
            (CleanupAction::Reset { signal: handled(0) }),
        ),
{
    (
        Cleanup { phase: CleanupPhase::Resetting(0) },
        CleanupAction::Reset { signal: handled_signal(0) },
    )
}

} // verus!
