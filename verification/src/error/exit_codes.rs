//! Exit codes of the supervisor.

use vstd::prelude::*;

verus! {

/// The command ran out of time.
pub const TIMEOUT: u8 = 124;

/// The supervisor itself failed.
pub const INTERNAL_ERROR: u8 = 125;

/// The command may not be executed.
pub const CANNOT_INVOKE: u8 = 126;

/// There is no such command.
pub const NOT_FOUND: u8 = 127;

} // verus!
