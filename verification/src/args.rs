//! What the user asked for, as text.

use vstd::prelude::*;

verus! {

/// Which time counts.
#[derive(Clone, Copy, Debug, PartialEq, Eq, Structural)]
pub enum Confine {
    /// All of it, the time the machine sleeps included.
    Wall,
    /// Only the time the machine is awake.
    Active,
}

/// The options of a run, as text.
#[derive(Debug)]
pub struct OwnedArgs {
    pub signal: String,
    pub kill_after: Option<String>,
    pub foreground: bool,
    pub verbose: bool,
    pub quiet: bool,
    pub timeout_exit_code: Option<u8>,
    pub on_timeout: Option<String>,
    pub on_timeout_limit: String,
    pub confine: Confine,
    pub retry: Option<String>,
    pub retry_delay: Option<String>,
    pub retry_backoff: Option<String>,
    pub heartbeat: Option<String>,
    pub stdin_timeout: Option<String>,
    pub stdin_passthrough: bool,
    pub mem_limit: Option<String>,
    pub cpu_time: Option<String>,
    pub cpu_percent: Option<String>,
}

} // verus!
