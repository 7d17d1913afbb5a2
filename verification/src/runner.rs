//! What it takes to run a command, in one place.

pub use crate::attempts::{AttemptResult, Attempts, MAX_RETRIES};
pub use crate::command::run_command;
pub use crate::config::RunConfig;
pub use crate::forwarding::{cleanup_signal_forwarding, setup_signal_forwarding};
pub use crate::outcome::{HookResult, RunResult, TimeoutReason};
pub use crate::retry::run_with_retry;
pub use crate::throttle::ThrottleContext;
