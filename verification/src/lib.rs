//! Process supervision: run a command under a deadline, resource limits and
//! retries, and decide what to do about everything that happens meanwhile.

pub mod args;
pub mod attempts;
pub mod clock;
pub mod command;
pub mod config;
pub mod duration;
pub mod error;
pub mod forwarding;
pub mod forwarding_laws;
pub mod hook;
pub mod hook_laws;
pub mod kqueue;
pub mod monitor;
pub mod monitor_laws;
pub mod notice;
pub mod outcome;
pub mod process;
pub mod retry;
pub mod retry_laws;
pub mod rlimit;
pub mod runner;
pub mod send;
pub mod signal;
pub mod sys;
pub mod text;
pub mod throttle;
pub mod time;
pub mod wait;
pub mod wait_event_laws;
pub mod wait_laws;
pub mod watch_laws;

pub use crate::duration::parse_duration;
pub use crate::outcome::TimeoutReason;
pub use crate::rlimit::ResourceLimits;
pub use crate::runner::{RunConfig, RunResult};
pub use crate::signal::{parse_signal, Signal};
