//! Run a command, or the current program, with elevated operating-system
//! privileges.
//!
//! The library decides what to run and how: which elevation helper to use,
//! which arguments to hand it, whether the child must be detached, how the
//! Windows parameter string is quoted, and when the startup monitor is done.
//! The host program performs the process and system calls that it describes.

mod strutil;

pub mod command;
pub mod impl_unix;
pub mod impl_windows;
pub mod monitor;
pub mod restart_self;

pub use command::{Command, LaunchError, LaunchOutcome, DEFAULT_ELEVATION_TIMEOUT_MS};
