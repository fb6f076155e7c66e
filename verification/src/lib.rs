//! Decision core of a monitor for Linux Pressure Stall Information (PSI).
//!
//! A pressure monitor opens a notification source (the PSI pseudo-file, a
//! named pipe or a Unix stream socket), arms it by writing a threshold
//! expression, and then waits for the kernel to signal pressure events.
//!
//! This crate holds every decision of that procedure and none of its
//! system calls. The caller performs each action the library asks for and
//! reports how it went; the library answers with the next action or the
//! final result:
//!
//! 1. [`resolve`] turns the two environment lookups into a [`MonitorConfig`].
//! 2. [`init_monitor`] classifies the file type found at the configured path
//!    and returns the [`Setup`] that opens and arms the source.
//! 3. [`PressureMonitor::wait`] starts a [`Wait`], which says what readiness
//!    to wait for and whether to drain the source afterwards.
//!
//! What follows from these decisions for every monitor (a source is armed
//! exactly once, a regular file is never read, a pipe or a socket is
//! drained once after every event, a wait under lasting pressure never
//! fails) is stated and proved in [`laws`].
//!
//! Surprising on purpose: a watch path of `/dev/null`, which service
//! supervisors use to say "monitoring disabled", selects the system-wide
//! default source instead of switching the monitor off.

pub mod config;
pub mod error;
pub mod laws;
pub mod monitor;
pub mod setup;
pub mod source;
pub mod wait;

pub use config::{resolve, MonitorConfig};
pub use error::{DecodeError, Errno, Error, VarError};
pub use monitor::{MonitorType, PressureMonitor};
pub use setup::{init_monitor, Armed, OpenFlags, Setup, SetupAction, SetupStep};
pub use source::{FileType, SourceKind};
pub use wait::{Engine, Readiness, Wait, WaitAction, WaitPlan, WaitStep};
