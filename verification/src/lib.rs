//! A small library to run binaries and shell commands.
//!
//! The crate resolves an executable by explicit path or by searching the
//! platform's executable search path, resolves the preferred command shell
//! together with the argument form that makes it execute an inline command
//! string, accumulates a command specification, and models the lifecycle of a
//! spawned child: a non-blocking running check with a memoized exit status,
//! and a terminal wait verdict that surfaces the exit code (and, for the
//! capturing flavor, the child's stderr text) on failure.
//!
//! Spawning itself, pipe I/O and environment reads are operating-system work
//! and live with the caller; everything that decides or computes stands here.

pub mod error;
pub mod platform;
pub mod text;
pub mod lookup;
pub mod builder;
pub mod child;

pub use crate::builder::ExecBuilder;
pub use crate::child::ChildState;
pub use crate::child::ExitInfo;
pub use crate::error::Error;
pub use crate::error::ErrorKind;
pub use crate::lookup::Binary;
pub use crate::lookup::Shell;
