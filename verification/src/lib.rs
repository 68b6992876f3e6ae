//! Command-dispatch core of an interactive data-exploration shell.
//!
//! Free-form connection strings are classified into typed descriptors,
//! combined with the remaining arguments into an immutable connect
//! command, and handed through an ordered, exactly-once dispatch queue to
//! an executor that drives whichever backend is active.

pub mod classify;
pub mod command;
pub mod dispatch;
pub mod error;
pub mod executor;
