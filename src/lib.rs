//! A minimal process supervisor: launch an executable with arguments read from
//! a sidecar file, restart it when its image changes on disk or when it exits,
//! and shut down on a termination signal.
//!
//! This crate holds the decisions of the supervisor, each with a contract:
//! argument tokenizing, the spawn retry policy, the comparison of file
//! fingerprints and the supervisor's control state machine. Running processes,
//! sleeping and reading files are left to the caller.

pub mod args;
pub mod detector;
pub mod launcher;
pub mod supervisor;
pub mod target;
