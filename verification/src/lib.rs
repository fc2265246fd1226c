//! Verified core of a supervisor for long-running submission servers.
//!
//! The library covers the decisions the supervisor makes: which interpreter
//! runs an entry file, what command line is spawned, how a child's output
//! streams are split into lines, and how launch and kill outcomes are turned
//! into caller-facing responses. The surrounding process I/O (spawning,
//! reading pipes, sending signals) lives outside the library and feeds it
//! plain values.

pub mod discovery;
pub mod launch;
pub mod listing;
pub mod metadata;
pub mod piper;
pub mod supervise;
