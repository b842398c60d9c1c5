//! SafeExec: the decisions of a small Linux sandbox runtime, verified.
//!
//! The library parses resource limits, lays out the control-file writes of a
//! cgroup v2 slice, plans the filesystem operations that build a minimal root,
//! plans the identity mappings of a user namespace and renders the narrative of
//! the execution theater. The program around it performs the system calls.
pub mod cgroup;
pub mod cli;
pub mod error;
pub mod laws;
pub mod mount;
pub mod namespace;
pub mod runtime;
pub mod task;
pub mod telemetry;
pub mod text;
pub mod theater;
pub mod time;
pub mod units;
