//! The command line of the runtime, as plain values.
use vstd::prelude::*;

verus! {

/// The options the runtime is started with.
#[derive(Debug, Clone)]
pub struct Args {
    /// The program to run inside the sandbox.
    pub executable: String,
    /// Its arguments.
    pub args: Vec<String>,
    /// The memory limit, such as `64MB`.
    pub max_memory: String,
    /// The largest number of tasks in the sandbox.
    pub max_pids: u64,
    /// The CPU quota written to `cpu.max`, such as `50000 100000`.
    pub cpu_max: Option<String>,
    /// The time limit, such as `30s`.
    pub timeout: String,
    /// A directory shown read-only at `/in`.
    pub input: Option<String>,
    /// A directory shown at `/out`.
    pub output: Option<String>,
    /// How the theater narrates the run.
    pub theater_mode: TheaterMode,
    /// Whether the telemetry stream stays quiet.
    pub quiet_telemetry: bool,
    /// A session identifier chosen by the caller.
    pub session_id: Option<String>,
}

/// How the execution theater renders events.
#[derive(Debug, Clone, Copy, PartialEq, Eq, Structural)]
pub enum TheaterMode {
    /// A human-readable story of each event.
    Narretive,
    /// The raw event, for debugging.
    Technical,
    /// Nothing at all.
    Silent,
}

#[allow(non_upper_case_globals)]
impl TheaterMode {
    /// The narrative mode, under its usual spelling.
    pub const Narrative: Self = TheaterMode::Narretive;
}

} // verus!
