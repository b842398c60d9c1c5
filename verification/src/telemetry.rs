//! The events that the runtime reports while it works.
use vstd::prelude::*;

use crate::time::Duration;

verus! {

/// One event of a run.
#[derive(Debug, Clone, PartialEq, Eq)]
pub enum TelemetryEvent {
    /// The engine started a session; `timestamp` is the time since the Unix epoch.
    EngineInit { session_id: String, timestamp: Duration },
    WorkspaceAllocated { path: String },
    CgroupConfigured { memory_max: u64, pid_max: u64 },
    NamespaceCreated { flags: String },
    NetworkIsolated,
    ProcessSpawned { pid: i32, binary: String },
    /// A sample of the resources in use; `cpu_pct` is the CPU share as the
    /// caller rendered it in whole percent.
    MetricUpdate { ram_mb: u64, cpu_pct: String, tasks: u64 },
    ProcessExited { code: Option<i32>, signal: Option<i32> },
    CleanupCompleted,
    TimeoutReached,
    OomKilled,
}

/// The stream that carries events to the terminal.
pub struct TelemetryPipeline;

impl TelemetryPipeline {
    pub fn new() -> (p: Self) {
        TelemetryPipeline
    }
}

} // verus!
