//! The execution theater: a human-readable narrative of each event.
use vstd::prelude::*;

use crate::cli::TheaterMode;
use crate::error::SafeExecError;
use crate::mount::opt_view;
use crate::telemetry::TelemetryEvent;
use crate::text::{concat2, concat3, decimal, push_decimal, push_signed_decimal, signed_decimal};
use crate::units::{compact_bytes, compact_unit_text};
use vstd::string::StringExecFns;

verus! {

/// The narrative line of an event, or `None` for an exit with neither a
/// status nor a signal.
pub open spec fn narrative_text(e: TelemetryEvent) -> Option<Seq<char>> {
    match e {
        TelemetryEvent::EngineInit { session_id, .. } => Some(
            "🎭 [PROLOGUE]  The SafeExec stage opens for session "@ + session_id@ + "..."@,
        ),
        TelemetryEvent::WorkspaceAllocated { path } => Some("📁 [VFS]       A temporary world is carved at "@ + path@),
        TelemetryEvent::CgroupConfigured { memory_max, pid_max } => Some(
            "🛡️ [CGROUP]    The memory cage is locked: "@ + compact_bytes(memory_max) + " maximum. Fork-bomb fuse: "@ + decimal(pid_max as nat) + " threads."@,
        ),
        TelemetryEvent::NamespaceCreated { .. } => Some("🔒 [NS_INIT]   Four veils descend — PID, Mount, UTS, User — the host disappears."@),
        TelemetryEvent::NetworkIsolated => Some("🌐 [NETNS]     The network stage is stripped bare. Only loopback echoes remain."@),
        TelemetryEvent::ProcessSpawned { pid, .. } => Some(
            "⚡ [ACT I]     The actor steps through the clone gate. PID "@ + signed_decimal(pid as int) + " in a universe of one."@,
        ),
        TelemetryEvent::MetricUpdate { ram_mb, cpu_pct, tasks } => Some(
            "📊 [METRICS]   RAM: "@ + decimal(ram_mb as nat) + " MB | CPU: "@ + cpu_pct@ + "% | Tasks: "@ + decimal(tasks as nat),
        ),
        TelemetryEvent::ProcessExited { code: Some(c), .. } => Some(
            "✅ [EPILOGUE]  The actor exits with grace. Status Code "@ + signed_decimal(c as int) + "."@,
        ),
        TelemetryEvent::ProcessExited { code: None, signal: Some(s) } => Some(
            "💀 [EPILOGUE]  The actor was struck down by signal "@ + signed_decimal(s as int) + "."@,
        ),
        TelemetryEvent::ProcessExited { code: None, signal: None } => None,
        TelemetryEvent::CleanupCompleted => Some("🧹 [CLEANUP]   The temporary world dissolves. Cgroup slice erased."@),
        TelemetryEvent::TimeoutReached => Some("⏱️ [EPILOGUE]  The curtain falls early — execution timed out."@),
        TelemetryEvent::OomKilled => Some("💥 [EPILOGUE]  The memory cage broke the actor. OOM kill triggered."@),
    }
}

/// Renders events as the chosen mode asks.
pub struct TheatrerEngine {
    mode: TheaterMode,
}

impl TheatrerEngine {
    pub fn new(mode: TheaterMode) -> (t: Self)
        ensures
            t.mode() == mode,
    {
        TheatrerEngine { mode }
    }

    /// The mode the engine renders in.
    pub closed spec fn mode(&self) -> TheaterMode {
        self.mode
    }

    /// The line for `event`: nothing in silent mode; its narrative in
    /// narrative mode; in technical mode `[TECH] ` and then `technical`, the
    /// event as the caller's debug formatter writes it.
    pub fn render(&self, event: &TelemetryEvent, technical: &str) -> (r: Result<
        Option<String>,
        SafeExecError,
    >)
        ensures
            r is Ok,
            r matches Ok(line) && (match self.mode() {
                TheaterMode::Silent => line is None,
                TheaterMode::Narretive => opt_view(line) == narrative_text(*event),
                TheaterMode::Technical => opt_view(line) == Some("[TECH] "@ + technical@),
            }),
    {
        match self.mode {
            TheaterMode::Silent => Ok(None),
            TheaterMode::Narretive => Ok(self.narrative(event)),
            TheaterMode::Technical => Ok(Some(concat2("[TECH] ", technical))),
        }
    }

    /// The narrative line of `event`.
    pub fn narrative(&self, event: &TelemetryEvent) -> (line: Option<String>)
        ensures
            opt_view(line) == narrative_text(*event),
    {
        match event {
            TelemetryEvent::EngineInit { session_id, .. } => Some(
                concat3("🎭 [PROLOGUE]  The SafeExec stage opens for session ", session_id.as_str(), "..."),
            ),
            TelemetryEvent::WorkspaceAllocated { path } => Some(concat2("📁 [VFS]       A temporary world is carved at ", path.as_str())),
            TelemetryEvent::CgroupConfigured { memory_max, pid_max } => {
                let mem = compact_unit_text(*memory_max);
                let mut l = concat3("🛡️ [CGROUP]    The memory cage is locked: ", mem.as_str(), " maximum. Fork-bomb fuse: ");
                push_decimal(&mut l, *pid_max);
                l.append(" threads.");
                Some(l)
            },
            TelemetryEvent::NamespaceCreated { .. } => Some(String::from_str("🔒 [NS_INIT]   Four veils descend — PID, Mount, UTS, User — the host disappears.")),
            TelemetryEvent::NetworkIsolated => Some(String::from_str("🌐 [NETNS]     The network stage is stripped bare. Only loopback echoes remain.")),
            TelemetryEvent::ProcessSpawned { pid, .. } => {
                let mut l = String::from_str("⚡ [ACT I]     The actor steps through the clone gate. PID ");
                push_signed_decimal(&mut l, *pid as i64);
                l.append(" in a universe of one.");
                Some(l)
            },
            TelemetryEvent::MetricUpdate { ram_mb, cpu_pct, tasks } => {
                let mut l = String::from_str("📊 [METRICS]   RAM: ");
                push_decimal(&mut l, *ram_mb);
                l.append(" MB | CPU: ");
                l.append(cpu_pct.as_str());
                l.append("% | Tasks: ");
                push_decimal(&mut l, *tasks);
                Some(l)
            },
            TelemetryEvent::ProcessExited { code: Some(c), .. } => {
                let mut l = String::from_str("✅ [EPILOGUE]  The actor exits with grace. Status Code ");
                push_signed_decimal(&mut l, *c as i64);
                l.append(".");
                Some(l)
            },
            TelemetryEvent::ProcessExited { code: None, signal: Some(s) } => {
                let mut l = String::from_str("💀 [EPILOGUE]  The actor was struck down by signal ");
                push_signed_decimal(&mut l, *s as i64);
                l.append(".");
                Some(l)
            },
            TelemetryEvent::ProcessExited { code: None, signal: None } => None,
            TelemetryEvent::CleanupCompleted => Some(String::from_str("🧹 [CLEANUP]   The temporary world dissolves. Cgroup slice erased.")),
            TelemetryEvent::TimeoutReached => Some(String::from_str("⏱️ [EPILOGUE]  The curtain falls early — execution timed out.")),
            TelemetryEvent::OomKilled => Some(String::from_str("💥 [EPILOGUE]  The memory cage broke the actor. OOM kill triggered.")),
        }
    }
}

} // verus!
