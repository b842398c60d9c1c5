use safeexec::cgroup::CgroupV2Manager;
use safeexec::cli::{Args, TheaterMode};
use safeexec::runtime::RuntimeOrchestrator;
use safeexec::telemetry::{TelemetryEvent, TelemetryPipeline};
use safeexec::theater::TheatrerEngine;
use safeexec::time::Duration;

fn narrate(e: &TelemetryEvent) -> Option<String> {
    TheatrerEngine::new(TheaterMode::Narrative).render(e, "ignored").unwrap()
}

#[test]
fn silent_mode_renders_nothing() {
    let t = TheatrerEngine::new(TheaterMode::Silent);
    for e in [TelemetryEvent::NetworkIsolated, TelemetryEvent::OomKilled] {
        assert_eq!(t.render(&e, "x"), Ok(None));
    }
}

#[test]
fn technical_mode_prefixes_the_debug_text() {
    let t = TheatrerEngine::new(TheaterMode::Technical);
    assert_eq!(t.render(&TelemetryEvent::OomKilled, "OomKilled"), Ok(Some("[TECH] OomKilled".to_string())));
}

#[test]
fn narrative_lines() {
    assert_eq!(
        narrate(&TelemetryEvent::EngineInit {
            session_id: "sf-89a1".to_string(),
            timestamp: Duration { secs: 0, nanos: 0 }
        }),
        Some("🎭 [PROLOGUE]  The SafeExec stage opens for session sf-89a1...".to_string())
    );
    assert_eq!(
        narrate(&TelemetryEvent::WorkspaceAllocated { path: "/tmp/w".to_string() }),
        Some("📁 [VFS]       A temporary world is carved at /tmp/w".to_string())
    );
    assert_eq!(
        narrate(&TelemetryEvent::CgroupConfigured { memory_max: 64_000_000, pid_max: 20 }),
        Some("🛡️ [CGROUP]    The memory cage is locked: 64MB maximum. Fork-bomb fuse: 20 threads.".to_string())
    );
    assert_eq!(
        narrate(&TelemetryEvent::NamespaceCreated { flags: "0x7c020000".to_string() }),
        Some("🔒 [NS_INIT]   Four veils descend — PID, Mount, UTS, User — the host disappears.".to_string())
    );
    assert_eq!(
        narrate(&TelemetryEvent::NetworkIsolated),
        Some("🌐 [NETNS]     The network stage is stripped bare. Only loopback echoes remain.".to_string())
    );
    assert_eq!(
        narrate(&TelemetryEvent::ProcessSpawned { pid: 1, binary: "./t".to_string() }),
        Some("⚡ [ACT I]     The actor steps through the clone gate. PID 1 in a universe of one.".to_string())
    );
    assert_eq!(
        narrate(&TelemetryEvent::MetricUpdate { ram_mb: 14, cpu_pct: "12".to_string(), tasks: 1 }),
        Some("📊 [METRICS]   RAM: 14 MB | CPU: 12% | Tasks: 1".to_string())
    );
    assert_eq!(
        narrate(&TelemetryEvent::ProcessExited { code: Some(0), signal: None }),
        Some("✅ [EPILOGUE]  The actor exits with grace. Status Code 0.".to_string())
    );
    assert_eq!(
        narrate(&TelemetryEvent::ProcessExited { code: None, signal: Some(9) }),
        Some("💀 [EPILOGUE]  The actor was struck down by signal 9.".to_string())
    );
    assert_eq!(narrate(&TelemetryEvent::ProcessExited { code: None, signal: None }), None);
    assert_eq!(
        narrate(&TelemetryEvent::CleanupCompleted),
        Some("🧹 [CLEANUP]   The temporary world dissolves. Cgroup slice erased.".to_string())
    );
    assert_eq!(
        narrate(&TelemetryEvent::TimeoutReached),
        Some("⏱️ [EPILOGUE]  The curtain falls early — execution timed out.".to_string())
    );
    assert_eq!(
        narrate(&TelemetryEvent::OomKilled),
        Some("💥 [EPILOGUE]  The memory cage broke the actor. OOM kill triggered.".to_string())
    );
}

fn cage(memory_max: u64) -> Option<String> {
    narrate(&TelemetryEvent::CgroupConfigured { memory_max, pid_max: 1 })
}

#[test]
fn memory_cage_rendered_by_byte_unit() {
    let line = |m: &str| {
        Some(format!("🛡️ [CGROUP]    The memory cage is locked: {} maximum. Fork-bomb fuse: 1 threads.", m))
    };
    assert_eq!(cage(0), line("0B"));
    assert_eq!(cage(512), line("512B"));
    assert_eq!(cage(1000), line("1000B"));
    assert_eq!(cage(1500), line("1.5KB"));
    assert_eq!(cage(1_000_000), line("1000KB"));
    assert_eq!(cage(64_000_000), line("64MB"));
    assert_eq!(cage(67108864), line("67.108864MB"));
    assert_eq!(cage(2_000_000_000), line("2GB"));
}

#[test]
fn pipeline_is_created() {
    let _p = TelemetryPipeline::new();
    assert_eq!(TheaterMode::Narrative, TheaterMode::Narretive);
}

fn args(session: Option<&str>, cpu: Option<&str>, mem: &str) -> Args {
    Args {
        executable: "./prog".to_string(),
        args: vec![],
        max_memory: mem.to_string(),
        max_pids: 20,
        cpu_max: cpu.map(|c| c.to_string()),
        timeout: "30s".to_string(),
        input: None,
        output: None,
        theater_mode: TheaterMode::Narretive,
        quiet_telemetry: false,
        session_id: session.map(|s| s.to_string()),
    }
}

#[test]
fn orchestrator_session() {
    let o = RuntimeOrchestrator::new(args(Some("abc"), None, "64MB")).unwrap();
    assert_eq!(o.session_id, "abc");
    assert_eq!(o.hostname(), "safeexec-abc");
    let g = RuntimeOrchestrator::new(args(None, None, "64MB")).unwrap();
    assert_eq!(g.session_id.chars().count(), 10);
    assert!(g.session_id.chars().all(|c| c.is_ascii_alphanumeric() || c == '_' || c == '-'));
}

#[test]
fn orchestrator_limits() {
    let o = RuntimeOrchestrator::new(args(Some("abc"), Some("50000 100000"), "64MB")).unwrap();
    let cg = CgroupV2Manager::new(&o.session_id);
    let ws = o.limit_writes(&cg).unwrap().unwrap();
    assert_eq!(ws.len(), 3);
    assert_eq!(ws[0].path, "/sys/fs/cgroup/safeexec_abc/memory.max");
    assert_eq!(ws[0].value, "64000000");
    assert_eq!(ws[1].value, "20");
    assert_eq!(ws[2].value, "50000 100000");
    let bad = RuntimeOrchestrator::new(args(Some("abc"), None, "lots")).unwrap();
    assert!(bad.limit_writes(&cg).unwrap().is_err());
    let huge = RuntimeOrchestrator::new(args(Some("abc"), None, "+17179869184GB")).unwrap();
    assert!(huge.limit_writes(&cg).is_none());
    let two = RuntimeOrchestrator::new(args(Some("abc"), None, "1KiB")).unwrap();
    assert_eq!(two.limit_writes(&cg).unwrap().unwrap().len(), 2);
}
