use safeexec::cgroup::{CgroupV2Manager, ControlWrite, RemovalStep, REMOVAL_ATTEMPTS};
use safeexec::error::SafeExecError;

fn slice() -> CgroupV2Manager {
    CgroupV2Manager::new("s1")
}

fn cg_err(m: &str) -> SafeExecError {
    SafeExecError::Cgroup(m.to_string())
}

#[test]
fn slice_path_from_session() {
    assert_eq!(slice().path(), "/sys/fs/cgroup/safeexec_s1");
    assert_ne!(CgroupV2Manager::new("a").path(), CgroupV2Manager::new("b").path());
}

#[test]
fn limit_writes_target_control_files() {
    let cg = slice();
    assert_eq!(
        cg.set_memory_max(67108864),
        ControlWrite {
            path: "/sys/fs/cgroup/safeexec_s1/memory.max".to_string(),
            value: "67108864".to_string()
        }
    );
    assert_eq!(
        cg.set_cpu_max("50000 100000"),
        ControlWrite {
            path: "/sys/fs/cgroup/safeexec_s1/cpu.max".to_string(),
            value: "50000 100000".to_string()
        }
    );
    assert_eq!(
        cg.set_pids_max(20),
        ControlWrite {
            path: "/sys/fs/cgroup/safeexec_s1/pids.max".to_string(),
            value: "20".to_string()
        }
    );
    assert_eq!(
        cg.attach_pid(1234),
        ControlWrite {
            path: "/sys/fs/cgroup/safeexec_s1/cgroup.procs".to_string(),
            value: "1234".to_string()
        }
    );
    assert_eq!(cg.attach_pid(-1).value, "-1");
    assert_eq!(
        cg.kill_write(),
        ControlWrite {
            path: "/sys/fs/cgroup/safeexec_s1/cgroup.kill".to_string(),
            value: "1".to_string()
        }
    );
}

#[test]
fn control_write_failure_message() {
    let w = slice().set_pids_max(20);
    assert_eq!(
        w.failure("Permission denied"),
        cg_err("failed to write '20' to /sys/fs/cgroup/safeexec_s1/pids.max: Permission denied")
    );
}

#[test]
fn creation_error_message() {
    assert_eq!(
        slice().creation_error("File exists"),
        cg_err("failed to create cgroup /sys/fs/cgroup/safeexec_s1 (are you root?): File exists")
    );
}

#[test]
fn memory_and_pids_current_read_numbers() {
    let cg = slice();
    assert_eq!(cg.memory_current(Ok("14811136\n".to_string())), Ok(14811136));
    assert_eq!(cg.pids_current(Ok(" 3 ".to_string())), Ok(3));
    assert_eq!(
        cg.memory_current(Err("No such file or directory".to_string())),
        Err(cg_err(
            "failed to read /sys/fs/cgroup/safeexec_s1/memory.current: No such file or directory"
        ))
    );
    assert_eq!(
        cg.pids_current(Ok("max".to_string())),
        Err(cg_err("invalid number in /sys/fs/cgroup/safeexec_s1/pids.current"))
    );
}

#[test]
fn limit_written_reads_back() {
    let cg = slice();
    for b in [0u64, 20, 67108864, u64::MAX] {
        let w = cg.set_memory_max(b);
        assert_eq!(cg.memory_current(Ok(format!("{}\n", w.value))), Ok(b));
        assert_eq!(cg.read_control_u64("memory.max", Ok(w.value.clone())), Ok(b));
    }
}

#[test]
fn cpu_stat_usage() {
    let cg = slice();
    let stat = "usage_usec 45000\nuser_usec 30000\nsystem_usec 15000\n";
    assert_eq!(cg.cpu_stat_usage_usec(Ok(stat.to_string())), Ok(45000));
    assert_eq!(cg.cpu_stat_usage_usec(Ok("user_usec 1\n".to_string())), Ok(0));
    assert_eq!(
        cg.cpu_stat_usage_usec(Ok("usage_usec lots\n".to_string())),
        Err(cg_err("invalid usage_usec"))
    );
    assert_eq!(
        cg.cpu_stat_usage_usec(Err("gone".to_string())),
        Err(cg_err("failed to read cpu.stat: gone"))
    );
}

#[test]
fn memory_events_counter() {
    let cg = slice();
    let events = "low 0\nhigh 0\nmax 3\noom 1\noom_kill 2\noom_group_kill 0\n";
    assert_eq!(cg.read_memory_event("oom_kill", Ok(events.to_string())), Ok(2));
    assert_eq!(cg.read_memory_event("max", Ok(events.to_string())), Ok(3));
    assert_eq!(cg.read_memory_event("missing", Ok(events.to_string())), Ok(0));
    assert_eq!(cg.read_memory_event("oom_kill", Ok("oom_kill\noom_kill  5\n".to_string())), Ok(5));
    assert_eq!(
        cg.read_memory_event("oom_kill", Ok("oom_kill zz".to_string())),
        Err(cg_err("invalid memory.events line: oom_kill zz"))
    );
    assert_eq!(
        cg.read_memory_event("oom", Err("denied".to_string())),
        Err(cg_err("failed to read memory.events: denied"))
    );
}

#[test]
fn stale_processes_listed() {
    assert_eq!(CgroupV2Manager::stale_pids("12\nabc\n-3\n\n99999999999\n"), vec![12, -3]);
    assert_eq!(CgroupV2Manager::stale_pids(""), Vec::<i32>::new());
}

#[test]
fn removal_retries_twenty_times() {
    assert_eq!(CgroupV2Manager::removal_step(0, true), RemovalStep::Removed);
    assert_eq!(
        CgroupV2Manager::removal_step(0, false),
        RemovalStep::Wait { millis: 10, retry: true }
    );
    assert_eq!(
        CgroupV2Manager::removal_step(REMOVAL_ATTEMPTS - 1, false),
        RemovalStep::Wait { millis: 10, retry: false }
    );
    let mut attempts = 0;
    let mut attempt = 0u32;
    loop {
        attempts += 1;
        match CgroupV2Manager::removal_step(attempt, false) {
            RemovalStep::Removed => break,
            RemovalStep::Wait { retry, .. } => {
                if !retry {
                    break;
                }
                attempt += 1;
            }
        }
    }
    assert_eq!(attempts, 20);
}

#[test]
fn control_file_paths_stay_in_slice() {
    let cg = CgroupV2Manager::new("x/");
    assert_eq!(cg.control_path("memory.max"), "/sys/fs/cgroup/safeexec_x/memory.max");
    let cg2 = CgroupV2Manager::new("y");
    assert!(cg2.control_path("pids.max").starts_with(cg2.path()));
}

#[test]
fn slice_path_stays_fixed() {
    let m = CgroupV2Manager::new("sf-89a1");
    assert_eq!(m.path(), "/sys/fs/cgroup/safeexec_sf-89a1");
    let w = m.set_memory_max(64_000_000);
    assert_eq!(w.path, "/sys/fs/cgroup/safeexec_sf-89a1/memory.max");
    let _ = m.set_pids_max(20);
    let _ = m.set_cpu_max("50000 100000");
    let _ = m.attach_pid(7);
    let _ = m.kill_write();
    let _ = m.memory_current(Ok("123\n".to_string()));
    assert_eq!(m.path(), "/sys/fs/cgroup/safeexec_sf-89a1");
    assert_eq!(m.control_path("pids.current"), "/sys/fs/cgroup/safeexec_sf-89a1/pids.current");
}
