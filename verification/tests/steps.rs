use safeexec::cgroup::CgroupV2Manager;
use safeexec::cli::{Args, TheaterMode};
use safeexec::error::SafeExecError;
use safeexec::mount::{plan_next, plan_start, PlanProgress, VfsManager};
use safeexec::runtime::{run_next, run_steps, RunProgress, RunStep, RuntimeOrchestrator};
use safeexec::task::{child_next, ChildProgress, ChildStatus, ParentProgress, TaskLauncher, WaitStep};
use safeexec::time::Duration;

/// Drives a plan with the given outcomes, returning how many operations ran and how it ended.
fn drive(ops: &Vec<safeexec::mount::VfsOp>, outcome: impl Fn(usize) -> Result<(), String>) -> (usize, PlanProgress) {
    let mut p = plan_start(ops);
    let mut ran = 0;
    loop {
        match p {
            PlanProgress::Perform(i) => {
                ran += 1;
                p = plan_next(ops, i, outcome(i));
            }
            other => return (ran, other),
        }
    }
}

#[test]
fn plan_succeeds_when_every_step_does() {
    let ops = VfsManager::new().setup_minimal_root("/w", true);
    let (ran, end) = drive(&ops, |_| Ok(()));
    assert_eq!(ran, 22);
    assert!(matches!(end, PlanProgress::Succeeded));
    assert!(matches!(plan_start(&Vec::new()), PlanProgress::Succeeded));
}

#[test]
fn plan_stops_at_first_fatal_failure() {
    let ops = VfsManager::new().setup_minimal_root("/w", true);
    // The mode of tmp (index 11) failing is ignored; the bind of /bin (index 12) is fatal.
    let (ran, end) = drive(&ops, |i| if i >= 11 { Err("EPERM".to_string()) } else { Ok(()) });
    assert_eq!(ran, 13);
    match end {
        PlanProgress::Failed(e) => {
            assert_eq!(e, SafeExecError::Mount("bind mount /bin -> /w/bin failed: EPERM".to_string()))
        }
        _ => panic!("expected the plan to fail"),
    }
}

#[test]
fn ignored_failures_do_not_stop_a_plan() {
    let ops = VfsManager::new().bind_mount_into("/data", "/w/in");
    let (ran, end) = drive(&ops, |i| if i == 0 { Err("EEXIST".to_string()) } else { Ok(()) });
    assert_eq!(ran, 3);
    assert!(matches!(end, PlanProgress::Succeeded));
}

#[test]
fn child_progress() {
    assert!(matches!(child_next(0, Ok(())), ChildProgress::Perform(1)));
    match child_next(8, Err("ENOENT".to_string())) {
        ChildProgress::Exit { message, code } => {
            assert_eq!(message, "[child] execve failed: ENOENT");
            assert_eq!(code, 127);
        }
        _ => panic!("expected an exit"),
    }
    match child_next(6, Err("EPERM".to_string())) {
        ChildProgress::Exit { message, code } => {
            assert_eq!(message, "[child] sethostname failed: EPERM");
            assert_eq!(code, 1);
        }
        _ => panic!("expected an exit"),
    }
}

fn launcher<'a>(args: &'a [String], cg: Option<&'a CgroupV2Manager>) -> TaskLauncher<'a> {
    let l = TaskLauncher::new("/bin/true", args, Duration { secs: 2, nanos: 0 }, "h".to_string());
    match cg {
        Some(c) => l.with_cgroup(c),
        None => l,
    }
}

#[test]
fn parent_progress() {
    let args: Vec<String> = vec![];
    let cg = CgroupV2Manager::new("p");
    let l = launcher(&args, Some(&cg));
    assert!(matches!(l.parent_next(0, Ok(())), ParentProgress::Perform(1)));
    assert!(matches!(l.parent_next(4, Ok(())), ParentProgress::Perform(5)));
    assert!(matches!(l.parent_next(5, Ok(())), ParentProgress::Released));
    let bare = launcher(&args, None);
    assert!(matches!(bare.parent_next(4, Ok(())), ParentProgress::Released));
    match l.parent_next(2, Err(SafeExecError::Syscall(4))) {
        ParentProgress::Failed(e) => assert_eq!(e, SafeExecError::Syscall(4)),
        _ => panic!("expected the failure"),
    }
}

#[test]
fn waiting_and_timeout() {
    let args: Vec<String> = vec![];
    let l = launcher(&args, None);
    let t = |secs, nanos| Duration { secs, nanos };
    assert_eq!(l.wait_step(ChildStatus::Exited(3), t(9, 0)), WaitStep::Finished(3));
    assert_eq!(l.wait_step(ChildStatus::Signaled(9), t(0, 0)), WaitStep::Finished(137));
    assert_eq!(l.wait_step(ChildStatus::Running, t(1, 999_999_999)), WaitStep::Poll { millis: 10 });
    assert_eq!(l.wait_step(ChildStatus::Running, t(2, 0)), WaitStep::TimedOut);
    assert_eq!(l.wait_step(ChildStatus::Running, t(3, 5)), WaitStep::TimedOut);
    assert_eq!(l.timeout_error(), SafeExecError::Timeout(t(2, 0)));
    assert!(t(2, 1).reaches(&t(2, 0)));
    assert!(!t(1, 5).reaches(&t(2, 0)));
}

#[test]
fn launcher_from_options() {
    let a = Args {
        executable: "./prog".to_string(),
        args: vec!["-x".to_string()],
        max_memory: "64MB".to_string(),
        max_pids: 20,
        cpu_max: None,
        timeout: "30s".to_string(),
        input: Some("/data".to_string()),
        output: Some("/res".to_string()),
        theater_mode: TheaterMode::Silent,
        quiet_telemetry: true,
        session_id: Some("s9".to_string()),
    };
    let o = RuntimeOrchestrator::new(a).unwrap();
    let cg = CgroupV2Manager::new(&o.session_id);
    let l = o.launcher(Duration { secs: 30, nanos: 0 }, &cg);
    assert_eq!(l.binary, "./prog");
    assert_eq!(l.args, &["-x".to_string()]);
    assert_eq!(l.hostname_text(), "safeexec-s9");
    assert_eq!(l.input, Some("/data"));
    assert_eq!(l.output, Some("/res"));
    assert_eq!(l.timeout, Duration { secs: 30, nanos: 0 });
    assert_eq!(l.cgroup.unwrap().path(), "/sys/fs/cgroup/safeexec_s9");
    assert_eq!(l.session, Some("s9"));
    assert_eq!(l.workspace_session(), "s9");
    assert_eq!(l.workspace_plan("/w", false).len(), 25);
}

#[test]
fn run_reads_time_limit_before_slice() {
    assert_eq!(
        run_steps(),
        vec![RunStep::ReadTimeLimit, RunStep::CreateSlice, RunStep::WriteLimits, RunStep::Launch]
    );
    let bad = SafeExecError::InvalidArgument("invalid duration: 5x".to_string());
    assert_eq!(run_next(0, Err(bad.clone())), RunProgress::Failed(bad));
    assert_eq!(run_next(0, Ok(())), RunProgress::Perform(1));
    assert_eq!(run_next(2, Ok(())), RunProgress::Perform(3));
    assert_eq!(run_next(3, Ok(())), RunProgress::Finished);
}
