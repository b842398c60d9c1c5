use safeexec::cgroup::CgroupV2Manager;
use safeexec::error::SafeExecError;
use safeexec::mount::{MountFlags, VfsManager, VfsOp};
use safeexec::namespace::{CloneNamespaces, FileWrite, NamespaceController};
use safeexec::task::{child_failure, child_steps, env_entry, ChildStep, ParentStep, TaskLauncher};
use safeexec::time::Duration;

const BIND: MountFlags = MountFlags { bind: true, recursive: true, remount: false, read_only: false };
const RO: MountFlags = MountFlags { bind: true, recursive: true, remount: true, read_only: true };

fn targets(ops: &[VfsOp]) -> Vec<String> {
    ops.iter()
        .map(|o| match o {
            VfsOp::CreateDirAll { path, .. } => path.clone(),
            VfsOp::SetMode { path, .. } => path.clone(),
            VfsOp::Mount { target, .. } => target.clone(),
            VfsOp::PivotRoot { new_root, .. } => new_root.clone(),
            VfsOp::ChangeDir { path, .. } => path.clone(),
            VfsOp::Detach { target, .. } => target.clone(),
        })
        .collect()
}

fn check_read_only_binds(ops: &[VfsOp]) {
    for (i, o) in ops.iter().enumerate() {
        if let VfsOp::Mount { source: Some(_), target, .. } = o {
            match &ops[i + 1] {
                VfsOp::Mount { source: None, target: t, flags, .. } => {
                    assert_eq!(t, target);
                    assert_eq!(*flags, RO);
                }
                _ => panic!("bind mount not followed by a read-only remount"),
            }
        }
    }
}

#[test]
fn minimal_root_plan() {
    let vfs = VfsManager::new();
    let ops = vfs.setup_minimal_root("/w", true);
    assert_eq!(ops.len(), 22);
    let t = targets(&ops);
    assert_eq!(t[0], "/w/bin");
    assert_eq!(t[10], "/w/out");
    match &ops[11] {
        VfsOp::SetMode { path, mode } => {
            assert_eq!(path, "/w/tmp");
            assert_eq!(*mode, 0o777);
        }
        _ => panic!("expected the mode of tmp"),
    }
    match &ops[12] {
        VfsOp::Mount { source, target, flags, failure } => {
            assert_eq!(source.as_deref(), Some("/bin"));
            assert_eq!(target, "/w/bin");
            assert_eq!(*flags, BIND);
            assert_eq!(failure, "bind mount /bin -> /w/bin failed: ");
        }
        _ => panic!("expected a bind mount"),
    }
    assert_eq!(vfs.setup_minimal_root("/w", false).len(), 20);
    check_read_only_binds(&ops);
    assert!(t.iter().all(|p| p.starts_with("/w")));
}

#[test]
fn op_failures() {
    let vfs = VfsManager::new();
    let ops = vfs.setup_minimal_root("/w", false);
    assert_eq!(
        ops[0].failure("EACCES"),
        Some(SafeExecError::Mount("failed to mkdir /w/bin: EACCES".to_string()))
    );
    assert_eq!(ops[11].failure("EPERM"), None);
    assert_eq!(
        ops[13].failure("EPERM"),
        Some(SafeExecError::Mount("remount ro /w/bin failed: EPERM".to_string()))
    );
    let into = vfs.bind_mount_into("/data", "/w/in");
    assert_eq!(into.len(), 3);
    assert_eq!(into[0].failure("x"), None);
    check_read_only_binds(&into);
}

#[test]
fn rw_and_output_plans() {
    let vfs = VfsManager::new();
    let rw = vfs.bind_mount_rw("/a", "/b");
    assert_eq!(rw.len(), 1);
    match &rw[0] {
        VfsOp::Mount { flags, .. } => assert_eq!(*flags, BIND),
        _ => panic!("expected a mount"),
    }
    let out = vfs.bind_mount_output("/res", "/w/out");
    assert_eq!(targets(&out), vec!["/w/out".to_string(), "/w/out".to_string()]);
    assert_eq!(out[0].failure("x"), None);
    match &out[1] {
        VfsOp::Mount { source, flags, failure, .. } => {
            assert_eq!(source.as_deref(), Some("/res"));
            assert_eq!(*flags, BIND);
            assert!(!flags.read_only);
            assert_eq!(failure, "bind mount /res -> /w/out failed: ");
        }
        _ => panic!("expected a writable bind mount"),
    }
}

#[test]
fn pivot_plan() {
    let vfs = VfsManager::new();
    let ops = vfs.pivot_root_into("/w");
    assert_eq!(
        targets(&ops),
        vec!["/w/.old_root", "/w", "/w", "/", "/.old_root"].iter().map(|t| t.to_string()).collect::<Vec<_>>()
    );
    match &ops[2] {
        VfsOp::PivotRoot { new_root, put_old, .. } => {
            assert_eq!(new_root, "/w");
            assert_eq!(put_old, "/w/.old_root");
        }
        _ => panic!("expected the pivot"),
    }
    assert_eq!(
        ops[2].failure("EBUSY"),
        Some(SafeExecError::Mount("pivot_root failed: EBUSY".to_string()))
    );
    assert_eq!(
        ops[3].failure("ENOENT"),
        Some(SafeExecError::Mount("chdir to the new root failed: ENOENT".to_string()))
    );
    assert_eq!(
        ops[4].failure("EINVAL"),
        Some(SafeExecError::Mount("detaching the old root failed: EINVAL".to_string()))
    );
    assert_eq!(
        ops[0].failure("EEXIST"),
        Some(SafeExecError::Mount("failed to create put_old: EEXIST".to_string()))
    );
    assert_eq!(
        ops[1].failure("EINVAL"),
        Some(SafeExecError::Mount("self-bind-mount failed: EINVAL".to_string()))
    );
}

#[test]
fn workspace_names() {
    let vfs = VfsManager::new();
    assert_eq!(vfs.workspace_prefix("sf-89a1"), "safeexec_sf-89a1");
    assert_eq!(
        vfs.workspace_error("disk full"),
        SafeExecError::Mount("failed to create worksapce disk full".to_string())
    );
    let args: Vec<String> = Vec::new();
    let bare = TaskLauncher::new("/bin/true", &args, Duration::from_secs(2), "safeexec-sf-89a1".to_string());
    assert_eq!(bare.workspace_session(), "");
    let named = bare.with_session("sf-89a1");
    assert_eq!(named.workspace_session(), "sf-89a1");
    assert_eq!(vfs.workspace_prefix(named.workspace_session()), "safeexec_sf-89a1");
}

#[test]
fn id_maps_map_root_to_host_user() {
    let ns = NamespaceController::new();
    let w = ns.write_uid_gid_map(42, 1000, 1001);
    assert_eq!(
        w,
        vec![
            FileWrite { path: "/proc/42/uid_map".to_string(), contents: "0 1000 1\n".to_string() },
            FileWrite { path: "/proc/42/setgroups".to_string(), contents: "deny".to_string() },
            FileWrite { path: "/proc/42/gid_map".to_string(), contents: "0 1001 1\n".to_string() },
        ]
    );
}

#[test]
fn launcher_builders() {
    let args = vec!["-v".to_string(), "x".to_string()];
    let cg = CgroupV2Manager::new("t");
    let l = TaskLauncher::new("/bin/echo", &args, Duration { secs: 2, nanos: 0 }, "safeexec-t".to_string());
    assert!(l.cgroup.is_none() && l.input.is_none() && l.output.is_none());
    assert_eq!(l.parent_steps().len(), 5);
    let l = l.with_cgroup(&cg).with_input("/data").with_output("/res");
    assert_eq!(l.binary, "/bin/echo");
    assert_eq!(l.timeout, Duration { secs: 2, nanos: 0 });
    assert_eq!(l.hostname_text(), "safeexec-t");
    assert_eq!(l.input, Some("/data"));
    assert_eq!(l.output, Some("/res"));
    assert_eq!(l.cgroup.unwrap().path(), "/sys/fs/cgroup/safeexec_t");
    assert_eq!(l.argv(), vec!["/bin/echo".to_string(), "-v".to_string(), "x".to_string()]);
    assert_eq!(
        l.parent_steps(),
        vec![
            ParentStep::Spawn,
            ParentStep::CloseChildDescriptors,
            ParentStep::WaitForChildReady,
            ParentStep::WriteIdMaps,
            ParentStep::AttachCgroup,
            ParentStep::SignalContinue,
        ]
    );
}

#[test]
fn workspace_plan_of_a_launch() {
    let args: Vec<String> = vec![];
    let l = TaskLauncher::new("/bin/true", &args, Duration { secs: 1, nanos: 0 }, "h".to_string())
        .with_input("/data")
        .with_output("/res");
    let ops = l.workspace_plan("/w", false);
    assert_eq!(ops.len(), 20 + 3 + 2);
    let t = targets(&ops);
    assert_eq!(&t[20..], &["/w/in", "/w/in", "/w/in", "/w/out", "/w/out"]);
    check_read_only_binds(&ops[..23]);
    match &ops[24] {
        VfsOp::Mount { source, flags, .. } => {
            assert_eq!(source.as_deref(), Some("/res"));
            assert_eq!(*flags, BIND);
        }
        _ => panic!("expected the writable output mount"),
    }
    assert!(t.iter().all(|p| p.starts_with("/w")));
    let bare = TaskLauncher::new("/bin/true", &args, Duration { secs: 1, nanos: 0 }, "h".to_string());
    assert_eq!(bare.workspace_plan("/w", true).len(), 22);
}

#[test]
fn child_steps_and_failures() {
    let s = child_steps();
    assert_eq!(s.len(), 9);
    assert_eq!(s[0], ChildStep::CloseParentDescriptors);
    assert_eq!(*s.last().unwrap(), ChildStep::Exec);
    assert_eq!(
        child_failure(ChildStep::Exec, "ENOENT"),
        ("[child] execve failed: ENOENT".to_string(), 127)
    );
    assert_eq!(
        child_failure(ChildStep::SetParentDeathSignal, "EINVAL"),
        ("[child] prctl(PR_SET_PDEATHSIG) failed: EINVAL".to_string(), 1)
    );
    assert_eq!(child_failure(ChildStep::SetUid, "e").0, "[child] setuid(0) failed: e");
}

#[test]
fn environment_entries() {
    assert_eq!(env_entry("PATH", "/usr/bin"), "PATH=/usr/bin");
    assert_eq!(env_entry("A", ""), "A=");
}

#[test]
fn every_namespace_is_new() {
    assert_eq!(
        NamespaceController::build_clone_flags(),
        CloneNamespaces { pid: true, mount: true, uts: true, user: true, net: true }
    );
}
