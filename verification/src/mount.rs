//! The filesystem of the sandbox: the operations that build a minimal root
//! in a workspace and show host directories inside it.
use vstd::prelude::*;

use crate::error::SafeExecError;
use crate::text::{concat2, concat3, join, join_path};
use vstd::string::StringExecFns;

verus! {

/// The flags of one `mount(2)` call.
#[derive(Debug, Clone, Copy, PartialEq, Eq, Structural)]
pub struct MountFlags {
    pub bind: bool,
    pub recursive: bool,
    pub remount: bool,
    pub read_only: bool,
}

/// `MS_BIND | MS_REC`: show a directory tree at another place.
pub open spec fn bind_recursive() -> MountFlags {
    MountFlags { bind: true, recursive: true, remount: false, read_only: false }
}

/// `MS_REMOUNT | MS_BIND | MS_RDONLY | MS_REC`: make a bind mount read-only.
pub open spec fn remount_read_only() -> MountFlags {
    MountFlags { bind: true, recursive: true, remount: true, read_only: true }
}

/// One filesystem operation of a plan. A failure of an operation that holds
/// a failure text stops the plan with a mount error: that text, then the cause.
pub enum VfsOp {
    /// Create `path` and its missing parents.
    CreateDirAll { path: String, failure: Option<String> },
    /// Set the permission bits of `path`; a failure is ignored.
    SetMode { path: String, mode: u32 },
    /// Mount `source` (or nothing, to change a mount) at `target`.
    Mount { source: Option<String>, target: String, flags: MountFlags, failure: String },
    /// Make `new_root` the root of the mount namespace, moving the old root to `put_old`.
    PivotRoot { new_root: String, put_old: String, failure: String },
    /// Make `path` the working directory.
    ChangeDir { path: String, failure: String },
    /// Detach the mount at `target` (lazily, as `MNT_DETACH` does).
    Detach { target: String, failure: String },
}

/// A filesystem operation, over character sequences.
pub enum VfsOpView {
    CreateDirAll { path: Seq<char>, failure: Option<Seq<char>> },
    SetMode { path: Seq<char>, mode: u32 },
    Mount {
        source: Option<Seq<char>>,
        target: Seq<char>,
        flags: MountFlags,
        failure: Seq<char>,
    },
    PivotRoot { new_root: Seq<char>, put_old: Seq<char>, failure: Seq<char> },
    ChangeDir { path: Seq<char>, failure: Seq<char> },
    Detach { target: Seq<char>, failure: Seq<char> },
}

/// The view of an optional string.
pub open spec fn opt_view(s: Option<String>) -> Option<Seq<char>> {
    match s {
        Some(t) => Some(t@),
        None => None,
    }
}

impl View for VfsOp {
    type V = VfsOpView;

    open spec fn view(&self) -> VfsOpView {
        match self {
            VfsOp::CreateDirAll { path, failure } => VfsOpView::CreateDirAll {
                path: path@,
                failure: opt_view(*failure),
            },
            VfsOp::SetMode { path, mode } => VfsOpView::SetMode { path: path@, mode: *mode },
            VfsOp::Mount { source, target, flags, failure } => VfsOpView::Mount {
                source: opt_view(*source),
                target: target@,
                flags: *flags,
                failure: failure@,
            },
            VfsOp::PivotRoot { new_root, put_old, failure } => VfsOpView::PivotRoot {
                new_root: new_root@,
                put_old: put_old@,
                failure: failure@,
            },
            VfsOp::ChangeDir { path, failure } => VfsOpView::ChangeDir {
                path: path@,
                failure: failure@,
            },
            VfsOp::Detach { target, failure } => VfsOpView::Detach {
                target: target@,
                failure: failure@,
            },
        }
    }
}

/// The views of a plan.
pub open spec fn plan_view(ops: Seq<VfsOp>) -> Seq<VfsOpView> {
    ops.map_values(|o: VfsOp| o@)
}

/// The text that a failure of `o` is reported with (before its cause), or
/// `None` where a failure of `o` is ignored.
pub open spec fn failure_text(o: VfsOpView) -> Option<Seq<char>> {
    match o {
        VfsOpView::CreateDirAll { failure, .. } => failure,
        VfsOpView::SetMode { .. } => None,
        VfsOpView::Mount { failure, .. } => Some(failure),
        VfsOpView::PivotRoot { failure, .. } => Some(failure),
        VfsOpView::ChangeDir { failure, .. } => Some(failure),
        VfsOpView::Detach { failure, .. } => Some(failure),
    }
}

impl VfsOp {
    /// The error that a failure of this operation, with the given cause, ends the
    /// plan with, or `None` where the failure is ignored.
    pub fn failure(&self, cause: &str) -> (e: Option<SafeExecError>)
        ensures
            (match failure_text(self@) {
                Some(f) => e matches Some(err) && err.is_mount(f + cause@),
                None => e is None,
            }),
    {
        match self {
            VfsOp::CreateDirAll { failure: Some(f), .. } => Some(
                SafeExecError::Mount(concat2(f.as_str(), cause)),
            ),
            VfsOp::CreateDirAll { failure: None, .. } => None,
            VfsOp::SetMode { .. } => None,
            VfsOp::Mount { failure, .. } => Some(SafeExecError::Mount(concat2(failure.as_str(), cause))),
            VfsOp::PivotRoot { failure, .. } => Some(
                SafeExecError::Mount(concat2(failure.as_str(), cause)),
            ),
            VfsOp::ChangeDir { failure, .. } => Some(
                SafeExecError::Mount(concat2(failure.as_str(), cause)),
            ),
            VfsOp::Detach { failure, .. } => Some(SafeExecError::Mount(concat2(failure.as_str(), cause))),
        }
    }
}

/// The directories of a minimal root, in the order they are created.
pub open spec fn root_dirs() -> Seq<Seq<char>> {
    seq![
        "bin"@,
        "dev"@,
        "etc"@,
        "lib"@,
        "proc"@,
        "sys"@,
        "lib64"@,
        "tmp"@,
        "usr"@,
        "in"@,
        "out"@,
    ]
}

/// Showing `src` at `dst`, writable: one recursive bind mount.
pub open spec fn bind_rw_view(src: Seq<char>, dst: Seq<char>) -> Seq<VfsOpView> {
    seq![
        VfsOpView::Mount {
            source: Some(src),
            target: dst,
            flags: bind_recursive(),
            failure: "bind mount "@ + src + " -> "@ + dst + " failed: "@,
        },
    ]
}

/// The plan that makes `new_root` the root and detaches the host's tree.
pub open spec fn pivot_view(new_root: Seq<char>) -> Seq<VfsOpView> {
    seq![
        VfsOpView::CreateDirAll {
            path: join_path(new_root, ".old_root"@),
            failure: Some("failed to create put_old: "@),
        },
        VfsOpView::Mount {
            source: Some(new_root),
            target: new_root,
            flags: bind_recursive(),
            failure: "self-bind-mount failed: "@,
        },
        VfsOpView::PivotRoot {
            new_root,
            put_old: join_path(new_root, ".old_root"@),
            failure: "pivot_root failed: "@,
        },
        VfsOpView::ChangeDir { path: "/"@, failure: "chdir to the new root failed: "@ },
        VfsOpView::Detach { target: "/.old_root"@, failure: "detaching the old root failed: "@ },
    ]
}

/// Creating `path` (and its parents), stopping with `failed to mkdir` on failure.
pub open spec fn mkdir_view(path: Seq<char>) -> VfsOpView {
    VfsOpView::CreateDirAll { path, failure: Some("failed to mkdir "@ + path + ": "@) }
}

/// Showing `src` at `dst` without the right to change it: a recursive bind
/// mount, then a read-only remount of `dst`.
pub open spec fn bind_ro_view(src: Seq<char>, dst: Seq<char>) -> Seq<VfsOpView> {
    seq![
        VfsOpView::Mount {
            source: Some(src),
            target: dst,
            flags: bind_recursive(),
            failure: "bind mount "@ + src + " -> "@ + dst + " failed: "@,
        },
        VfsOpView::Mount {
            source: None,
            target: dst,
            flags: remount_read_only(),
            failure: "remount ro "@ + dst + " failed: "@,
        },
    ]
}

/// The plan that builds a minimal root at `root`: its directories, a
/// world-writable `tmp`, and read-only views of the host's `/bin`, `/lib`,
/// `/lib64` (where the host has one), `/usr` and `/dev`.
pub open spec fn minimal_root_view(root: Seq<char>, lib64_exists: bool) -> Seq<VfsOpView> {
    Seq::new(11, |i: int| mkdir_view(join_path(root, root_dirs()[i]))) + seq![
        VfsOpView::SetMode { path: join_path(root, "tmp"@), mode: 0o777 },
    ] + bind_ro_view("/bin"@, join_path(root, "bin"@)) + bind_ro_view(
        "/lib"@,
        join_path(root, "lib"@),
    ) + (if lib64_exists {
        bind_ro_view("/lib64"@, join_path(root, "lib64"@))
    } else {
        Seq::empty()
    }) + bind_ro_view("/usr"@, join_path(root, "usr"@)) + bind_ro_view(
        "/dev"@,
        join_path(root, "dev"@),
    )
}

/// Builds and manages the sandbox's view of the filesystem.
pub struct VfsManager;

impl VfsManager {
    pub fn new() -> (v: Self) {
        VfsManager
    }

    /// The prefix of the name of the temporary workspace of `session_id`.
    pub fn workspace_prefix(&self, session_id: &str) -> (p: String)
        ensures
            p@ == "safeexec_"@ + session_id@,
    {
        concat2("safeexec_", session_id)
    }

    /// The error for a workspace that could not be created.
    pub fn workspace_error(&self, cause: &str) -> (e: SafeExecError)
        ensures
            e.is_mount("failed to create worksapce "@ + cause@),
    {
        SafeExecError::Mount(concat2("failed to create worksapce ", cause))
    }

    /// Appends the plan that shows `src` read-only at `dst`.
    fn push_bind_ro(&self, ops: &mut Vec<VfsOp>, src: &str, dst: &str)
        ensures
            plan_view(final(ops)@) == plan_view(old(ops)@) + bind_ro_view(src@, dst@),
    {
        let mut failure = concat3("bind mount ", src, " -> ");
        failure.append(dst);
        failure.append(" failed: ");
        ops.push(
            VfsOp::Mount {
                source: Some(String::from_str(src)),
                target: String::from_str(dst),
                flags: MountFlags { bind: true, recursive: true, remount: false, read_only: false },
                failure,
            },
        );
        ops.push(
            VfsOp::Mount {
                source: None,
                target: String::from_str(dst),
                flags: MountFlags { bind: true, recursive: true, remount: true, read_only: true },
                failure: concat3("remount ro ", dst, " failed: "),
            },
        );
        assert(plan_view(ops@) =~= plan_view(old(ops)@) + bind_ro_view(src@, dst@));
    }

    /// The plan that shows `src` read-only at `dst`.
    pub fn bind_mount_ro(&self, src: &str, dst: &str) -> (ops: Vec<VfsOp>)
        ensures
            plan_view(ops@) == bind_ro_view(src@, dst@),
    {
        let mut ops: Vec<VfsOp> = Vec::new();
        self.push_bind_ro(&mut ops, src, dst);
        assert(plan_view(Seq::<VfsOp>::empty()) + bind_ro_view(src@, dst@) =~= bind_ro_view(
            src@,
            dst@,
        ));
        ops
    }

    /// The plan that shows `src` at `dst`, writable.
    pub fn bind_mount_rw(&self, src: &str, dst: &str) -> (ops: Vec<VfsOp>)
        ensures
            plan_view(ops@) == bind_rw_view(src@, dst@),
    {
        let mut failure = concat3("bind mount ", src, " -> ");
        failure.append(dst);
        failure.append(" failed: ");
        let mut ops: Vec<VfsOp> = Vec::new();
        ops.push(
            VfsOp::Mount {
                source: Some(String::from_str(src)),
                target: String::from_str(dst),
                flags: MountFlags { bind: true, recursive: true, remount: false, read_only: false },
                failure,
            },
        );
        assert(plan_view(ops@) =~= seq![ops@[0]@]);
        ops
    }

    /// The plan that builds a minimal root at `root`, given whether the host
    /// has a `/lib64`.
    pub fn setup_minimal_root(&self, root: &str, lib64_exists: bool) -> (ops: Vec<VfsOp>)
        ensures
            plan_view(ops@) == minimal_root_view(root@, lib64_exists),
    {
        let dirs: Vec<&str> = vec![
            "bin",
            "dev",
            "etc",
            "lib",
            "proc",
            "sys",
            "lib64",
            "tmp",
            "usr",
            "in",
            "out",
        ];
        assert(dirs@.map_values(|d: &str| d@) =~= root_dirs());
        let ghost made = Seq::new(11, |i: int| mkdir_view(join_path(root@, root_dirs()[i])));
        let mut ops: Vec<VfsOp> = Vec::new();
        let mut i: usize = 0;
        while i < dirs.len()
            invariant
                dirs.len() == 11,
                i <= 11,
                dirs@.map_values(|d: &str| d@) == root_dirs(),
                made == Seq::new(11, |i: int| mkdir_view(join_path(root@, root_dirs()[i]))),
                plan_view(ops@) == made.take(i as int),
            decreases 11 - i,
        {
            let path = join(root, dirs[i]);
            assert(dirs@.map_values(|d: &str| d@)[i as int] == dirs@[i as int]@);
            assert(dirs@[i as int]@ == root_dirs()[i as int]);
            assert(made[i as int] == mkdir_view(join_path(root@, root_dirs()[i as int])));
            let failure = concat3("failed to mkdir ", path.as_str(), ": ");
            let ghost before = ops@;
            let ghost pv = path@;
            let ghost fv = failure@;
            let op = VfsOp::CreateDirAll { path, failure: Some(failure) };
            assert(op@ == VfsOpView::CreateDirAll { path: pv, failure: Some(fv) });
            assert(op@ == mkdir_view(pv));
            assert(pv == join_path(root@, root_dirs()[i as int]));
            assert(ops@.len() == plan_view(ops@).len());
            ops.push(op);
            assert(ops@[i as int]@ == made[i as int]);
            assert(plan_view(ops@) =~= plan_view(before).push(made[i as int]));
            assert(plan_view(ops@) =~= made.take(i + 1));
            i = i + 1;
        }
        assert(made.take(11) =~= made);
        let tmp = join(root, "tmp");
        ops.push(VfsOp::SetMode { path: tmp, mode: 0o777 });
        let ghost after_tmp = plan_view(ops@);
        assert(after_tmp =~= made + seq![
            VfsOpView::SetMode { path: join_path(root@, "tmp"@), mode: 0o777 },
        ]);
        let bin = join(root, "bin");
        self.push_bind_ro(&mut ops, "/bin", bin.as_str());
        let lib = join(root, "lib");
        self.push_bind_ro(&mut ops, "/lib", lib.as_str());
        let ghost before_lib64 = plan_view(ops@);
        if lib64_exists {
            let lib64 = join(root, "lib64");
            self.push_bind_ro(&mut ops, "/lib64", lib64.as_str());
        }
        assert(plan_view(ops@) =~= before_lib64 + (if lib64_exists {
            bind_ro_view("/lib64"@, join_path(root@, "lib64"@))
        } else {
            Seq::empty()
        }));
        let usr = join(root, "usr");
        self.push_bind_ro(&mut ops, "/usr", usr.as_str());
        let dev = join(root, "dev");
        self.push_bind_ro(&mut ops, "/dev", dev.as_str());
        assert(plan_view(ops@) =~= minimal_root_view(root@, lib64_exists));
        ops
    }

    /// The plan that shows the host directory `src` read-only at `dst`,
    /// creating `dst` first (a failure to create it is ignored).
    pub fn bind_mount_into(&self, src: &str, dst: &str) -> (ops: Vec<VfsOp>)
        ensures
            plan_view(ops@) == seq![VfsOpView::CreateDirAll { path: dst@, failure: None }]
                + bind_ro_view(src@, dst@),
    {
        let mut ops: Vec<VfsOp> = Vec::new();
        ops.push(VfsOp::CreateDirAll { path: String::from_str(dst), failure: None });
        assert(plan_view(ops@) =~= seq![VfsOpView::CreateDirAll { path: dst@, failure: None }]);
        self.push_bind_ro(&mut ops, src, dst);
        ops
    }

    /// The plan that shows the host directory `src` at `dst`, writable,
    /// creating `dst` first (a failure to create it is ignored).
    pub fn bind_mount_output(&self, src: &str, dst: &str) -> (ops: Vec<VfsOp>)
        ensures
            plan_view(ops@) == seq![VfsOpView::CreateDirAll { path: dst@, failure: None }]
                + bind_rw_view(src@, dst@),
    {
        let mut ops: Vec<VfsOp> = Vec::new();
        ops.push(VfsOp::CreateDirAll { path: String::from_str(dst), failure: None });
        let rw = self.bind_mount_rw(src, dst);
        let mut rw = rw;
        let ghost before = ops@;
        let ghost more = rw@;
        ops.append(&mut rw);
        assert(plan_view(ops@) =~= plan_view(before) + plan_view(more));
        assert(plan_view(before) =~= seq![VfsOpView::CreateDirAll { path: dst@, failure: None }]);
        ops
    }

    /// The plan that makes `new_root` the root: creating `new_root/.old_root`,
    /// bind-mounting `new_root` onto itself (so that it is a mount point),
    /// pivoting the root to it with the old root at `.old_root`, moving to the
    /// new `/`, and detaching the old root, so that the host's tree is no
    /// longer reachable.
    pub fn pivot_root_into(&self, new_root: &str) -> (ops: Vec<VfsOp>)
        ensures
            plan_view(ops@) == pivot_view(new_root@),
    {
        let put_old = join(new_root, ".old_root");
        let mut ops: Vec<VfsOp> = Vec::new();
        ops.push(
            VfsOp::CreateDirAll {
                path: put_old.clone(),
                failure: Some(String::from_str("failed to create put_old: ")),
            },
        );
        ops.push(
            VfsOp::Mount {
                source: Some(String::from_str(new_root)),
                target: String::from_str(new_root),
                flags: MountFlags { bind: true, recursive: true, remount: false, read_only: false },
                failure: String::from_str("self-bind-mount failed: "),
            },
        );
        ops.push(
            VfsOp::PivotRoot {
                new_root: String::from_str(new_root),
                put_old,
                failure: String::from_str("pivot_root failed: "),
            },
        );
        ops.push(
            VfsOp::ChangeDir {
                path: String::from_str("/"),
                failure: String::from_str("chdir to the new root failed: "),
            },
        );
        ops.push(
            VfsOp::Detach {
                target: String::from_str("/.old_root"),
                failure: String::from_str("detaching the old root failed: "),
            },
        );
        assert(plan_view(ops@) =~= seq![ops@[0]@, ops@[1]@, ops@[2]@, ops@[3]@, ops@[4]@]);
        ops
    }
}

/// Where the run of a plan stands, over character sequences.
pub enum PlanState {
    /// The operation at this index is to be performed next.
    Perform(int),
    /// Every operation was performed; the plan succeeded.
    Succeeded,
    /// The plan stopped with a mount error with this message.
    Failed(Seq<char>),
}

/// Where the run of a plan stands.
pub enum PlanProgress {
    /// Perform the operation at this index next.
    Perform(usize),
    /// Every operation was performed; the plan succeeded.
    Succeeded,
    /// The plan stopped with this error.
    Failed(SafeExecError),
}

impl PlanProgress {
    /// The state this progress stands for.
    pub open spec fn state(self) -> PlanState {
        match self {
            PlanProgress::Perform(i) => PlanState::Perform(i as int),
            PlanProgress::Succeeded => PlanState::Succeeded,
            PlanProgress::Failed(e) => match e {
                SafeExecError::Mount(m) => PlanState::Failed(m@),
                _ => PlanState::Failed(Seq::empty()),
            },
        }
    }
}

/// The view of the outcome of one operation: nothing, or the cause of its failure.
pub open spec fn outcome_view(o: Result<(), String>) -> Result<(), Seq<char>> {
    match o {
        Ok(()) => Ok(()),
        Err(c) => Err(c@),
    }
}

/// Where a plan stands before its first operation.
pub open spec fn plan_start_state(ops: Seq<VfsOpView>) -> PlanState {
    if ops.len() == 0 {
        PlanState::Succeeded
    } else {
        PlanState::Perform(0)
    }
}

/// Where a plan stands once operation `done` had `outcome`: a failure of an
/// operation that carries a failure text stops the plan with that text and
/// the cause; otherwise the next operation follows, or the plan has succeeded.
pub open spec fn plan_next_state(
    ops: Seq<VfsOpView>,
    done: int,
    outcome: Result<(), Seq<char>>,
) -> PlanState {
    match (outcome, failure_text(ops[done])) {
        (Err(cause), Some(f)) => PlanState::Failed(f + cause),
        _ => if done + 1 < ops.len() {
            PlanState::Perform(done + 1)
        } else {
            PlanState::Succeeded
        },
    }
}

/// Where a plan stands before its first operation.
pub fn plan_start(ops: &Vec<VfsOp>) -> (p: PlanProgress)
    ensures
        p.state() == plan_start_state(plan_view(ops@)),
        p is Failed ==> false,
{
    if ops.len() == 0 {
        PlanProgress::Succeeded
    } else {
        PlanProgress::Perform(0)
    }
}

/// Where a plan stands once operation `done` had `outcome` (the cause of
/// its failure, as text, where it failed).
pub fn plan_next(ops: &Vec<VfsOp>, done: usize, outcome: Result<(), String>) -> (p: PlanProgress)
    requires
        done < ops.len(),
    ensures
        p.state() == plan_next_state(plan_view(ops@), done as int, outcome_view(outcome)),
        p matches PlanProgress::Failed(e) ==> e is Mount,
{
    let op = &ops[done];
    assert(plan_view(ops@)[done as int] == op@);
    if let Err(cause) = &outcome {
        if let Some(e) = op.failure(cause.as_str()) {
            return PlanProgress::Failed(e);
        }
    }
    if done + 1 < ops.len() {
        PlanProgress::Perform(done + 1)
    } else {
        PlanProgress::Succeeded
    }
}

} // verus!
