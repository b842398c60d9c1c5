//! The launch of a task: its command line, its workspace, and the steps the
//! sandboxed child and its parent take, with what a failed step ends in.
use vstd::prelude::*;

use crate::cgroup::CgroupV2Manager;
use crate::mount::{bind_ro_view, bind_rw_view, minimal_root_view, plan_view, VfsManager, VfsOp, VfsOpView};
use crate::error::SafeExecError;
use crate::text::{concat3, join, join_path};
use crate::time::Duration;
use vstd::string::StringExecFns;

verus! {

/// Launches one program in a fresh set of namespaces.
pub struct TaskLauncher<'a> {
    pub binary: &'a str,
    pub args: &'a [String],
    pub timeout: Duration,
    pub hostname: String,
    pub cgroup: Option<&'a CgroupV2Manager>,
    pub input: Option<&'a str>,
    pub output: Option<&'a str>,
    pub session: Option<&'a str>,
}

/// One step of the child, in the order it takes them.
#[derive(Debug, Clone, Copy, PartialEq, Eq, Structural)]
pub enum ChildStep {
    /// Close the parent's ends of the pipes.
    CloseParentDescriptors,
    /// Ask to be killed when the parent dies.
    SetParentDeathSignal,
    /// Become user 0 of the namespace.
    SetUid,
    /// Become group 0 of the namespace.
    SetGid,
    /// Tell the parent the child is ready to be mapped.
    SignalReady,
    /// Wait until the parent has mapped the child's identities.
    WaitForParent,
    /// Set the host name of the namespace.
    SetHostname,
    /// Make the workspace the root.
    PivotRoot,
    /// Run the program.
    Exec,
}

/// One step of the parent, in the order it takes them.
#[derive(Debug, Clone, Copy, PartialEq, Eq, Structural)]
pub enum ParentStep {
    /// Start the child in its namespaces.
    Spawn,
    /// Close the child's ends of the pipes.
    CloseChildDescriptors,
    /// Wait until the child is ready.
    WaitForChildReady,
    /// Map the child's root to the host user and group.
    WriteIdMaps,
    /// Move the child into the cgroup slice.
    AttachCgroup,
    /// Let the child go on.
    SignalContinue,
}

/// The steps of the parent, in order: the slice is joined only where one is given.
pub open spec fn parent_order(has_cgroup: bool) -> Seq<ParentStep> {
    seq![
        ParentStep::Spawn,
        ParentStep::CloseChildDescriptors,
        ParentStep::WaitForChildReady,
        ParentStep::WriteIdMaps,
    ] + (if has_cgroup {
        seq![ParentStep::AttachCgroup]
    } else {
        Seq::empty()
    }) + seq![ParentStep::SignalContinue]
}

/// The steps of the child, in order.
pub open spec fn child_order() -> Seq<ChildStep> {
    seq![
        ChildStep::CloseParentDescriptors,
        ChildStep::SetParentDeathSignal,
        ChildStep::SetUid,
        ChildStep::SetGid,
        ChildStep::SignalReady,
        ChildStep::WaitForParent,
        ChildStep::SetHostname,
        ChildStep::PivotRoot,
        ChildStep::Exec,
    ]
}

/// What the child reports when `step` fails (before the cause).
pub open spec fn child_step_label(step: ChildStep) -> Seq<char> {
    match step {
        ChildStep::CloseParentDescriptors => "close_parent_descriptors"@,
        ChildStep::SetParentDeathSignal => "prctl(PR_SET_PDEATHSIG)"@,
        ChildStep::SetUid => "setuid(0)"@,
        ChildStep::SetGid => "setgid(0)"@,
        ChildStep::SignalReady => "signal_ready"@,
        ChildStep::WaitForParent => "wait_for_parent_continue"@,
        ChildStep::SetHostname => "sethostname"@,
        ChildStep::PivotRoot => "pivot_root"@,
        ChildStep::Exec => "execve"@,
    }
}

/// The status the child exits with when `step` fails: 127 when the program
/// cannot be run, 1 for every other step.
pub open spec fn child_exit_code(step: ChildStep) -> i32 {
    if step == ChildStep::Exec {
        127
    } else {
        1
    }
}

/// The steps of the child, in order.
pub fn child_steps() -> (s: Vec<ChildStep>)
    ensures
        s@ == child_order(),
{
    let s = vec![
        ChildStep::CloseParentDescriptors,
        ChildStep::SetParentDeathSignal,
        ChildStep::SetUid,
        ChildStep::SetGid,
        ChildStep::SignalReady,
        ChildStep::WaitForParent,
        ChildStep::SetHostname,
        ChildStep::PivotRoot,
        ChildStep::Exec,
    ];
    assert(s@ =~= child_order());
    s
}

/// What the child prints and the status it exits with when `step` fails
/// with the given cause.
pub fn child_failure(step: ChildStep, cause: &str) -> (r: (String, i32))
    ensures
        r.0@ == "[child] "@ + child_step_label(step) + " failed: "@ + cause@,
        r.1 == child_exit_code(step),
{
    let label = match step {
        ChildStep::CloseParentDescriptors => "close_parent_descriptors",
        ChildStep::SetParentDeathSignal => "prctl(PR_SET_PDEATHSIG)",
        ChildStep::SetUid => "setuid(0)",
        ChildStep::SetGid => "setgid(0)",
        ChildStep::SignalReady => "signal_ready",
        ChildStep::WaitForParent => "wait_for_parent_continue",
        ChildStep::SetHostname => "sethostname",
        ChildStep::PivotRoot => "pivot_root",
        ChildStep::Exec => "execve",
    };
    let mut m = concat3("[child] ", label, " failed: ");
    m.append(cause);
    let code: i32 = match step {
        ChildStep::Exec => 127,
        _ => 1,
    };
    (m, code)
}

/// The entry `key=value` of the environment handed to the program.
pub fn env_entry(key: &str, value: &str) -> (e: String)
    ensures
        e@ == key@ + "="@ + value@,
{
    concat3(key, "=", value)
}

/// The views of a sequence of strings.
pub open spec fn string_views(v: Seq<String>) -> Seq<Seq<char>> {
    v.map_values(|s: String| s@)
}

/// The workspace plan of a launch in `root`: the minimal root, then (where an
/// input is given) that input shown read-only at `root/in`, then (where an
/// output is given) that output shown writable at `root/out`.
pub open spec fn workspace_view(
    root: Seq<char>,
    lib64_exists: bool,
    input: Option<Seq<char>>,
    output: Option<Seq<char>>,
) -> Seq<VfsOpView> {
    minimal_root_view(root, lib64_exists) + (match input {
        Some(i) => seq![VfsOpView::CreateDirAll { path: join_path(root, "in"@), failure: None }]
            + bind_ro_view(i, join_path(root, "in"@)),
        None => Seq::empty(),
    }) + output_view(root, output)
}

/// The part of a workspace plan that shows the output, where one is given.
pub open spec fn output_view(root: Seq<char>, output: Option<Seq<char>>) -> Seq<VfsOpView> {
    match output {
        Some(o) => seq![VfsOpView::CreateDirAll { path: join_path(root, "out"@), failure: None }]
            + bind_rw_view(o, join_path(root, "out"@)),
        None => Seq::empty(),
    }
}

/// The view of an optional string slice.
pub open spec fn opt_str_view(s: Option<&str>) -> Option<Seq<char>> {
    match s {
        Some(t) => Some(t@),
        None => None,
    }
}

fn append_ops(ops: &mut Vec<VfsOp>, more: Vec<VfsOp>)
    ensures
        plan_view(final(ops)@) == plan_view(old(ops)@) + plan_view(more@),
{
    let mut more = more;
    let ghost m = more@;
    ops.append(&mut more);
    assert(plan_view(ops@) =~= plan_view(old(ops)@) + plan_view(m));
}

/// How the child stands, as `waitpid` reported it.
#[derive(Debug, Clone, Copy, PartialEq, Eq, Structural)]
pub enum ChildStatus {
    /// Still running.
    Running,
    /// Exited with this status.
    Exited(i32),
    /// Ended by this signal.
    Signaled(i32),
}

/// What to do next while waiting for the child.
#[derive(Debug, Clone, Copy, PartialEq, Eq, Structural)]
pub enum WaitStep {
    /// The child ended; the launch returns this status.
    Finished(i32),
    /// Wait this many milliseconds, then look again.
    Poll { millis: u64 },
    /// The time limit is reached: kill the child and report the timeout.
    TimedOut,
}

/// The pause, in milliseconds, between two looks at a running child.
pub const WAIT_POLL_MILLIS: u64 = 10;

/// What comes after a child step.
pub enum ChildProgress {
    /// Take the step at this index of `child_steps()` next.
    Perform(usize),
    /// Print `message` and exit with `code`.
    Exit { message: String, code: i32 },
}

/// What comes after a parent step.
pub enum ParentProgress {
    /// Take the step at this index of the parent's steps next.
    Perform(usize),
    /// Every step was taken; the child runs.
    Released,
    /// A step failed with this error; the launch stops with it.
    Failed(SafeExecError),
}

/// What comes after child step `done` (an index into `child_steps()`), given
/// its outcome: the next step, or, on a failure, the message and status the
/// child exits with. Running the program returns only on failure.
pub fn child_next(done: usize, outcome: Result<(), String>) -> (p: ChildProgress)
    requires
        done < child_order().len(),
        done + 1 == child_order().len() ==> outcome is Err,
    ensures
        outcome is Ok ==> p == ChildProgress::Perform((done + 1) as usize),
        outcome matches Err(cause) ==> p matches ChildProgress::Exit { message, code } && message@
            == "[child] "@ + child_step_label(child_order()[done as int]) + " failed: "@ + cause@
            && code == child_exit_code(child_order()[done as int]),
{
    match outcome {
        Ok(()) => ChildProgress::Perform(done + 1),
        Err(cause) => {
            let steps = child_steps();
            let (message, code) = child_failure(steps[done], cause.as_str());
            ChildProgress::Exit { message, code }
        },
    }
}

impl<'a> TaskLauncher<'a> {
    /// A launch of `binary` with `args`, limited to `timeout`, in a namespace
    /// named `hostname`, with no slice, input or output yet.
    pub fn new(binary: &'a str, args: &'a [String], timeout: Duration, hostname: String) -> (l: Self)
        ensures
            l.binary == binary,
            l.args == args,
            l.timeout == timeout,
            l.hostname == hostname,
            l.cgroup is None,
            l.input is None,
            l.output is None,
            l.session is None,
    {
        TaskLauncher {
            binary,
            args,
            timeout,
            hostname,
            cgroup: None,
            input: None,
            output: None,
            session: None,
        }
    }

    /// The same launch, placed in the slice `cg`.
    pub fn with_cgroup(self, cg: &'a CgroupV2Manager) -> (l: Self)
        ensures
            l == (TaskLauncher { cgroup: Some(cg), ..self }),
    {
        let mut l = self;
        l.cgroup = Some(cg);
        l
    }

    /// The same launch, with the host directory `path` shown at `/in`.
    pub fn with_input(self, path: &'a str) -> (l: Self)
        ensures
            l == (TaskLauncher { input: Some(path), ..self }),
    {
        let mut l = self;
        l.input = Some(path);
        l
    }

    /// The same launch, with the output directory `path`.
    pub fn with_output(self, path: &'a str) -> (l: Self)
        ensures
            l == (TaskLauncher { output: Some(path), ..self }),
    {
        let mut l = self;
        l.output = Some(path);
        l
    }

    /// The same launch, for the session `id`, which names its workspace.
    pub fn with_session(self, id: &'a str) -> (l: Self)
        ensures
            l == (TaskLauncher { session: Some(id), ..self }),
    {
        let mut l = self;
        l.session = Some(id);
        l
    }

    /// The command line of the program: its path, then its arguments.
    pub fn argv(&self) -> (v: Vec<String>)
        ensures
            string_views(v@) == seq![self.binary@] + string_views(self.args@),
    {
        let mut v: Vec<String> = Vec::new();
        v.push(String::from_str(self.binary));
        let mut i: usize = 0;
        while i < self.args.len()
            invariant
                i <= self.args.len(),
                string_views(v@) == seq![self.binary@] + string_views(self.args@).take(i as int),
            decreases self.args.len() - i,
        {
            let a = self.args[i].clone();
            assert(a@ == string_views(self.args@)[i as int]);
            let ghost before = v@;
            v.push(a);
            assert(string_views(v@) =~= string_views(before).push(a@));
            assert(string_views(v@) =~= seq![self.binary@] + string_views(self.args@).take(
                i + 1,
            ));
            i = i + 1;
        }
        assert(string_views(self.args@).take(i as int) =~= string_views(self.args@));
        v
    }

    /// The workspace plan of this launch in the workspace `root`, given
    /// whether the host has a `/lib64`.
    pub fn workspace_plan(&self, root: &str, lib64_exists: bool) -> (ops: Vec<VfsOp>)
        ensures
            plan_view(ops@) == workspace_view(
                root@,
                lib64_exists,
                opt_str_view(self.input),
                opt_str_view(self.output),
            ),
    {
        let vfs = VfsManager::new();
        let mut ops = vfs.setup_minimal_root(root, lib64_exists);
        let ghost base = plan_view(ops@);
        if let Some(input) = self.input {
            let dst = join(root, "in");
            append_ops(&mut ops, vfs.bind_mount_into(input, dst.as_str()));
        }
        assert(plan_view(ops@) =~= base + (match opt_str_view(self.input) {
            Some(i) => seq![VfsOpView::CreateDirAll { path: join_path(root@, "in"@), failure: None }]
                + bind_ro_view(i, join_path(root@, "in"@)),
            None => Seq::empty(),
        }));
        let ghost mid = plan_view(ops@);
        if let Some(output) = self.output {
            let dst = join(root, "out");
            append_ops(&mut ops, vfs.bind_mount_output(output, dst.as_str()));
        }
        assert(plan_view(ops@) =~= mid + output_view(root@, opt_str_view(self.output)));
        ops
    }

    /// The steps of the parent, in order: the slice is joined only where one is given.
    pub fn parent_steps(&self) -> (s: Vec<ParentStep>)
        ensures
            s@ == parent_order(self.cgroup is Some),
    {
        let mut s: Vec<ParentStep> = Vec::new();
        s.push(ParentStep::Spawn);
        s.push(ParentStep::CloseChildDescriptors);
        s.push(ParentStep::WaitForChildReady);
        s.push(ParentStep::WriteIdMaps);
        if self.cgroup.is_some() {
            s.push(ParentStep::AttachCgroup);
        }
        s.push(ParentStep::SignalContinue);
        assert(s@ =~= parent_order(self.cgroup is Some));
        s
    }

    /// What comes after parent step `done` (an index into `parent_steps()`),
    /// given its outcome: the next step, the child's release after the last
    /// step, or the error that stops the launch.
    pub fn parent_next(&self, done: usize, outcome: Result<(), SafeExecError>) -> (p: ParentProgress)
        requires
            done < parent_order(self.cgroup is Some).len(),
        ensures
            outcome matches Err(e) ==> p == ParentProgress::Failed(e),
            outcome is Ok && done + 1 < parent_order(self.cgroup is Some).len() ==> p
                == ParentProgress::Perform((done + 1) as usize),
            outcome is Ok && done + 1 == parent_order(self.cgroup is Some).len() ==> p
                == ParentProgress::Released,
    {
        let len: usize = if self.cgroup.is_some() {
            6
        } else {
            5
        };
        assert(parent_order(self.cgroup is Some).len() == len);
        match outcome {
            Err(e) => ParentProgress::Failed(e),
            Ok(()) => if done + 1 < len {
                ParentProgress::Perform(done + 1)
            } else {
                ParentProgress::Released
            },
        }
    }

    /// What to do while waiting for the child, after `elapsed` since it was
    /// let go: an exit status is returned as it is; a signal `s` ends the
    /// launch with `128 + s`; a running child is given up on once `elapsed`
    /// reaches the time limit, and looked at again after a pause before that.
    pub fn wait_step(&self, status: ChildStatus, elapsed: Duration) -> (w: WaitStep)
        requires
            status matches ChildStatus::Signaled(s) ==> s <= i32::MAX - 128,
        ensures
            status matches ChildStatus::Exited(c) ==> w == WaitStep::Finished(c),
            status matches ChildStatus::Signaled(s) ==> w == WaitStep::Finished((128 + s) as i32),
            status is Running && elapsed.at_least(self.timeout) ==> w == WaitStep::TimedOut,
            status is Running && !elapsed.at_least(self.timeout) ==> w == (WaitStep::Poll {
                millis: WAIT_POLL_MILLIS,
            }),
    {
        match status {
            ChildStatus::Exited(c) => WaitStep::Finished(c),
            ChildStatus::Signaled(s) => WaitStep::Finished(128 + s),
            ChildStatus::Running => if elapsed.reaches(&self.timeout) {
                WaitStep::TimedOut
            } else {
                WaitStep::Poll { millis: WAIT_POLL_MILLIS }
            },
        }
    }

    /// The error of a launch whose time limit ran out.
    pub fn timeout_error(&self) -> (e: SafeExecError)
        ensures
            e == SafeExecError::Timeout(self.timeout),
    {
        SafeExecError::Timeout(self.timeout)
    }

    /// The session that names the workspace: the one given, or none (an
    /// empty name) where the launch was given no session.
    pub fn workspace_session(&self) -> (s: &str)
        ensures
            s@ == match self.session {
                Some(id) => id@,
                None => Seq::<char>::empty(),
            },
    {
        match self.session {
            Some(id) => id,
            None => {
                proof {
                    reveal_strlit("");
                }
                ""
            },
        }
    }

    /// The host name as the namespace is given it.
    pub fn hostname_text(&self) -> (h: &str)
        ensures
            h@ == self.hostname@,
    {
        self.hostname.as_str()
    }
}

} // verus!
