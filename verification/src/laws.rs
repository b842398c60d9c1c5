//! What holds of the library as a whole, for every input.
use vstd::prelude::*;

use crate::cgroup::{
    listed_pids, CgroupV2Manager, removal_step_spec, slice_prefix, RemovalStep, REMOVAL_ATTEMPTS, REMOVAL_BACKOFF_MILLIS,
};
use crate::error::SafeExecError;
use crate::mount::{
    pivot_view, MountFlags, bind_recursive, bind_ro_view, bind_rw_view, minimal_root_view, mkdir_view, remount_read_only,
    failure_text, plan_next_state, plan_start_state, root_dirs, PlanState, VfsOpView,
};
use crate::runtime::{
    run_order, run_progress, RunProgress, RunStep, duration_fits, duration_outcome, duration_parts, memory_fallback_text, memory_outcome,
    memory_parts, unit_limit_fits, unit_limit_outcome, TimeUnit,
};
use crate::units::byte_unit_parse;
use crate::task::{child_exit_code, child_order, output_view, parent_order, workspace_view, ChildStep, ParentStep};
use crate::text::{
    decimal, has_prefix, has_suffix, is_digit, is_space, join_path, lemma_decimal_digits,
    lemma_parse_decimal, lemma_trim_noop, lemma_trim_padded, parse_i32, parse_u64, trim,
};
use crate::time::Duration;

verus! {

proof fn lemma_number_with_suffix(n: u64, suffix: Seq<char>)
    requires
        forall|i: int| 0 <= i < suffix.len() ==> !is_space(#[trigger] suffix[i]),
    ensures
        trim(decimal(n as nat) + suffix) == decimal(n as nat) + suffix,
        (decimal(n as nat) + suffix).len() == decimal(n as nat).len() + suffix.len(),
        (decimal(n as nat) + suffix).take(decimal(n as nat).len() as int) == decimal(n as nat),
        (decimal(n as nat) + suffix).skip(decimal(n as nat).len() as int) == suffix,
        is_digit(decimal(n as nat).last()),
{
    lemma_decimal_digits(n as nat);
    let d = decimal(n as nat);
    let s = d + suffix;
    assert(is_digit(d[d.len() - 1]));
    assert(is_digit(d[0]));
    assert(s[0] == d[0]);
    if suffix.len() > 0 {
        assert(s.last() == suffix[suffix.len() - 1]);
    } else {
        assert(s.last() == d.last());
    }
    lemma_trim_noop(s);
    assert(s.take(d.len() as int) =~= d);
    assert(s.skip(d.len() as int) =~= suffix);
}

/// A number followed by `s` is that many seconds.
pub proof fn law_duration_seconds(n: u64)
    ensures
        duration_fits(decimal(n as nat) + seq!['s']),
        duration_outcome(decimal(n as nat) + seq!['s']) == Ok::<Duration, Seq<char>>(
            Duration::of_secs(n),
        ),
{
    let d = decimal(n as nat);
    let t = d + seq!['s'];
    lemma_number_with_suffix(n, seq!['s']);
    lemma_parse_decimal(n);
    assert(t.skip(t.len() - 2)[0] == d.last());
    assert(!has_suffix(t, seq!['m', 's']));
    assert(t.skip(t.len() - 1) =~= seq!['s']);
    assert(t.drop_last() =~= d);
    assert(duration_parts(t) == (d, TimeUnit::Secs));
}

/// A number followed by `ms` is that many milliseconds.
pub proof fn law_duration_millis(n: u64)
    ensures
        duration_fits(decimal(n as nat) + seq!['m', 's']),
        duration_outcome(decimal(n as nat) + seq!['m', 's']) == Ok::<Duration, Seq<char>>(
            Duration::of_millis(n),
        ),
{
    let d = decimal(n as nat);
    let t = d + seq!['m', 's'];
    lemma_number_with_suffix(n, seq!['m', 's']);
    lemma_parse_decimal(n);
    assert(t.skip(t.len() - 2) =~= seq!['m', 's']);
    assert(t.take(t.len() - 2) =~= d);
    assert(duration_parts(t) == (d, TimeUnit::Millis));
}

/// A number followed by `m` is that many minutes, where their seconds fit in 64 bits.
pub proof fn law_duration_minutes(n: u64)
    requires
        n * 60 <= u64::MAX,
    ensures
        duration_fits(decimal(n as nat) + seq!['m']),
        duration_outcome(decimal(n as nat) + seq!['m']) == Ok::<Duration, Seq<char>>(
            Duration::of_secs((n * 60) as u64),
        ),
{
    let d = decimal(n as nat);
    let t = d + seq!['m'];
    lemma_number_with_suffix(n, seq!['m']);
    lemma_parse_decimal(n);
    assert(t.skip(t.len() - 2)[1] == 'm');
    assert(!has_suffix(t, seq!['m', 's']));
    assert(t.skip(t.len() - 1)[0] == 'm');
    assert(!has_suffix(t, seq!['s']));
    assert(t.skip(t.len() - 1) =~= seq!['m']);
    assert(t.drop_last() =~= d);
    assert(duration_parts(t) == (d, TimeUnit::Mins));
}

/// A bare number is that many seconds.
pub proof fn law_duration_bare_number(n: u64)
    ensures
        duration_fits(decimal(n as nat)),
        duration_outcome(decimal(n as nat)) == Ok::<Duration, Seq<char>>(Duration::of_secs(n)),
{
    let d = decimal(n as nat);
    lemma_number_with_suffix(n, Seq::<char>::empty());
    assert(d + Seq::<char>::empty() =~= d);
    lemma_parse_decimal(n);
    assert(d.skip(d.len() - 1)[0] == d.last());
    assert(!has_suffix(d, seq!['s']));
    assert(!has_suffix(d, seq!['m']));
    if d.len() >= 2 {
        assert(d.skip(d.len() - 2)[1] == d.last());
    }
    assert(!has_suffix(d, seq!['m', 's']));
    assert(duration_parts(d) == (d, TimeUnit::Secs));
}

/// Whitespace around a time limit changes neither its value nor its error.
pub proof fn law_duration_ignores_padding(s: Seq<char>, c: char)
    requires
        is_space(c),
    ensures
        duration_fits(seq![c] + s + seq![c]) == duration_fits(s),
        duration_outcome(seq![c] + s + seq![c]) == duration_outcome(s),
{
    lemma_trim_padded(s, c);
}

/// A number followed by `MB` is that many mebibytes (where `byte_unit`
/// does not read the limit first), as long as the bytes fit in 64 bits.
pub proof fn law_memory_megabytes(n: u64)
    requires
        n * 1048576 <= u64::MAX,
    ensures
        unit_limit_fits(decimal(n as nat) + seq!['M', 'B']),
        unit_limit_outcome(decimal(n as nat) + seq!['M', 'B']) == Ok::<u64, Seq<char>>(
            (n * 1048576) as u64,
        ),
{
    let d = decimal(n as nat);
    let u = d + seq!['M', 'B'];
    lemma_number_with_suffix(n, seq!['M', 'B']);
    lemma_parse_decimal(n);
    lemma_decimal_digits(n as nat);
    assert(u.skip(u.len() - 2) =~= seq!['M', 'B']);
    assert(u.skip(u.len() - 2)[0] == 'M');
    assert(!has_suffix(u, seq!['G', 'B']));
    assert(u.take(u.len() - 2) =~= d);
    assert(is_digit(d[0]) && is_digit(d.last()));
    lemma_trim_noop(d);
}

/// Every control file of a slice lies inside the slice's directory.
pub proof fn law_control_files_inside_slice(session: Seq<char>, file: Seq<char>)
    requires
        file.len() == 0 || file[0] != '/',
    ensures
        has_prefix(join_path(slice_prefix() + session, file), slice_prefix() + session),
{
    let base = slice_prefix() + session;
    let p = join_path(base, file);
    if base.len() == 0 || base.last() == '/' {
        assert(p.take(base.len() as int) =~= base);
    } else {
        assert(p.take(base.len() as int) =~= base);
    }
}

/// A run reads its time limit first and creates the slice only after it; a
/// failed step ends the run with its error, so an invalid time limit stops it
/// before any slice exists; each step that succeeds leads to the next one,
/// and the task is launched last.
pub proof fn law_run_order(done: nat, e: SafeExecError)
    requires
        done < run_order().len(),
    ensures
        run_order()[0] == RunStep::ReadTimeLimit,
        run_order()[1] == RunStep::CreateSlice,
        run_order().last() == RunStep::Launch,
        run_progress(done, Err(e)) == RunProgress::Failed(e),
        done + 1 < run_order().len() ==> run_progress(done, Ok(())) == RunProgress::Perform(
            (done + 1) as usize,
        ),
        done + 1 == run_order().len() ==> run_progress(done, Ok(())) == RunProgress::Finished,
{
}

/// A manager's slice stays where `new` put it. No method of
/// `CgroupV2Manager` takes it by mutable reference, so its directory `m@` is
/// the same before and after any call; for the manager that `new(session)`
/// gives, `path()` is `/sys/fs/cgroup/safeexec_<session>` at every point, and
/// every control file it writes or reads lies directly in that directory.
pub proof fn law_slice_path_fixed(m: CgroupV2Manager, session: Seq<char>, file: Seq<char>)
    requires
        m@ == slice_prefix() + session,
        file.len() == 0 || file[0] != '/',
    ensures
        join_path(m@, file) == join_path(slice_prefix() + session, file),
        has_prefix(join_path(m@, file), m@),
{
    law_control_files_inside_slice(session, file);
}

/// Distinct sessions get distinct slices.
pub proof fn law_distinct_sessions_distinct_slices(a: Seq<char>, b: Seq<char>)
    requires
        a != b,
    ensures
        slice_prefix() + a != slice_prefix() + b,
{
    let p = slice_prefix();
    if p + a == p + b {
        assert((p + a).skip(p.len() as int) =~= a);
        assert((p + b).skip(p.len() as int) =~= b);
    }
}

/// The number that a limit write holds reads back as that number, with or
/// without the line feed the kernel ends it with.
pub proof fn law_limit_reads_back(b: u64)
    ensures
        parse_u64(trim(decimal(b as nat))) == Some(b),
        parse_u64(trim(decimal(b as nat) + seq!['\n'])) == Some(b),
{
    lemma_decimal_digits(b as nat);
    lemma_parse_decimal(b);
    let d = decimal(b as nat);
    assert(is_digit(d[0]) && is_digit(d.last()));
    lemma_trim_noop(d);
    let t = d + seq!['\n'];
    assert(t.drop_last() =~= d);
    assert(t[0] == d[0]);
    assert(trim(t) == d) by {
        lemma_trim_noop(d);
        assert(t.len() > 0 && is_space(t.last()));
    }
}

/// The parent lets the child go on only as its last step, after mapping the
/// child's identities and, where a slice is given, after moving it into the slice.
pub proof fn law_child_released_last(has_cgroup: bool)
    ensures
        parent_order(has_cgroup).last() == ParentStep::SignalContinue,
        forall|i: int|
            0 <= i < parent_order(has_cgroup).len() - 1 ==> parent_order(has_cgroup)[i]
                != ParentStep::SignalContinue,
        parent_order(has_cgroup).contains(ParentStep::WriteIdMaps),
        has_cgroup <==> parent_order(has_cgroup).contains(ParentStep::AttachCgroup),
{
    let o = parent_order(has_cgroup);
    if has_cgroup {
        assert(o =~= seq![
            ParentStep::Spawn,
            ParentStep::CloseChildDescriptors,
            ParentStep::WaitForChildReady,
            ParentStep::WriteIdMaps,
            ParentStep::AttachCgroup,
            ParentStep::SignalContinue,
        ]);
        assert(o[3] == ParentStep::WriteIdMaps);
        assert(o[4] == ParentStep::AttachCgroup);
        assert forall|i: int| 0 <= i < o.len() - 1 implies o[i] != ParentStep::SignalContinue by {
            assert(i == 0 || i == 1 || i == 2 || i == 3 || i == 4);
        }
    } else {
        assert(o =~= seq![
            ParentStep::Spawn,
            ParentStep::CloseChildDescriptors,
            ParentStep::WaitForChildReady,
            ParentStep::WriteIdMaps,
            ParentStep::SignalContinue,
        ]);
        assert(o[3] == ParentStep::WriteIdMaps);
        assert forall|i: int| 0 <= i < o.len() - 1 implies o[i] != ParentStep::SignalContinue by {
            assert(i == 0 || i == 1 || i == 2 || i == 3);
        }
        assert forall|i: int| 0 <= i < o.len() implies o[i] != ParentStep::AttachCgroup by {
            assert(i == 0 || i == 1 || i == 2 || i == 3 || i == 4);
        }
    }
}

/// Where each step of the child stands in its order.
pub open spec fn child_position(step: ChildStep) -> int {
    match step {
        ChildStep::CloseParentDescriptors => 0,
        ChildStep::SetParentDeathSignal => 1,
        ChildStep::SetUid => 2,
        ChildStep::SetGid => 3,
        ChildStep::SignalReady => 4,
        ChildStep::WaitForParent => 5,
        ChildStep::SetHostname => 6,
        ChildStep::PivotRoot => 7,
        ChildStep::Exec => 8,
    }
}

/// The child takes each step once, and runs the program only as its last
/// step: after taking its identities, waiting for the parent's mapping and
/// entering its root.
pub proof fn law_exec_last()
    ensures
        forall|s: ChildStep| child_order()[#[trigger] child_position(s)] == s,
        forall|i: int|
            0 <= i < child_order().len() ==> child_position(#[trigger] child_order()[i]) == i,
        child_position(ChildStep::Exec) == child_order().len() - 1,
        child_position(ChildStep::SetUid) < child_position(ChildStep::Exec),
        child_position(ChildStep::SetGid) < child_position(ChildStep::Exec),
        child_position(ChildStep::SignalReady) < child_position(ChildStep::WaitForParent),
        child_position(ChildStep::WaitForParent) < child_position(ChildStep::SetHostname),
        child_position(ChildStep::WaitForParent) < child_position(ChildStep::PivotRoot),
        child_position(ChildStep::PivotRoot) < child_position(ChildStep::Exec),
{
    let o = child_order();
    assert forall|s: ChildStep| o[#[trigger] child_position(s)] == s by {
        match s {
            _ => {},
        }
    }
    assert forall|i: int| 0 <= i < o.len() implies child_position(#[trigger] o[i]) == i by {
        assert(i == 0 || i == 1 || i == 2 || i == 3 || i == 4 || i == 5 || i == 6 || i == 7 || i
            == 8);
    }
}

/// Whether every mount of a host directory in `p` is directly followed by a
/// read-only remount of the same target.
pub open spec fn binds_read_only(p: Seq<VfsOpView>) -> bool {
    forall|i: int|
        #![trigger p[i]]
        0 <= i < p.len() && p[i] is Mount && p[i]->source is Some ==> {
            &&& i + 1 < p.len()
            &&& p[i + 1] is Mount
            &&& p[i + 1]->source is None
            &&& p[i + 1]->Mount_target == p[i]->Mount_target
            &&& p[i + 1]->flags == remount_read_only()
        }
}

/// Whether the operation `o` touches only paths under `root`.
pub open spec fn op_inside(o: VfsOpView, root: Seq<char>) -> bool {
    match o {
        VfsOpView::CreateDirAll { path, .. } => has_prefix(path, root),
        VfsOpView::SetMode { path, .. } => has_prefix(path, root),
        VfsOpView::Mount { target, .. } => has_prefix(target, root),
        VfsOpView::PivotRoot { new_root, .. } => has_prefix(new_root, root),
        VfsOpView::ChangeDir { path, .. } => has_prefix(path, root),
        VfsOpView::Detach { target, .. } => has_prefix(target, root),
    }
}

/// Whether every operation of `p` touches only paths under `root`.
pub open spec fn plan_inside(p: Seq<VfsOpView>, root: Seq<char>) -> bool {
    forall|i: int| 0 <= i < p.len() ==> op_inside(#[trigger] p[i], root)
}

proof fn lemma_binds_read_only_concat(a: Seq<VfsOpView>, b: Seq<VfsOpView>)
    requires
        binds_read_only(a),
        binds_read_only(b),
    ensures
        binds_read_only(a + b),
{
    let c = a + b;
    assert forall|i: int|
        #![trigger c[i]]
        0 <= i < c.len() && c[i] is Mount && c[i]->source is Some implies {
            &&& i + 1 < c.len()
            &&& c[i + 1] is Mount
            &&& c[i + 1]->source is None
            &&& c[i + 1]->Mount_target == c[i]->Mount_target
            &&& c[i + 1]->flags == remount_read_only()
        } by {
        if i < a.len() {
            assert(c[i] == a[i]);
            assert(c[i + 1] == a[i + 1]);
        } else {
            assert(c[i] == b[i - a.len()]);
            assert(c[i + 1] == b[i + 1 - a.len()]);
        }
    }
}

proof fn lemma_plan_inside_concat(a: Seq<VfsOpView>, b: Seq<VfsOpView>, root: Seq<char>)
    requires
        plan_inside(a, root),
        plan_inside(b, root),
    ensures
        plan_inside(a + b, root),
{
    let c = a + b;
    assert forall|i: int| 0 <= i < c.len() implies op_inside(#[trigger] c[i], root) by {
        if i < a.len() {
            assert(c[i] == a[i]);
        } else {
            assert(c[i] == b[i - a.len()]);
        }
    }
}

proof fn lemma_join_inside(root: Seq<char>, rel: Seq<char>)
    requires
        rel.len() == 0 || rel[0] != '/',
    ensures
        has_prefix(join_path(root, rel), root),
{
    assert(join_path(root, rel).take(root.len() as int) =~= root);
}

proof fn lemma_bind_ro(src: Seq<char>, root: Seq<char>, rel: Seq<char>)
    requires
        rel.len() == 0 || rel[0] != '/',
    ensures
        binds_read_only(bind_ro_view(src, join_path(root, rel))),
        plan_inside(bind_ro_view(src, join_path(root, rel)), root),
{
    lemma_join_inside(root, rel);
    let p = bind_ro_view(src, join_path(root, rel));
    assert forall|i: int| 0 <= i < p.len() implies op_inside(#[trigger] p[i], root) by {
        assert(i == 0 || i == 1);
    }
}

proof fn lemma_empty_plan(root: Seq<char>)
    ensures
        binds_read_only(Seq::<VfsOpView>::empty()),
        plan_inside(Seq::<VfsOpView>::empty(), root),
{
}

/// The minimal root mounts host directories only read-only, and every
/// directory it creates, every mode it sets and every mount it makes lies
/// under the workspace.
pub proof fn law_minimal_root_confined(root: Seq<char>, lib64_exists: bool)
    ensures
        binds_read_only(minimal_root_view(root, lib64_exists)),
        plan_inside(minimal_root_view(root, lib64_exists), root),
{
    reveal_strlit("bin");
    reveal_strlit("dev");
    reveal_strlit("etc");
    reveal_strlit("lib");
    reveal_strlit("proc");
    reveal_strlit("sys");
    reveal_strlit("lib64");
    reveal_strlit("tmp");
    reveal_strlit("usr");
    reveal_strlit("in");
    reveal_strlit("out");
    let dirs = Seq::new(11, |i: int| mkdir_view(join_path(root, root_dirs()[i])));
    assert forall|i: int| 0 <= i < dirs.len() implies op_inside(#[trigger] dirs[i], root) by {
        assert(root_dirs()[i].len() == 0 || root_dirs()[i][0] != '/') by {
            assert(i == 0 || i == 1 || i == 2 || i == 3 || i == 4 || i == 5 || i == 6 || i == 7
                || i == 8 || i == 9 || i == 10);
        }
        lemma_join_inside(root, root_dirs()[i]);
    }
    assert(binds_read_only(dirs));
    let tmp = seq![VfsOpView::SetMode { path: join_path(root, "tmp"@), mode: 0o777 }];
    lemma_join_inside(root, "tmp"@);
    assert(op_inside(tmp[0], root));
    assert(plan_inside(tmp, root));
    assert(binds_read_only(tmp));
    lemma_binds_read_only_concat(dirs, tmp);
    lemma_plan_inside_concat(dirs, tmp, root);
    let bin = bind_ro_view("/bin"@, join_path(root, "bin"@));
    lemma_bind_ro("/bin"@, root, "bin"@);
    lemma_binds_read_only_concat(dirs + tmp, bin);
    lemma_plan_inside_concat(dirs + tmp, bin, root);
    let lib = bind_ro_view("/lib"@, join_path(root, "lib"@));
    lemma_bind_ro("/lib"@, root, "lib"@);
    lemma_binds_read_only_concat(dirs + tmp + bin, lib);
    lemma_plan_inside_concat(dirs + tmp + bin, lib, root);
    let lib64 = if lib64_exists {
        bind_ro_view("/lib64"@, join_path(root, "lib64"@))
    } else {
        Seq::empty()
    };
    lemma_bind_ro("/lib64"@, root, "lib64"@);
    lemma_empty_plan(root);
    lemma_binds_read_only_concat(dirs + tmp + bin + lib, lib64);
    lemma_plan_inside_concat(dirs + tmp + bin + lib, lib64, root);
    let usr = bind_ro_view("/usr"@, join_path(root, "usr"@));
    lemma_bind_ro("/usr"@, root, "usr"@);
    lemma_binds_read_only_concat(dirs + tmp + bin + lib + lib64, usr);
    lemma_plan_inside_concat(dirs + tmp + bin + lib + lib64, usr, root);
    let dev = bind_ro_view("/dev"@, join_path(root, "dev"@));
    lemma_bind_ro("/dev"@, root, "dev"@);
    lemma_binds_read_only_concat(dirs + tmp + bin + lib + lib64 + usr, dev);
    lemma_plan_inside_concat(dirs + tmp + bin + lib + lib64 + usr, dev, root);
    assert(minimal_root_view(root, lib64_exists) == dirs + tmp + bin + lib + lib64 + usr + dev);
}

/// A launch's workspace touches nothing outside the workspace; it mounts
/// the input and every host directory of the minimal root only read-only; and
/// the one writable host mount, where an output is given, is that output at
/// `root/out`, after everything else.
pub proof fn law_workspace_confined(
    root: Seq<char>,
    lib64_exists: bool,
    input: Option<Seq<char>>,
    output: Option<Seq<char>>,
)
    ensures
        plan_inside(workspace_view(root, lib64_exists, input, output), root),
        binds_read_only(workspace_view(root, lib64_exists, input, None)),
        workspace_view(root, lib64_exists, input, output) == workspace_view(
            root,
            lib64_exists,
            input,
            None,
        ) + output_view(root, output),
        output matches Some(o) ==> output_view(root, output) == seq![
            VfsOpView::CreateDirAll { path: join_path(root, "out"@), failure: None },
        ] + bind_rw_view(o, join_path(root, "out"@)),
        output matches Some(o) ==> output_view(root, output)[1] == (VfsOpView::Mount {
            source: Some(o),
            target: join_path(root, "out"@),
            flags: bind_recursive(),
            failure: "bind mount "@ + o + " -> "@ + join_path(root, "out"@) + " failed: "@,
        }),
        !bind_recursive().read_only,
{
    reveal_strlit("in");
    reveal_strlit("out");
    law_minimal_root_confined(root, lib64_exists);
    let base = minimal_root_view(root, lib64_exists);
    lemma_empty_plan(root);
    let inp = match input {
        Some(i) => seq![VfsOpView::CreateDirAll { path: join_path(root, "in"@), failure: None }]
            + bind_ro_view(i, join_path(root, "in"@)),
        None => Seq::empty(),
    };
    if let Some(i) = input {
        let mk = seq![VfsOpView::CreateDirAll { path: join_path(root, "in"@), failure: None }];
        lemma_join_inside(root, "in"@);
        assert(op_inside(mk[0], root));
        assert(plan_inside(mk, root));
        assert(binds_read_only(mk));
        lemma_bind_ro(i, root, "in"@);
        lemma_binds_read_only_concat(mk, bind_ro_view(i, join_path(root, "in"@)));
        lemma_plan_inside_concat(mk, bind_ro_view(i, join_path(root, "in"@)), root);
    }
    lemma_binds_read_only_concat(base, inp);
    lemma_plan_inside_concat(base, inp, root);
    assert(output_view(root, None) =~= Seq::<VfsOpView>::empty());
    assert(workspace_view(root, lib64_exists, input, None) =~= base + inp);
    let out = output_view(root, output);
    lemma_join_inside(root, "out"@);
    if let Some(o) = output {
        assert(out.len() == 2);
        assert(op_inside(out[0], root));
        assert(op_inside(out[1], root));
    }
    assert(plan_inside(out, root));
    lemma_plan_inside_concat(base + inp, out, root);
}

/// Whether operation `k` of `ops` fails with `outs[k]` in a way that stops the plan.
pub open spec fn stops_plan(ops: Seq<VfsOpView>, outs: Seq<Result<(), Seq<char>>>, k: int) -> bool {
    outs[k] is Err && failure_text(ops[k]) is Some
}

/// Where running `ops` from operation `i` ends, when operation `k` has outcome `outs[k]`.
pub open spec fn run_plan_from(
    ops: Seq<VfsOpView>,
    outs: Seq<Result<(), Seq<char>>>,
    i: nat,
) -> PlanState
    decreases ops.len() - i,
{
    if i >= ops.len() {
        PlanState::Succeeded
    } else {
        match plan_next_state(ops, i as int, outs[i as int]) {
            PlanState::Perform(_) => run_plan_from(ops, outs, i + 1),
            s => s,
        }
    }
}

proof fn lemma_run_plan_from(ops: Seq<VfsOpView>, outs: Seq<Result<(), Seq<char>>>, i: nat)
    requires
        outs.len() == ops.len(),
        i <= ops.len(),
    ensures
        (forall|k: int| i <= k < ops.len() ==> !stops_plan(ops, outs, k)) ==> run_plan_from(
            ops,
            outs,
            i,
        ) == PlanState::Succeeded,
        forall|k: int|
            i <= k < ops.len() && stops_plan(ops, outs, k) && (forall|j: int|
                i <= j < k ==> !stops_plan(ops, outs, j)) ==> run_plan_from(ops, outs, i)
                == PlanState::Failed(failure_text(ops[k])->0 + outs[k]->Err_0),
    decreases ops.len() - i,
{
    if i < ops.len() {
        lemma_run_plan_from(ops, outs, i + 1);
        if !stops_plan(ops, outs, i as int) {
            assert(run_plan_from(ops, outs, i) == run_plan_from(ops, outs, i + 1));
        }
    }
}

/// Running a plan operation by operation (from `plan_start_state`, then by
/// `plan_next_state`) succeeds when no operation that carries a failure text
/// fails; otherwise it stops at the first such operation, with its failure
/// text followed by the cause.
pub proof fn law_plan_outcome(ops: Seq<VfsOpView>, outs: Seq<Result<(), Seq<char>>>)
    requires
        outs.len() == ops.len(),
    ensures
        ops.len() == 0 ==> plan_start_state(ops) == PlanState::Succeeded,
        ops.len() > 0 ==> plan_start_state(ops) == PlanState::Perform(0),
        (forall|k: int| 0 <= k < ops.len() ==> !stops_plan(ops, outs, k)) ==> run_plan_from(
            ops,
            outs,
            0,
        ) == PlanState::Succeeded,
        forall|k: int|
            0 <= k < ops.len() && stops_plan(ops, outs, k) && (forall|j: int|
                0 <= j < k ==> !stops_plan(ops, outs, j)) ==> run_plan_from(ops, outs, 0)
                == PlanState::Failed(failure_text(ops[k])->0 + outs[k]->Err_0),
{
    lemma_run_plan_from(ops, outs, 0);
}

/// The number of removal attempts made and the milliseconds paused, when
/// attempts are made from attempt `a` on by `removal_step_spec` and attempt `k`
/// reports `removed(k)`.
pub open spec fn removal_run(removed: spec_fn(nat) -> bool, a: nat) -> (nat, nat)
    decreases REMOVAL_ATTEMPTS - a,
{
    if a >= REMOVAL_ATTEMPTS {
        (0, 0)
    } else {
        match removal_step_spec(a, removed(a)) {
            RemovalStep::Removed => (1, 0),
            RemovalStep::Wait { millis, retry } => if retry {
                let rest = removal_run(removed, a + 1);
                (rest.0 + 1, rest.1 + millis as nat)
            } else {
                (1, millis as nat)
            },
        }
    }
}

proof fn lemma_removal_run(removed: spec_fn(nat) -> bool, a: nat)
    requires
        a <= REMOVAL_ATTEMPTS,
    ensures
        removal_run(removed, a).0 <= REMOVAL_ATTEMPTS - a,
        removal_run(removed, a).1 <= REMOVAL_BACKOFF_MILLIS * (REMOVAL_ATTEMPTS - a),
        (forall|k: nat| a <= k < REMOVAL_ATTEMPTS ==> !#[trigger] removed(k)) ==> removal_run(removed, a) == (
        (REMOVAL_ATTEMPTS - a) as nat, (REMOVAL_BACKOFF_MILLIS * (REMOVAL_ATTEMPTS - a)) as nat),
        forall|k: nat|
            a <= k < REMOVAL_ATTEMPTS && #[trigger] removed(k) && (forall|j: nat| a <= j < k ==> !#[trigger] removed(j))
                ==> removal_run(removed, a) == ((k - a + 1) as nat, (REMOVAL_BACKOFF_MILLIS * (k
                - a)) as nat),
    decreases REMOVAL_ATTEMPTS - a,
{
    if a < REMOVAL_ATTEMPTS {
        lemma_removal_run(removed, a + 1);
        if !removed(a) && a + 1 == REMOVAL_ATTEMPTS {
            assert(removal_run(removed, a) == (1nat, REMOVAL_BACKOFF_MILLIS as nat));
        }
        assert forall|k: nat|
            a <= k < REMOVAL_ATTEMPTS && #[trigger] removed(k) && (forall|j: nat| a <= j < k ==> !#[trigger] removed(j))
            implies removal_run(removed, a) == ((k - a + 1) as nat, (REMOVAL_BACKOFF_MILLIS * (k
            - a)) as nat) by {
            if k > a {
                assert(!removed(a));
                assert(forall|j: nat| a + 1 <= j < k ==> !#[trigger] removed(j));
            }
        }
    }
}

/// Removing a slice's directory makes at most `REMOVAL_ATTEMPTS` (20)
/// attempts and pauses `REMOVAL_BACKOFF_MILLIS` (10 ms) after each failed
/// one, so at most 200 ms in all; it stops after the first attempt that
/// succeeds, and makes all 20 attempts only when none does.
pub proof fn law_removal_bounded(removed: spec_fn(nat) -> bool)
    ensures
        removal_run(removed, 0).0 <= 20,
        removal_run(removed, 0).1 <= 200,
        (forall|k: nat| k < 20 ==> !#[trigger] removed(k)) ==> removal_run(removed, 0) == (20nat, 200nat),
        forall|k: nat|
            k < 20 && #[trigger] removed(k) && (forall|j: nat| j < k ==> !#[trigger] removed(j)) ==> removal_run(
                removed,
                0,
            ) == ((k + 1) as nat, (10 * k) as nat),
{
    lemma_removal_run(removed, 0);
}

/// Reading a time limit: trim it; strip `ms`, else `s`, else `m`; read the
/// rest as a number of milliseconds, seconds or minutes (a bare number counts
/// seconds); where the rest is no number, the error names the trimmed limit.
pub proof fn law_duration_outcome(s: Seq<char>)
    ensures
        ({
            let t = trim(s);
            let err = Err::<Duration, Seq<char>>("invalid duration: "@ + t);
            &&& has_suffix(t, seq!['m', 's']) ==> duration_outcome(s) == match parse_u64(
                t.take(t.len() - 2),
            ) {
                Some(v) => Ok(Duration::of_millis(v)),
                None => err,
            }
            &&& !has_suffix(t, seq!['m', 's']) && has_suffix(t, seq!['s']) ==> duration_outcome(s)
                == match parse_u64(t.drop_last()) {
                Some(v) => Ok(Duration::of_secs(v)),
                None => err,
            }
            &&& !has_suffix(t, seq!['m', 's']) && !has_suffix(t, seq!['s']) && has_suffix(
                t,
                seq!['m'],
            ) ==> duration_outcome(s) == match parse_u64(t.drop_last()) {
                Some(v) => Ok(Duration::of_secs((v * 60) as u64)),
                None => err,
            }
            &&& !has_suffix(t, seq!['m', 's']) && !has_suffix(t, seq!['s']) && !has_suffix(
                t,
                seq!['m'],
            ) ==> duration_outcome(s) == match parse_u64(t) {
                Some(v) => Ok(Duration::of_secs(v)),
                None => err,
            }
        }),
{
}

/// Reading a memory limit that `byte_unit` rejects: trim and uppercase it;
/// strip `GB`, else `MB`, else `KB`, else `B`; read the trimmed rest as a
/// number of gibibytes, mebibytes, kibibytes or bytes (no unit counts bytes);
/// where the rest is no number, the error names the uppercased limit.
pub proof fn law_memory_fallback_outcome(s: Seq<char>)
    requires
        byte_unit_parse(s) is None,
    ensures
        ({
            let u = memory_fallback_text(s);
            let num = memory_parts(u).0;
            let mult = memory_parts(u).1;
            &&& has_suffix(u, seq!['G', 'B']) ==> num == u.take(u.len() - 2) && mult == 1073741824
            &&& !has_suffix(u, seq!['G', 'B']) && has_suffix(u, seq!['M', 'B']) ==> num == u.take(
                u.len() - 2,
            ) && mult == 1048576
            &&& !has_suffix(u, seq!['G', 'B']) && !has_suffix(u, seq!['M', 'B']) && has_suffix(
                u,
                seq!['K', 'B'],
            ) ==> num == u.take(u.len() - 2) && mult == 1024
            &&& !has_suffix(u, seq!['G', 'B']) && !has_suffix(u, seq!['M', 'B']) && !has_suffix(
                u,
                seq!['K', 'B'],
            ) && has_suffix(u, seq!['B']) ==> num == u.drop_last() && mult == 1
            &&& !has_suffix(u, seq!['G', 'B']) && !has_suffix(u, seq!['M', 'B']) && !has_suffix(
                u,
                seq!['K', 'B'],
            ) && !has_suffix(u, seq!['B']) ==> num == u && mult == 1
            &&& parse_u64(trim(num)) is None ==> memory_outcome(s) == Err::<u64, Seq<char>>(
                "invalid memory limit: "@ + u,
            )
            &&& parse_u64(trim(num)) matches Some(n) ==> memory_outcome(s) == Ok::<u64, Seq<char>>(
                (n * mult) as u64,
            )
        }),
{
}

/// Making `root` the root: it first gets a directory for the old root, then
/// is bind-mounted onto itself recursively (`MS_BIND | MS_REC`, so the mounts
/// already inside it come along), then `pivot_root` makes it the root with
/// the old root moved to that directory, the working directory becomes `/`,
/// and the old root, now at `/.old_root`, is detached.
pub proof fn law_pivot_into_root(root: Seq<char>)
    ensures
        pivot_view(root).len() == 5,
        pivot_view(root)[0] matches VfsOpView::CreateDirAll { path, .. } && path == join_path(
            root,
            ".old_root"@,
        ),
        pivot_view(root)[1] matches VfsOpView::Mount { source: Some(s), target, flags, .. } && s
            == root && target == root && flags == (MountFlags {
            bind: true,
            recursive: true,
            remount: false,
            read_only: false,
        }),
        pivot_view(root)[2] matches VfsOpView::PivotRoot { new_root, put_old, .. } && new_root
            == root && put_old == join_path(root, ".old_root"@),
        pivot_view(root)[3] matches VfsOpView::ChangeDir { path, .. } && path == "/"@,
        pivot_view(root)[4] matches VfsOpView::Detach { target, .. } && target == "/"@
            + ".old_root"@,
{
    reveal_strlit("/");
    reveal_strlit(".old_root");
    reveal_strlit("/.old_root");
    assert("/.old_root"@ =~= "/"@ + ".old_root"@);
}

/// The host directories a minimal root shows: `bin`, `lib`, `usr`, `dev`,
/// and `lib64` where the host has one.
pub open spec fn host_dir(d: Seq<char>, lib64_exists: bool) -> bool {
    ||| d == "bin"@
    ||| d == "lib"@
    ||| d == "usr"@
    ||| d == "dev"@
    ||| lib64_exists && d == "lib64"@
}

/// Whether `op`, where it mounts a source, shows a host directory `/d` at
/// the directory `d` of `root`, recursively and writable until remounted.
pub open spec fn shows_host_dir(op: VfsOpView, root: Seq<char>, lib64_exists: bool) -> bool {
    match op {
        VfsOpView::Mount { source: Some(src), target, flags, .. } => {
            &&& src.len() > 0
            &&& src[0] == '/'
            &&& host_dir(src.skip(1), lib64_exists)
            &&& target == join_path(root, src.skip(1))
            &&& flags == MountFlags { bind: true, recursive: true, remount: false, read_only: false }
        },
        _ => true,
    }
}

/// Whether `op` mounts the host's `/d` at the directory `d` of `root`.
pub open spec fn mounts_host_dir(op: VfsOpView, root: Seq<char>, d: Seq<char>) -> bool {
    op matches VfsOpView::Mount { source: Some(src), target, .. } && src == "/"@ + d && target
        == join_path(root, d)
}

proof fn lemma_host_bind(root: Seq<char>, d: Seq<char>, lib64_exists: bool)
    requires
        host_dir(d, lib64_exists),
    ensures
        forall|i: int|
            0 <= i < bind_ro_view("/"@ + d, join_path(root, d)).len() ==> shows_host_dir(
                #[trigger] bind_ro_view("/"@ + d, join_path(root, d))[i],
                root,
                lib64_exists,
            ),
        mounts_host_dir(bind_ro_view("/"@ + d, join_path(root, d))[0], root, d),
{
    reveal_strlit("/");
    let src = "/"@ + d;
    assert(src.skip(1) =~= d);
}

proof fn lemma_shows_concat(a: Seq<VfsOpView>, b: Seq<VfsOpView>, root: Seq<char>, l: bool)
    requires
        forall|i: int| 0 <= i < a.len() ==> shows_host_dir(#[trigger] a[i], root, l),
        forall|i: int| 0 <= i < b.len() ==> shows_host_dir(#[trigger] b[i], root, l),
    ensures
        forall|i: int| 0 <= i < (a + b).len() ==> shows_host_dir(#[trigger] (a + b)[i], root, l),
{
    assert forall|i: int| 0 <= i < (a + b).len() implies shows_host_dir(#[trigger] (a + b)[i], root, l) by {
        if i < a.len() {
            assert((a + b)[i] == a[i]);
        } else {
            assert((a + b)[i] == b[i - a.len()]);
        }
    }
}

/// Every mount of a host directory in a minimal root shows the host
/// directory of the same name at that name under `root`, recursively; each of
/// `bin`, `lib`, `usr` and `dev` is shown, and `lib64` exactly where the host
/// has one.
pub proof fn law_minimal_root_shows_host_dirs(root: Seq<char>, lib64_exists: bool)
    ensures
        forall|i: int|
            0 <= i < minimal_root_view(root, lib64_exists).len() ==> shows_host_dir(
                #[trigger] minimal_root_view(root, lib64_exists)[i],
                root,
                lib64_exists,
            ),
        forall|d: Seq<char>|
            host_dir(d, lib64_exists) ==> exists|i: int|
                0 <= i < minimal_root_view(root, lib64_exists).len() && #[trigger] mounts_host_dir(
                    minimal_root_view(root, lib64_exists)[i],
                    root,
                    d,
                ),
{
    reveal_strlit("bin");
    reveal_strlit("lib");
    reveal_strlit("lib64");
    reveal_strlit("usr");
    reveal_strlit("dev");
    reveal_strlit("/bin");
    reveal_strlit("/lib");
    reveal_strlit("/lib64");
    reveal_strlit("/usr");
    reveal_strlit("/dev");
    reveal_strlit("/");
    let l = lib64_exists;
    assert("/bin"@ =~= "/"@ + "bin"@);
    assert("/lib"@ =~= "/"@ + "lib"@);
    assert("/lib64"@ =~= "/"@ + "lib64"@);
    assert("/usr"@ =~= "/"@ + "usr"@);
    assert("/dev"@ =~= "/"@ + "dev"@);
    let dirs = Seq::new(11, |i: int| mkdir_view(join_path(root, root_dirs()[i])));
    let tmp = seq![VfsOpView::SetMode { path: join_path(root, "tmp"@), mode: 0o777 }];
    let head = dirs + tmp;
    assert forall|i: int| 0 <= i < head.len() implies shows_host_dir(#[trigger] head[i], root, l) by {
        if i < 11 {
            assert(head[i] == dirs[i]);
        } else {
            assert(head[i] == tmp[0]);
        }
    }
    let bin = bind_ro_view("/bin"@, join_path(root, "bin"@));
    let lib = bind_ro_view("/lib"@, join_path(root, "lib"@));
    let l64 = if l {
        bind_ro_view("/lib64"@, join_path(root, "lib64"@))
    } else {
        Seq::empty()
    };
    let usr = bind_ro_view("/usr"@, join_path(root, "usr"@));
    let dev = bind_ro_view("/dev"@, join_path(root, "dev"@));
    lemma_host_bind(root, "bin"@, l);
    lemma_host_bind(root, "lib"@, l);
    lemma_host_bind(root, "usr"@, l);
    lemma_host_bind(root, "dev"@, l);
    if l {
        lemma_host_bind(root, "lib64"@, l);
    }
    lemma_shows_concat(head, bin, root, l);
    lemma_shows_concat(head + bin, lib, root, l);
    lemma_shows_concat(head + bin + lib, l64, root, l);
    lemma_shows_concat(head + bin + lib + l64, usr, root, l);
    lemma_shows_concat(head + bin + lib + l64 + usr, dev, root, l);
    let v = minimal_root_view(root, l);
    assert(v =~= head + bin + lib + l64 + usr + dev);
    let k: int = l64.len() as int;
    assert(v[12] == bin[0]);
    assert(v[14] == lib[0]);
    assert(l ==> v[16] == l64[0]);
    assert(v[16 + k] == usr[0]);
    assert(v[18 + k] == dev[0]);
    assert forall|d: Seq<char>| host_dir(d, l) implies exists|i: int|
        0 <= i < v.len() && #[trigger] mounts_host_dir(v[i], root, d) by {
        if d == "bin"@ {
            assert(mounts_host_dir(v[12], root, d));
        } else if d == "lib"@ {
            assert(mounts_host_dir(v[14], root, d));
        } else if d == "usr"@ {
            assert(mounts_host_dir(v[16 + k], root, d));
        } else if d == "dev"@ {
            assert(mounts_host_dir(v[18 + k], root, d));
        } else {
            assert(mounts_host_dir(v[16], root, d));
        }
    }
}

/// Whether `op` mounts over a directory that one of the first `before`
/// operations of `p` created.
pub open spec fn target_created_before(p: Seq<VfsOpView>, op: VfsOpView, before: int) -> bool {
    op is Mount ==> exists|j: int|
        0 <= j < before && #[trigger] p[j] is CreateDirAll && p[j]->CreateDirAll_path
            == op->Mount_target
}

/// In a minimal root, every mount lands on a directory the plan created
/// earlier, and every mount of a host directory is followed at once by a
/// read-only remount of the same place.
pub proof fn law_minimal_root_mounts_prepared(root: Seq<char>, lib64_exists: bool)
    ensures
        forall|i: int|
            0 <= i < minimal_root_view(root, lib64_exists).len() ==> target_created_before(
                minimal_root_view(root, lib64_exists),
                #[trigger] minimal_root_view(root, lib64_exists)[i],
                i,
            ),
        forall|i: int|
            0 <= i < minimal_root_view(root, lib64_exists).len() && (
            #[trigger] minimal_root_view(root, lib64_exists)[i] matches VfsOpView::Mount {
                source: Some(_),
                ..
            }) ==> i + 1 < minimal_root_view(root, lib64_exists).len() && (minimal_root_view(
                root,
                lib64_exists,
            )[i + 1] matches VfsOpView::Mount { source: None, target, flags, .. } && target
                == minimal_root_view(root, lib64_exists)[i]->Mount_target && flags == (MountFlags {
                bind: true,
                recursive: true,
                remount: true,
                read_only: true,
            })),
{
    law_minimal_root_confined(root, lib64_exists);
    let l = lib64_exists;
    let v = minimal_root_view(root, l);
    let dirs = Seq::new(11, |i: int| mkdir_view(join_path(root, root_dirs()[i])));
    let tmp = seq![VfsOpView::SetMode { path: join_path(root, "tmp"@), mode: 0o777 }];
    let bin = bind_ro_view("/bin"@, join_path(root, "bin"@));
    let lib = bind_ro_view("/lib"@, join_path(root, "lib"@));
    let l64 = if l {
        bind_ro_view("/lib64"@, join_path(root, "lib64"@))
    } else {
        Seq::empty()
    };
    let usr = bind_ro_view("/usr"@, join_path(root, "usr"@));
    let dev = bind_ro_view("/dev"@, join_path(root, "dev"@));
    assert(v =~= dirs + tmp + bin + lib + l64 + usr + dev);
    let k: int = l64.len() as int;
    assert(v.len() == 20 + k);
    assert forall|j: int| 0 <= j < 11 implies v[j] == #[trigger] dirs[j] by {}
    assert forall|i: int| 0 <= i < v.len() implies target_created_before(v, #[trigger] v[i], i) by {
        if i >= 12 {
            let d = if i < 14 {
                0int
            } else if i < 16 {
                3int
            } else if l && i < 18 {
                6int
            } else if i < 18 + k {
                8int
            } else {
                1int
            };
            assert(v[d] == dirs[d]);
            assert(v[d] is CreateDirAll && v[d]->CreateDirAll_path == v[i]->Mount_target);
        }
    }
}

/// Reaching a time limit is measured in nanoseconds: for spans whose
/// nanoseconds are below a second, one span is at least another exactly when
/// it is at least as many nanoseconds long.
pub proof fn law_at_least_in_nanos(a: Duration, b: Duration)
    requires
        a.nanos < 1_000_000_000,
        b.nanos < 1_000_000_000,
    ensures
        a.at_least(b) <==> a.total_nanos() >= b.total_nanos(),
{
    let (x, y, m, n) = (a.secs as int, b.secs as int, a.nanos as int, b.nanos as int);
    assert(x > y ==> x * 1_000_000_000 + m > y * 1_000_000_000 + n) by (nonlinear_arith)
        requires
            0 <= n < 1_000_000_000,
            0 <= m,
    ;
    assert(x < y ==> x * 1_000_000_000 + m < y * 1_000_000_000 + n) by (nonlinear_arith)
        requires
            0 <= m < 1_000_000_000,
            0 <= n,
    ;
}

/// A failed step of the child never exits with status 0: a failed `exec`
/// exits with 127, any other failed step with 1.
pub proof fn law_child_failure_status(s: ChildStep)
    ensures
        child_exit_code(s) != 0,
        s == ChildStep::Exec ==> child_exit_code(s) == 127,
        s != ChildStep::Exec ==> child_exit_code(s) == 1,
{
}

/// The processes of a slice are listed line by line: no lines list none; a
/// further line that is a 32-bit number `p` adds `p` at the end, and any
/// other line adds nothing.
pub proof fn law_listed_pids_by_line(ls: Seq<Seq<char>>, line: Seq<char>)
    ensures
        listed_pids(Seq::empty()) == Seq::<i32>::empty(),
        parse_i32(line) matches Some(p) ==> listed_pids(ls.push(line)) == listed_pids(ls).push(p),
        parse_i32(line) is None ==> listed_pids(ls.push(line)) == listed_pids(ls),
    decreases ls.len(),
{
    if ls.len() > 0 {
        law_listed_pids_by_line(ls.drop_first(), line);
        assert(ls.push(line).drop_first() =~= ls.drop_first().push(line));
        assert(ls.push(line)[0] == ls[0]);
        match parse_i32(ls[0]) {
            Some(q) => {
                assert(seq![q] + listed_pids(ls.drop_first()).push(line_pid(line)) =~= (seq![q]
                    + listed_pids(ls.drop_first())).push(line_pid(line)));
            },
            None => {},
        }
    } else {
        assert(ls.push(line).drop_first() =~= Seq::<Seq<char>>::empty());
        if let Some(p) = parse_i32(line) {
            assert(seq![p] + Seq::<i32>::empty() =~= Seq::<i32>::empty().push(p));
        }
    }
}

spec fn line_pid(line: Seq<char>) -> i32 {
    match parse_i32(line) {
        Some(p) => p,
        None => 0,
    }
}

} // verus!
