//! A cgroup v2 slice: where its control files are, what writing a limit
//! writes to them, and how their contents are read.
use vstd::prelude::*;

use crate::error::SafeExecError;
use crate::text::{
    chars_eq, chars_of, concat2, concat3, copy_range, decimal, decimal_string, has_prefix,
    has_prefix_chars, join, join_path, lines, next_word, parse_i32, parse_i32_chars, parse_u64,
    parse_u64_chars, push_chars, push_signed_decimal, signed_decimal, split_lines, trim,
    trim_chars, views, words,
};
use vstd::string::StringExecFns;

verus! {

/// The directory under which the runtime creates its slices.
pub open spec fn slice_prefix() -> Seq<char> {
    "/sys/fs/cgroup/safeexec_"@
}

/// The number of times the removal of a slice is tried.
pub const REMOVAL_ATTEMPTS: u32 = 20;

/// The pause, in milliseconds, after a failed removal.
pub const REMOVAL_BACKOFF_MILLIS: u64 = 10;

/// A cgroup v2 slice at `/sys/fs/cgroup/safeexec_<session>`.
pub struct CgroupV2Manager {
    cgroup_path: String,
}

/// One write of a value to a control file.
#[derive(Debug, Clone, PartialEq, Eq)]
pub struct ControlWrite {
    pub path: String,
    pub value: String,
}

/// What to do after one attempt to remove a slice's directory.
#[derive(Debug, Clone, Copy, PartialEq, Eq, Structural)]
pub enum RemovalStep {
    /// The directory is gone.
    Removed,
    /// Pause for `millis`, then try again when `retry` holds, else give up.
    Wait { millis: u64, retry: bool },
}

/// What follows removal attempt `attempt` (counting from 0), given whether it
/// removed the directory.
pub open spec fn removal_step_spec(attempt: nat, removed: bool) -> RemovalStep {
    if removed {
        RemovalStep::Removed
    } else {
        RemovalStep::Wait {
            millis: REMOVAL_BACKOFF_MILLIS,
            retry: attempt + 1 < REMOVAL_ATTEMPTS,
        }
    }
}

impl View for CgroupV2Manager {
    type V = Seq<char>;

    /// The slice's directory.
    closed spec fn view(&self) -> Seq<char> {
        self.cgroup_path@
    }
}

impl ControlWrite {
    /// The error for a failed write, given the cause.
    pub fn failure(&self, cause: &str) -> (e: SafeExecError)
        ensures
            e.is_cgroup(
                "failed to write '"@ + self.value@ + "' to "@ + self.path@ + ": "@ + cause@,
            ),
    {
        let mut m = concat3("failed to write '", self.value.as_str(), "' to ");
        m.append(self.path.as_str());
        m.append(": ");
        m.append(cause);
        SafeExecError::Cgroup(m)
    }
}

/// The value after `prefix` in the first of `ls` that starts with it.
pub open spec fn first_prefixed(ls: Seq<Seq<char>>, prefix: Seq<char>) -> Option<Seq<char>>
    decreases ls.len(),
{
    if ls.len() == 0 {
        None
    } else if has_prefix(ls[0], prefix) {
        Some(ls[0].skip(prefix.len() as int))
    } else {
        first_prefixed(ls.drop_first(), prefix)
    }
}

/// The first of `ls` whose first word is `event` and that has a second word.
pub open spec fn event_line(ls: Seq<Seq<char>>, event: Seq<char>) -> Option<Seq<char>>
    decreases ls.len(),
{
    if ls.len() == 0 {
        None
    } else if words(ls[0]).len() >= 2 && words(ls[0])[0] == event {
        Some(ls[0])
    } else {
        event_line(ls.drop_first(), event)
    }
}

/// The numbers that the lines `ls` hold, in order, skipping the lines that
/// are not a 32-bit number.
pub open spec fn listed_pids(ls: Seq<Seq<char>>) -> Seq<i32>
    decreases ls.len(),
{
    if ls.len() == 0 {
        seq![]
    } else {
        match parse_i32(ls[0]) {
            Some(p) => seq![p] + listed_pids(ls.drop_first()),
            None => listed_pids(ls.drop_first()),
        }
    }
}

impl CgroupV2Manager {
    /// The slice for `session_id`.
    pub fn new(session_id: &str) -> (m: Self)
        ensures
            m@ == slice_prefix() + session_id@,
    {
        CgroupV2Manager { cgroup_path: concat2("/sys/fs/cgroup/safeexec_", session_id) }
    }

    /// The slice's directory.
    pub fn path(&self) -> (p: &str)
        ensures
            p@ == self@,
    {
        self.cgroup_path.as_str()
    }

    /// The error for a slice whose directory could not be created.
    pub fn creation_error(&self, cause: &str) -> (e: SafeExecError)
        ensures
            e.is_cgroup(
                "failed to create cgroup "@ + self@ + " (are you root?): "@ + cause@,
            ),
    {
        let mut m = concat3("failed to create cgroup ", self.cgroup_path.as_str(), " (are you root?): ");
        m.append(cause);
        SafeExecError::Cgroup(m)
    }

    /// The path of the control file `file`.
    pub fn control_path(&self, file: &str) -> (p: String)
        ensures
            p@ == join_path(self@, file@),
    {
        join(self.cgroup_path.as_str(), file)
    }

    /// The write of `value` to the control file `file`.
    pub fn write_control(&self, file: &str, value: &str) -> (w: ControlWrite)
        ensures
            w.path@ == join_path(self@, file@),
            w.value@ == value@,
    {
        ControlWrite { path: self.control_path(file), value: String::from_str(value) }
    }

    /// The hard memory limit, in bytes: written to `memory.max`.
    pub fn set_memory_max(&self, bytes: u64) -> (w: ControlWrite)
        ensures
            w.path@ == join_path(self@, "memory.max"@),
            w.value@ == decimal(bytes as nat),
    {
        let v = decimal_string(bytes);
        self.write_control("memory.max", v.as_str())
    }

    /// The CPU quota and period, written as given to `cpu.max`
    /// (`"50000 100000"` grants half a core).
    pub fn set_cpu_max(&self, value: &str) -> (w: ControlWrite)
        ensures
            w.path@ == join_path(self@, "cpu.max"@),
            w.value@ == value@,
    {
        self.write_control("cpu.max", value)
    }

    /// The largest number of tasks: written to `pids.max`.
    pub fn set_pids_max(&self, max: u64) -> (w: ControlWrite)
        ensures
            w.path@ == join_path(self@, "pids.max"@),
            w.value@ == decimal(max as nat),
    {
        let v = decimal_string(max);
        self.write_control("pids.max", v.as_str())
    }

    /// Moving the process `pid` into the slice: written to `cgroup.procs`.
    pub fn attach_pid(&self, pid: i32) -> (w: ControlWrite)
        ensures
            w.path@ == join_path(self@, "cgroup.procs"@),
            w.value@ == signed_decimal(pid as int),
    {
        let mut v = String::new();
        push_signed_decimal(&mut v, pid as i64);
        assert(v@ =~= signed_decimal(pid as int));
        self.write_control("cgroup.procs", v.as_str())
    }

    /// The write that kills every process of the slice: `1` to `cgroup.kill`.
    pub fn kill_write(&self) -> (w: ControlWrite)
        ensures
            w.path@ == join_path(self@, "cgroup.kill"@),
            w.value@ == "1"@,
    {
        self.write_control("cgroup.kill", "1")
    }

    /// Reads the number that the control file `file` holds, given what reading
    /// it gave: its text, or the cause of the failure.
    pub fn read_control_u64(&self, file: &str, content: Result<String, String>) -> (r: Result<
        u64,
        SafeExecError,
    >)
        ensures
            content matches Err(cause) ==> (r matches Err(e) && e.is_cgroup(
                "failed to read "@ + join_path(self@, file@) + ": "@ + cause@,
            )),
            content matches Ok(text) ==> (parse_u64(trim(text@)) matches Some(v) ==> r == Ok::<
                u64,
                SafeExecError,
            >(v)),
            content matches Ok(text) ==> (parse_u64(trim(text@)) is None ==> (r matches Err(e)
                && e.is_cgroup("invalid number in "@ + join_path(self@, file@)))),
    {
        let path = self.control_path(file);
        match content {
            Err(cause) => {
                let mut m = concat3("failed to read ", path.as_str(), ": ");
                m.append(cause.as_str());
                Err(SafeExecError::Cgroup(m))
            },
            Ok(text) => {
                let t = trim_chars(&chars_of(text.as_str()));
                match parse_u64_chars(&t) {
                    Some(v) => Ok(v),
                    None => Err(SafeExecError::Cgroup(concat2("invalid number in ", path.as_str()))),
                }
            },
        }
    }

    /// The memory in use, in bytes, from what reading `memory.current` gave.
    pub fn memory_current(&self, content: Result<String, String>) -> (r: Result<u64, SafeExecError>)
        ensures
            content matches Err(cause) ==> (r matches Err(e) && e.is_cgroup(
                "failed to read "@ + join_path(self@, "memory.current"@) + ": "@ + cause@,
            )),
            content matches Ok(text) ==> (parse_u64(trim(text@)) matches Some(v) ==> r == Ok::<
                u64,
                SafeExecError,
            >(v)),
            content matches Ok(text) ==> (parse_u64(trim(text@)) is None ==> (r matches Err(e)
                && e.is_cgroup("invalid number in "@ + join_path(self@, "memory.current"@)))),
    {
        self.read_control_u64("memory.current", content)
    }

    /// The number of tasks in the slice, from what reading `pids.current` gave.
    pub fn pids_current(&self, content: Result<String, String>) -> (r: Result<u64, SafeExecError>)
        ensures
            content matches Err(cause) ==> (r matches Err(e) && e.is_cgroup(
                "failed to read "@ + join_path(self@, "pids.current"@) + ": "@ + cause@,
            )),
            content matches Ok(text) ==> (parse_u64(trim(text@)) matches Some(v) ==> r == Ok::<
                u64,
                SafeExecError,
            >(v)),
            content matches Ok(text) ==> (parse_u64(trim(text@)) is None ==> (r matches Err(e)
                && e.is_cgroup("invalid number in "@ + join_path(self@, "pids.current"@)))),
    {
        self.read_control_u64("pids.current", content)
    }

    /// The CPU time used, in microseconds, from what reading `cpu.stat` gave:
    /// the number after `usage_usec ` on the first line that starts so, or 0
    /// where no line does.
    pub fn cpu_stat_usage_usec(&self, content: Result<String, String>) -> (r: Result<
        u64,
        SafeExecError,
    >)
        ensures
            content matches Err(cause) ==> (r matches Err(e) && e.is_cgroup(
                "failed to read cpu.stat: "@ + cause@,
            )),
            content matches Ok(text) ==> (first_prefixed(lines(text@), "usage_usec "@) is None
                ==> r == Ok::<u64, SafeExecError>(0)),
            content matches Ok(text) ==> (first_prefixed(lines(text@), "usage_usec "@) matches Some(
                rest,
            ) ==> (parse_u64(rest) matches Some(v) ==> r == Ok::<u64, SafeExecError>(v))),
            content matches Ok(text) ==> (first_prefixed(lines(text@), "usage_usec "@) matches Some(
                rest,
            ) ==> (parse_u64(rest) is None ==> (r matches Err(e) && e.is_cgroup(
                "invalid usage_usec"@,
            )))),
    {
        let text = match content {
            Err(cause) => {
                return Err(SafeExecError::Cgroup(concat2("failed to read cpu.stat: ", cause.as_str())));
            },
            Ok(text) => text,
        };
        let chars = chars_of(text.as_str());
        let ls = split_lines(&chars);
        let prefix = chars_of("usage_usec ");
        let ghost all = views(ls@);
        let mut i: usize = 0;
        assert(all.skip(0) =~= all);
        while i < ls.len()
            invariant
                i <= ls.len(),
                all == views(ls@),
                all == lines(chars@),
                content matches Ok(t) && t@ == chars@,
                prefix@ == "usage_usec "@,
                first_prefixed(all, prefix@) == first_prefixed(all.skip(i as int), prefix@),
            decreases ls.len() - i,
        {
            let line = &ls[i];
            assert(all.skip(i as int)[0] == line@);
            if has_prefix_chars(line, &prefix) {
                let rest = copy_range(line, prefix.len(), line.len());
                assert(rest@ =~= line@.skip(prefix@.len() as int));
                return match parse_u64_chars(&rest) {
                    Some(v) => Ok(v),
                    None => Err(SafeExecError::Cgroup(String::from_str("invalid usage_usec"))),
                };
            }
            assert(all.skip(i as int).drop_first() =~= all.skip(i + 1));
            i = i + 1;
        }
        Ok(0)
    }

    /// The counter `event` (such as `oom_kill`) from what reading
    /// `memory.events` gave: the second word of the first line whose first word
    /// is `event` and that has a second word, or 0 where no line does.
    pub fn read_memory_event(&self, event: &str, content: Result<String, String>) -> (r: Result<
        u64,
        SafeExecError,
    >)
        ensures
            content matches Err(cause) ==> (r matches Err(e) && e.is_cgroup(
                "failed to read memory.events: "@ + cause@,
            )),
            content matches Ok(text) ==> (event_line(lines(text@), event@) is None ==> r == Ok::<
                u64,
                SafeExecError,
            >(0)),
            content matches Ok(text) ==> (event_line(lines(text@), event@) matches Some(line) ==> (
            parse_u64(words(line)[1]) matches Some(v) ==> r == Ok::<u64, SafeExecError>(v))),
            content matches Ok(text) ==> (event_line(lines(text@), event@) matches Some(line) ==> (
            parse_u64(words(line)[1]) is None ==> (r matches Err(e) && e.is_cgroup(
                "invalid memory.events line: "@ + line,
            )))),
    {
        let text = match content {
            Err(cause) => {
                return Err(
                    SafeExecError::Cgroup(concat2("failed to read memory.events: ", cause.as_str())),
                );
            },
            Ok(text) => text,
        };
        let chars = chars_of(text.as_str());
        let ls = split_lines(&chars);
        let key = chars_of(event);
        let ghost all = views(ls@);
        let mut i: usize = 0;
        assert(all.skip(0) =~= all);
        while i < ls.len()
            invariant
                i <= ls.len(),
                all == views(ls@),
                all == lines(chars@),
                content matches Ok(t) && t@ == chars@,
                key@ == event@,
                event_line(all, key@) == event_line(all.skip(i as int), key@),
            decreases ls.len() - i,
        {
            let line = &ls[i];
            assert(all.skip(i as int)[0] == line@);
            assert(line@.skip(0) =~= line@);
            if let Some((a, b)) = next_word(line, 0) {
                let first = copy_range(line, a, b);
                if chars_eq(&first, &key) {
                    if let Some((c, d)) = next_word(line, b) {
                        let second = copy_range(line, c, d);
                        assert(words(line@)[1] == second@);
                        return match parse_u64_chars(&second) {
                            Some(v) => Ok(v),
                            None => {
                                let mut m = String::from_str("invalid memory.events line: ");
                                push_chars(&mut m, line);
                                Err(SafeExecError::Cgroup(m))
                            },
                        };
                    }
                }
            }
            assert(all.skip(i as int).drop_first() =~= all.skip(i + 1));
            i = i + 1;
        }
        Ok(0)
    }

    /// The processes listed in what reading `cgroup.procs` gave: each line
    /// that is a 32-bit number, in order.
    pub fn stale_pids(content: &str) -> (pids: Vec<i32>)
        ensures
            pids@ == listed_pids(lines(content@)),
    {
        let chars = chars_of(content);
        let ls = split_lines(&chars);
        let ghost all = views(ls@);
        let mut out: Vec<i32> = Vec::new();
        let mut i: usize = 0;
        assert(all.skip(0) =~= all);
        assert(out@ + listed_pids(all) =~= listed_pids(all));
        while i < ls.len()
            invariant
                i <= ls.len(),
                all == views(ls@),
                all == lines(chars@),
                listed_pids(all) == out@ + listed_pids(all.skip(i as int)),
            decreases ls.len() - i,
        {
            assert(all.skip(i as int)[0] == ls[i as int]@);
            assert(all.skip(i as int).drop_first() =~= all.skip(i + 1));
            match parse_i32_chars(&ls[i]) {
                Some(p) => {
                    out.push(p);
                    assert(out@.drop_last() + (seq![p] + listed_pids(all.skip(i + 1))) =~= out@
                        + listed_pids(all.skip(i + 1)));
                },
                None => {},
            }
            i = i + 1;
        }
        assert(all.skip(i as int) =~= Seq::<Seq<char>>::empty());
        assert(out@ + Seq::<i32>::empty() =~= out@);
        out
    }

    /// What follows removal attempt number `attempt` (counting from 0), given
    /// whether it removed the directory: nothing more once removed; otherwise a
    /// pause, then another attempt while fewer than `REMOVAL_ATTEMPTS` were made.
    pub fn removal_step(attempt: u32, removed: bool) -> (s: RemovalStep)
        requires
            attempt < REMOVAL_ATTEMPTS,
        ensures
            s == removal_step_spec(attempt as nat, removed),
            removed ==> s == RemovalStep::Removed,
            !removed ==> s == (RemovalStep::Wait {
                millis: REMOVAL_BACKOFF_MILLIS,
                retry: attempt + 1 < REMOVAL_ATTEMPTS,
            }),
    {
        if removed {
            RemovalStep::Removed
        } else {
            RemovalStep::Wait { millis: REMOVAL_BACKOFF_MILLIS, retry: attempt + 1 < REMOVAL_ATTEMPTS }
        }
    }
}

} // verus!
