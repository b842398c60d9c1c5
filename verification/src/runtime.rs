//! The runtime orchestrator: reading the limits it is given and laying out
//! what must happen before a task is launched.
use vstd::prelude::*;

use crate::cgroup::{ControlWrite, CgroupV2Manager};
use crate::cli::Args;
use crate::error::SafeExecError;
use crate::mount::opt_view;
use crate::text::{
    decimal, is_digit, join_path,
    chars_of, concat2, copy_range, has_suffix, has_suffix_chars, parse_u64, parse_u64_chars,
    string_of, to_uppercase, trim, trim_chars, unicode_uppercase,
};
use crate::task::{opt_str_view, TaskLauncher};
use crate::time::Duration;
use crate::units::{byte_unit_parse, parse_byte_quantity};

verus! {

// ---------------------------------------------------------------------------
// Time limits
// ---------------------------------------------------------------------------
/// The unit that ends a time limit.
pub enum TimeUnit {
    Millis,
    Secs,
    Mins,
}

/// A trimmed time limit split into its number and its unit: `ms`, then `s`,
/// then `m` are tried as suffixes; a bare number counts seconds.
pub open spec fn duration_parts(t: Seq<char>) -> (Seq<char>, TimeUnit) {
    if has_suffix(t, seq!['m', 's']) {
        (t.take(t.len() - 2), TimeUnit::Millis)
    } else if has_suffix(t, seq!['s']) {
        (t.drop_last(), TimeUnit::Secs)
    } else if has_suffix(t, seq!['m']) {
        (t.drop_last(), TimeUnit::Mins)
    } else {
        (t, TimeUnit::Secs)
    }
}

/// Whether the time limit `s` is one whose minutes, in seconds, fit in 64 bits
/// (for any other the count of seconds overflows).
pub open spec fn duration_fits(s: Seq<char>) -> bool {
    let (num, unit) = duration_parts(trim(s));
    (unit is Mins && parse_u64(num) is Some) ==> parse_u64(num)->0 * 60 <= u64::MAX
}

/// The span that the time limit `s` denotes, or `None` where it is not a number.
pub open spec fn duration_value(s: Seq<char>) -> Option<Duration> {
    let (num, unit) = duration_parts(trim(s));
    match parse_u64(num) {
        Some(v) => Some(
            match unit {
                TimeUnit::Millis => Duration::of_millis(v),
                TimeUnit::Secs => Duration::of_secs(v),
                TimeUnit::Mins => Duration::of_secs((v * 60) as u64),
            },
        ),
        None => None,
    }
}

/// Whether the result `r` is the outcome `o`: the same value, or an
/// invalid-argument error with the message that `o` holds.
pub open spec fn agrees<T>(r: Result<T, SafeExecError>, o: Result<T, Seq<char>>) -> bool {
    match (r, o) {
        (Ok(a), Ok(b)) => a == b,
        (Err(e), Err(m)) => e.is_invalid_argument(m),
        _ => false,
    }
}

/// What reading the time limit `s` gives: its span, or the message of the error.
pub open spec fn duration_outcome(s: Seq<char>) -> Result<Duration, Seq<char>> {
    match duration_value(s) {
        Some(d) => Ok(d),
        None => Err("invalid duration: "@ + trim(s)),
    }
}

/// Whether `s` denotes a time limit whose seconds fit in 64 bits.
pub fn duration_in_range(s: &str) -> (b: bool)
    ensures
        b == duration_fits(s@),
{
    let chars = chars_of(s);
    let t = trim_chars(&chars);
    let ms: Vec<char> = vec!['m', 's'];
    let sec: Vec<char> = vec!['s'];
    let min: Vec<char> = vec!['m'];
    assert(ms@ =~= seq!['m', 's']);
    assert(sec@ =~= seq!['s']);
    assert(min@ =~= seq!['m']);
    if has_suffix_chars(&t, &ms) || has_suffix_chars(&t, &sec) || !has_suffix_chars(&t, &min) {
        return true;
    }
    let num = copy_range(&t, 0, t.len() - 1);
    assert(num@ =~= t@.drop_last());
    match parse_u64_chars(&num) {
        Some(v) => v.checked_mul(60).is_some(),
        None => true,
    }
}

/// Reads a time limit: `500ms`, `30s`, `2m` or a bare number of seconds,
/// with whitespace around it ignored.
pub fn parse_duration(s: &str) -> (r: Result<Duration, SafeExecError>)
    requires
        duration_fits(s@),
    ensures
        agrees(r, duration_outcome(s@)),
{
    let chars = chars_of(s);
    let t = trim_chars(&chars);
    let ms: Vec<char> = vec!['m', 's'];
    let sec: Vec<char> = vec!['s'];
    let min: Vec<char> = vec!['m'];
    assert(ms@ =~= seq!['m', 's']);
    assert(sec@ =~= seq!['s']);
    assert(min@ =~= seq!['m']);
    let (num, unit) = if has_suffix_chars(&t, &ms) {
        (copy_range(&t, 0, t.len() - 2), TimeUnit::Millis)
    } else if has_suffix_chars(&t, &sec) {
        (copy_range(&t, 0, t.len() - 1), TimeUnit::Secs)
    } else if has_suffix_chars(&t, &min) {
        (copy_range(&t, 0, t.len() - 1), TimeUnit::Mins)
    } else {
        (copy_range(&t, 0, t.len()), TimeUnit::Secs)
    };
    assert(num@ =~= duration_parts(t@).0) by {
        if has_suffix(t@, seq!['m', 's']) {
            assert(num@ =~= t@.take(t@.len() - 2));
        } else if has_suffix(t@, seq!['s']) || has_suffix(t@, seq!['m']) {
            assert(num@ =~= t@.drop_last());
        } else {
            assert(num@ =~= t@);
        }
    }
    match parse_u64_chars(&num) {
        Some(v) => match unit {
            TimeUnit::Millis => Ok(Duration::from_millis(v)),
            TimeUnit::Secs => Ok(Duration::from_secs(v)),
            TimeUnit::Mins => Ok(Duration::from_secs(v * 60)),
        },
        None => {
            let text = string_of(&t);
            Err(SafeExecError::InvalidArgument(concat2("invalid duration: ", text.as_str())))
        },
    }
}

// ---------------------------------------------------------------------------
// Memory limits
// ---------------------------------------------------------------------------
/// An uppercased memory limit split into its number and the multiplier of
/// its unit: `GB`, `MB`, `KB` (binary multiples) or `B`; none means bytes.
pub open spec fn memory_parts(u: Seq<char>) -> (Seq<char>, u64) {
    if has_suffix(u, seq!['G', 'B']) {
        (u.take(u.len() - 2), 1073741824u64)
    } else if has_suffix(u, seq!['M', 'B']) {
        (u.take(u.len() - 2), 1048576u64)
    } else if has_suffix(u, seq!['K', 'B']) {
        (u.take(u.len() - 2), 1024u64)
    } else if has_suffix(u, seq!['B']) {
        (u.drop_last(), 1u64)
    } else {
        (u, 1u64)
    }
}

/// Whether the number of bytes that the uppercased limit `u` denotes fits in 64 bits.
pub open spec fn unit_limit_fits(u: Seq<char>) -> bool {
    let (num, mult) = memory_parts(u);
    parse_u64(trim(num)) is Some ==> parse_u64(trim(num))->0 * mult <= u64::MAX
}

/// The number of bytes that the uppercased limit `u` denotes, or `None`
/// where its number is not a number.
pub open spec fn unit_limit_value(u: Seq<char>) -> Option<u64> {
    let (num, mult) = memory_parts(u);
    match parse_u64(trim(num)) {
        Some(n) => Some((n * mult) as u64),
        None => None,
    }
}

/// The uppercased, trimmed text that a memory limit falls back to when
/// `byte_unit` rejects it.
pub open spec fn memory_fallback_text(s: Seq<char>) -> Seq<char> {
    unicode_uppercase(trim(s))
}

/// What reading the uppercased limit `u` gives: its bytes, or the message of the error.
pub open spec fn unit_limit_outcome(u: Seq<char>) -> Result<u64, Seq<char>> {
    match unit_limit_value(u) {
        Some(v) => Ok(v),
        None => Err("invalid memory limit: "@ + u),
    }
}

/// What reading the memory limit `s` gives: what `byte_unit` reads from it
/// where it accepts it, else what the fallback reads.
pub open spec fn memory_outcome(s: Seq<char>) -> Result<u64, Seq<char>> {
    match byte_unit_parse(s) {
        Some(b) => Ok(b),
        None => unit_limit_outcome(memory_fallback_text(s)),
    }
}

/// Whether reading the memory limit `s` stays within 64 bits.
pub open spec fn memory_fits(s: Seq<char>) -> bool {
    byte_unit_parse(s) is None ==> unit_limit_fits(memory_fallback_text(s))
}

fn split_memory_unit(u: &Vec<char>) -> (r: (Vec<char>, u64))
    ensures
        r.0@ == memory_parts(u@).0,
        r.1 == memory_parts(u@).1,
{
    let gb: Vec<char> = vec!['G', 'B'];
    let mb: Vec<char> = vec!['M', 'B'];
    let kb: Vec<char> = vec!['K', 'B'];
    let b: Vec<char> = vec!['B'];
    assert(gb@ =~= seq!['G', 'B']);
    assert(mb@ =~= seq!['M', 'B']);
    assert(kb@ =~= seq!['K', 'B']);
    assert(b@ =~= seq!['B']);
    if has_suffix_chars(u, &gb) || has_suffix_chars(u, &mb) || has_suffix_chars(u, &kb) {
        let r = copy_range(u, 0, u.len() - 2);
        assert(r@ =~= u@.take(u.len() - 2));
        let mult: u64 = if has_suffix_chars(u, &gb) {
            1024 * 1024 * 1024
        } else if has_suffix_chars(u, &mb) {
            1024 * 1024
        } else {
            1024
        };
        (r, mult)
    } else if has_suffix_chars(u, &b) {
        let r = copy_range(u, 0, u.len() - 1);
        assert(r@ =~= u@.drop_last());
        (r, 1)
    } else {
        let r = copy_range(u, 0, u.len());
        assert(r@ =~= u@);
        (r, 1)
    }
}

/// Whether the uppercased limit `u` denotes a number of bytes that fits in 64 bits.
pub fn unit_limit_in_range(u: &str) -> (b: bool)
    ensures
        b == unit_limit_fits(u@),
{
    let chars = chars_of(u);
    let (num, mult) = split_memory_unit(&chars);
    let t = trim_chars(&num);
    match parse_u64_chars(&t) {
        Some(n) => n.checked_mul(mult).is_some(),
        None => true,
    }
}

/// Reads an uppercased memory limit such as `64MB`: a number, then `GB`, `MB`,
/// `KB` (powers of 1024) or `B`, or no unit for bytes.
pub fn parse_unit_limit(u: &str) -> (r: Result<u64, SafeExecError>)
    requires
        unit_limit_fits(u@),
    ensures
        agrees(r, unit_limit_outcome(u@)),
{
    let chars = chars_of(u);
    let (num, mult) = split_memory_unit(&chars);
    let t = trim_chars(&num);
    match parse_u64_chars(&t) {
        Some(n) => Ok(n * mult),
        None => Err(SafeExecError::InvalidArgument(concat2("invalid memory limit: ", u))),
    }
}

/// Reads a memory limit: what `byte_unit` accepts (such as `64MB`, read as
/// decimal megabytes, or `1.5 GiB`), else a number with an optional binary
/// unit `GB`, `MB`, `KB` or `B` in any case.
pub fn parse_memory(s: &str) -> (r: Result<u64, SafeExecError>)
    requires
        memory_fits(s@),
    ensures
        agrees(r, memory_outcome(s@)),
{
    if let Some(b) = parse_byte_quantity(s) {
        return Ok(b);
    }
    let chars = chars_of(s);
    let t = string_of(&trim_chars(&chars));
    let u = to_uppercase(t.as_str());
    parse_unit_limit(u.as_str())
}

/// Reads a memory limit as `parse_memory` does, or returns `None` where the
/// number of bytes it denotes does not fit in 64 bits.
pub fn try_parse_memory(s: &str) -> (r: Option<Result<u64, SafeExecError>>)
    ensures
        r is None <==> !memory_fits(s@),
        r matches Some(res) ==> agrees(res, memory_outcome(s@)),
{
    if parse_byte_quantity(s).is_none() {
        let chars = chars_of(s);
        let t = string_of(&trim_chars(&chars));
        let u = to_uppercase(t.as_str());
        if !unit_limit_in_range(u.as_str()) {
            return None;
        }
    }
    Some(parse_memory(s))
}

// ---------------------------------------------------------------------------
// The orchestrator
// ---------------------------------------------------------------------------
/// Whether `c` is one of the 64 characters of a generated session identifier
/// (`_`, `-`, digits, lower- and uppercase ASCII letters).
pub open spec fn is_session_char(c: char) -> bool {
    ||| c == '_'
    ||| c == '-'
    ||| is_digit(c)
    ||| (97 <= (c as u32) && (c as u32) <= 122)
    ||| (65 <= (c as u32) && (c as u32) <= 90)
}

/// Calls `nanoid::format` with the crate's default random source and its
/// `SAFE` alphabet for ten characters, which is what `nanoid!(10)` expands
/// to. The identifier is random; every outcome has ten characters, each
/// from that alphabet.
#[verifier::external_body]
fn generate_session_id() -> (id: String)
    ensures
        id@.len() == 10,
        forall|i: int| 0 <= i < 10 ==> #[trigger] is_session_char(id@[i]),
{
    nanoid::format(nanoid::rngs::default, &nanoid::alphabet::SAFE, 10)
}

/// One step of a run, in the order the orchestrator takes them.
#[derive(Debug, Clone, Copy, PartialEq, Eq, Structural)]
pub enum RunStep {
    /// Read the time limit.
    ReadTimeLimit,
    /// Create the session's slice.
    CreateSlice,
    /// Read the memory limit and write the limits to the slice.
    WriteLimits,
    /// Launch the task and wait for it.
    Launch,
}

/// The steps of a run, in order: the time limit is read before anything is
/// created, and the task is launched last.
pub open spec fn run_order() -> Seq<RunStep> {
    seq![RunStep::ReadTimeLimit, RunStep::CreateSlice, RunStep::WriteLimits, RunStep::Launch]
}

/// What comes after a step of a run.
#[derive(Debug, Clone, PartialEq, Eq)]
pub enum RunProgress {
    /// Take the step at this index of the run's steps next.
    Perform(usize),
    /// Every step was taken.
    Finished,
    /// A step failed with this error; the run stops with it.
    Failed(SafeExecError),
}

/// What follows step `done` of a run, given its outcome: the first failure
/// ends the run with its error, so no later step is taken.
pub open spec fn run_progress(done: nat, outcome: Result<(), SafeExecError>) -> RunProgress {
    match outcome {
        Err(e) => RunProgress::Failed(e),
        Ok(()) => if done + 1 < run_order().len() {
            RunProgress::Perform((done + 1) as usize)
        } else {
            RunProgress::Finished
        },
    }
}

/// The steps of a run, in order.
pub fn run_steps() -> (s: Vec<RunStep>)
    ensures
        s@ == run_order(),
{
    let s = vec![RunStep::ReadTimeLimit, RunStep::CreateSlice, RunStep::WriteLimits, RunStep::Launch];
    assert(s@ =~= run_order());
    s
}

/// What comes after step `done` of a run (an index into `run_steps()`),
/// given its outcome.
pub fn run_next(done: usize, outcome: Result<(), SafeExecError>) -> (p: RunProgress)
    requires
        done < run_order().len(),
    ensures
        p == run_progress(done as nat, outcome),
{
    match outcome {
        Err(e) => RunProgress::Failed(e),
        Ok(()) => if done + 1 < 4 {
            RunProgress::Perform(done + 1)
        } else {
            RunProgress::Finished
        },
    }
}

/// Runs one task: reads the limits, sets up the slice and launches.
pub struct RuntimeOrchestrator {
    pub args: Args,
    pub session_id: String,
}

impl RuntimeOrchestrator {
    /// An orchestrator for `args`: its session is the one given, or a fresh
    /// random identifier of ten characters.
    pub fn new(args: Args) -> (r: Result<Self, SafeExecError>)
        ensures
            r matches Ok(o) && o.args == args && (match args.session_id {
                Some(id) => o.session_id@ == id@,
                None => o.session_id@.len() == 10 && forall|i: int|
                    0 <= i < 10 ==> #[trigger] is_session_char(o.session_id@[i]),
            }),
    {
        let session_id = match &args.session_id {
            Some(id) => id.clone(),
            None => generate_session_id(),
        };
        Ok(RuntimeOrchestrator { args, session_id })
    }

    /// The host name of the sandbox: `safeexec-` and the session.
    pub fn hostname(&self) -> (h: String)
        ensures
            h@ == "safeexec-"@ + self.session_id@,
    {
        concat2("safeexec-", self.session_id.as_str())
    }

    /// The limits written to the slice `cg`, in order: `memory.max`,
    /// `pids.max`, then `cpu.max` where a quota is given. `None` where the
    /// memory limit does not fit in 64 bits; the error of the memory limit
    /// where it is invalid.
    pub fn limit_writes(&self, cg: &CgroupV2Manager) -> (r: Option<
        Result<Vec<ControlWrite>, SafeExecError>,
    >)
        ensures
            r is None <==> !memory_fits(self.args.max_memory@),
            r matches Some(Err(e)) ==> memory_outcome(self.args.max_memory@) matches Err(m)
                && e.is_invalid_argument(m),
            r matches Some(Ok(ws)) ==> memory_outcome(self.args.max_memory@) matches Ok(b) && {
                &&& ws.len() == if self.args.cpu_max is Some {
                    3int
                } else {
                    2int
                }
                &&& ws[0].path@ == join_path(cg@, "memory.max"@)
                &&& ws[0].value@ == decimal(b as nat)
                &&& ws[1].path@ == join_path(cg@, "pids.max"@)
                &&& ws[1].value@ == decimal(self.args.max_pids as nat)
                &&& self.args.cpu_max matches Some(c) ==> ws[2].path@ == join_path(
                    cg@,
                    "cpu.max"@,
                ) && ws[2].value@ == c@
            },
    {
        let bytes = match try_parse_memory(self.args.max_memory.as_str()) {
            None => return None,
            Some(Err(e)) => return Some(Err(e)),
            Some(Ok(b)) => b,
        };
        let mut ws: Vec<ControlWrite> = Vec::new();
        ws.push(cg.set_memory_max(bytes));
        ws.push(cg.set_pids_max(self.args.max_pids));
        if let Some(c) = &self.args.cpu_max {
            ws.push(cg.set_cpu_max(c.as_str()));
        }
        Some(Ok(ws))
    }

    /// The launch of the task: the program and its arguments as given, the
    /// time limit `timeout`, the host name of the session, the slice `cg`, and
    /// the input and output directories as given, and the session, which
    /// names the workspace.
    pub fn launcher<'a>(&'a self, timeout: Duration, cg: &'a CgroupV2Manager) -> (l: TaskLauncher<'a>)
        ensures
            l.binary@ == self.args.executable@,
            l.args@ == self.args.args@,
            l.timeout == timeout,
            l.hostname@ == "safeexec-"@ + self.session_id@,
            l.cgroup == Some(cg),
            opt_str_view(l.input) == opt_view(self.args.input),
            opt_str_view(l.output) == opt_view(self.args.output),
            opt_str_view(l.session) == Some(self.session_id@),
    {
        let mut l = TaskLauncher::new(
            self.args.executable.as_str(),
            self.args.args.as_slice(),
            timeout,
            self.hostname(),
        ).with_cgroup(cg).with_session(self.session_id.as_str());
        if let Some(i) = &self.args.input {
            l = l.with_input(i.as_str());
        }
        if let Some(o) = &self.args.output {
            l = l.with_output(o.as_str());
        }
        l
    }
}

} // verus!
