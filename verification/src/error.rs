//! The library's error type.
use vstd::prelude::*;

use crate::time::Duration;

verus! {

/// What can go wrong while preparing or running a sandboxed task.
#[derive(Debug, Clone, PartialEq, Eq)]
pub enum SafeExecError {
    /// A system call failed; holds the raw `errno` value.
    Syscall(i32),
    /// An I/O operation failed; holds its description.
    Io(String),
    Cgroup(String),
    Namespace(String),
    Mount(String),
    Network(String),
    Task(String),
    InvalidArgument(String),
    Privilege(String),
    /// The task ran longer than the given limit.
    Timeout(Duration),
}

impl SafeExecError {
    /// Whether this is a cgroup error with the message `msg`.
    pub open spec fn is_cgroup(self, msg: Seq<char>) -> bool {
        self matches SafeExecError::Cgroup(m) && m@ == msg
    }

    /// Whether this is a mount error with the message `msg`.
    pub open spec fn is_mount(self, msg: Seq<char>) -> bool {
        self matches SafeExecError::Mount(m) && m@ == msg
    }

    /// Whether this is an invalid-argument error with the message `msg`.
    pub open spec fn is_invalid_argument(self, msg: Seq<char>) -> bool {
        self matches SafeExecError::InvalidArgument(m) && m@ == msg
    }
}

} // verus!
