//! The namespaces of the sandbox: the identity mapping of its user namespace.
use vstd::prelude::*;

use crate::text::{decimal, push_decimal, push_signed_decimal, signed_decimal};
use vstd::string::StringExecFns;

verus! {

/// One write of text to a file, whose failure is ignored.
#[derive(Debug, Clone, PartialEq, Eq)]
pub struct FileWrite {
    pub path: String,
    pub contents: String,
}

/// The path of `file` in the `/proc` directory of the process `pid`.
pub open spec fn proc_file(pid: i32, file: Seq<char>) -> Seq<char> {
    "/proc/"@ + signed_decimal(pid as int) + "/"@ + file
}

/// The line of an id map that maps id 0 inside the namespace to `host` outside,
/// for a range of one id.
pub open spec fn root_map_line(host: u32) -> Seq<char> {
    "0 "@ + decimal(host as nat) + " 1\n"@
}

/// Which new namespaces the sandbox's first process is started in.
#[derive(Debug, Clone, Copy, PartialEq, Eq, Structural)]
pub struct CloneNamespaces {
    /// A process-id namespace: the host's processes are not visible.
    pub pid: bool,
    /// A mount namespace: mounts stay inside.
    pub mount: bool,
    /// A UTS namespace: the host name is private.
    pub uts: bool,
    /// A user namespace: root inside is an ordinary user outside.
    pub user: bool,
    /// A network namespace: no interface but loopback.
    pub net: bool,
}

/// Creates the namespaces of a sandbox and maps its identities.
pub struct NamespaceController;

impl NamespaceController {
    pub fn new() -> (c: Self) {
        NamespaceController
    }

    /// The namespaces of the sandbox: every one of PID, mount, UTS, user and
    /// network is new.
    pub fn build_clone_flags() -> (n: CloneNamespaces)
        ensures
            n.pid && n.mount && n.uts && n.user && n.net,
    {
        CloneNamespaces { pid: true, mount: true, uts: true, user: true, net: true }
    }

    fn proc_path(pid: i32, file: &str) -> (p: String)
        ensures
            p@ == proc_file(pid, file@),
    {
        let mut p = String::from_str("/proc/");
        push_signed_decimal(&mut p, pid as i64);
        p.append("/");
        p.append(file);
        p
    }

    fn map_line(host: u32) -> (l: String)
        ensures
            l@ == root_map_line(host),
    {
        let mut l = String::from_str("0 ");
        push_decimal(&mut l, host as u64);
        l.append(" 1\n");
        l
    }

    /// The writes that make root inside the user namespace of `pid` the host
    /// user `host_uid` and group `host_gid`: the uid map, the denial of
    /// `setgroups` (which unprivileged gid maps need), then the gid map.
    /// A failed write is ignored.
    pub fn write_uid_gid_map(&self, pid: i32, host_uid: u32, host_gid: u32) -> (w: Vec<FileWrite>)
        ensures
            w.len() == 3,
            w[0].path@ == proc_file(pid, "uid_map"@),
            w[0].contents@ == root_map_line(host_uid),
            w[1].path@ == proc_file(pid, "setgroups"@),
            w[1].contents@ == "deny"@,
            w[2].path@ == proc_file(pid, "gid_map"@),
            w[2].contents@ == root_map_line(host_gid),
    {
        let mut w: Vec<FileWrite> = Vec::new();
        w.push(FileWrite { path: Self::proc_path(pid, "uid_map"), contents: Self::map_line(host_uid) });
        w.push(
            FileWrite {
                path: Self::proc_path(pid, "setgroups"),
                contents: String::from_str("deny"),
            },
        );
        w.push(FileWrite { path: Self::proc_path(pid, "gid_map"), contents: Self::map_line(host_gid) });
        w
    }
}

} // verus!
