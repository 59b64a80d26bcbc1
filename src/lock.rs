//! A lock record naming the process that holds the server, with the token
//! to talk to it.

use sysinfo::{PidExt, ProcessExt, SystemExt};
use vstd::prelude::*;
use crate::server::{generate_token, is_token};
use crate::text::{contains_seq, contains_str};

verus! {

/// The process holding the lock, if known, and its token.
#[derive(Clone, Debug)]
pub struct Lock {
    pub pid: Option<u32>,
    pub token: String,
}

/// One running process: its id and name.
#[derive(Clone, Debug)]
pub struct ProcessInfo {
    pub pid: u32,
    pub name: String,
}

/// Whether `pid` is among `processes` as a Python process.
pub open spec fn held_by_python(pid: u32, processes: Seq<ProcessInfo>) -> bool {
    exists|i: int| 0 <= i < processes.len() && #[trigger] processes[i].pid == pid
        && contains_seq(processes[i].name@, "python"@)
}

/// Relies on `sysinfo::System::new_all` and `processes`: a snapshot of the
/// running processes with their ids and names.
#[verifier::external_body]
fn running_processes() -> (r: Vec<ProcessInfo>) {
    let system = sysinfo::System::new_all();
    system.processes().iter().map(|(pid, p)| ProcessInfo { pid: pid.as_u32(), name: p.name().to_string() }).collect()
}

/// Whether `pid` names a Python process in the snapshot `processes`.
pub fn is_locked_in(pid: u32, processes: &Vec<ProcessInfo>) -> (r: bool)
    ensures
        r == held_by_python(pid, processes@),
{
    let mut i: usize = 0;
    while i < processes.len()
        invariant
            i <= processes@.len(),
            forall|k: int| 0 <= k < i ==> !(#[trigger] processes@[k].pid == pid && contains_seq(processes@[k].name@, "python"@)),
        decreases processes.len() - i,
    {
        let p = &processes[i];
        if p.pid == pid && contains_str(p.name.as_str(), "python") {
            return true;
        }
        i = i + 1;
    }
    false
}

/// The outcome of resolving a lock from what was stored and what runs.
pub open spec fn resolved(existing: Option<Lock>, processes: Seq<ProcessInfo>, fresh: String) -> (bool, Lock) {
    match existing {
        Some(l) => match l.pid {
            Some(p) => if held_by_python(p, processes) {
                (true, l)
            } else {
                (false, Lock { pid: None, token: fresh })
            },
            None => (false, Lock { pid: None, token: fresh }),
        },
        None => (false, Lock { pid: None, token: fresh }),
    }
}

impl Lock {
    /// A lock for `pid` with `token`.
    pub fn new(pid: Option<u32>, token: String) -> (r: Lock)
        ensures
            r.pid == pid,
            r.token == token,
    {
        Lock { pid, token }
    }

    /// Records the holding process.
    pub fn set_pid(&mut self, pid: u32)
        ensures
            final(self).pid == Some(pid),
            final(self).token == old(self).token,
    {
        self.pid = Some(pid);
    }

    /// Keeps the stored lock when its process is a running Python process
    /// in `processes`; otherwise a new lock without process and with
    /// `fresh_token`. The flag says whether the stored lock was kept.
    pub fn ensure_with(existing: Option<Lock>, processes: &Vec<ProcessInfo>, fresh_token: String) -> (r: (bool, Lock))
        ensures
            r == resolved(existing, processes@, fresh_token),
    {
        match existing {
            Some(l) => match l.pid {
                Some(p) => if is_locked_in(p, processes) {
                    (true, l)
                } else {
                    (false, Lock { pid: None, token: fresh_token })
                },
                None => (false, Lock { pid: None, token: fresh_token }),
            },
            None => (false, Lock { pid: None, token: fresh_token }),
        }
    }

    /// Resolves the stored lock (`None` when no lock file exists) against
    /// the processes running now. A new lock carries a fresh token; when no
    /// lock was stored the caller persists the new one.
    pub fn ensure(existing: Option<Lock>) -> (r: (bool, Lock))
        ensures
            r.0 ==> (existing matches Some(l) && r.1 == l && l.pid is Some),
            !r.0 ==> r.1.pid is None && is_token(r.1.token@),
    {
        let processes = running_processes();
        let token = generate_token();
        Lock::ensure_with(existing, &processes, token)
    }
}

} // verus!
