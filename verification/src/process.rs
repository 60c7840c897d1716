//! Process inspection: listing a capped snapshot and selecting processes
//! to terminate by exact PID or by case-insensitive name substring.
//!
//! The handler decides; the caller performs the terminations it returns
//! and prints the envelope.

use vstd::prelude::*;
use crate::envelope::{CommandResult, Payload};
use crate::text::{contains_ci, contains_fold, str_eq};

verus! {

/// One process of the snapshot handed to the handler.
#[derive(Debug, PartialEq)]
pub struct ProcessInfo {
    pub pid: u32,
    pub name: String,
    pub memory: u64,
}

/// The termination requests a `kill` decision produces; the caller issues
/// one termination per listed PID, in order.
#[derive(Debug, PartialEq)]
pub enum ProcOp {
    Kill { pids: Vec<u32> },
}

/// The processes whose name contains the filter, case-insensitively.
pub open spec fn proc_pred(filt: Seq<char>) -> spec_fn(ProcessInfo) -> bool {
    |p: ProcessInfo| contains_ci(p.name@, filt)
}

/// The sub-snapshot matching a name filter, in snapshot order.
pub open spec fn matching_procs(ps: Seq<ProcessInfo>, filt: Seq<char>) -> Seq<ProcessInfo> {
    ps.filter(proc_pred(filt))
}

/// The PIDs of a sequence of processes, in order.
pub open spec fn pids_of(ps: Seq<ProcessInfo>) -> Seq<u32> {
    ps.map_values(|p: ProcessInfo| p.pid)
}

/// Some process of the snapshot has exactly this PID.
pub open spec fn has_pid(ps: Seq<ProcessInfo>, pid: u32) -> bool {
    exists|i: int| 0 <= i < ps.len() && ps[i].pid == pid
}

/// The listing cap: at most this many processes are reported.
pub open spec fn capped(ps: Seq<ProcessInfo>) -> Seq<ProcessInfo> {
    if ps.len() <= 100 {
        ps
    } else {
        ps.take(100)
    }
}

/// Process command handler.
///
/// Decides, from the snapshot alone, which processes to terminate and what
/// to report:
/// - `list` reports the snapshot truncated to the first hundred entries;
/// - `kill` with a PID targets exactly that process, and fails when the
///   snapshot does not hold it;
/// - `kill` with a name targets every process whose name contains it,
///   case-insensitively, and reports the count — zero targets is still a
///   success;
/// - `kill` with neither, and unknown actions, fail.
pub fn handle_proc(action: &str, name: Option<&str>, pid: Option<u32>, procs: Vec<ProcessInfo>)
    -> (r: (Option<ProcOp>, CommandResult))
    ensures
        r.1.wf(),
        action@ == "list"@ ==> r.0 is None && r.1.status@ == "success"@ && r.1.error is None
            && (r.1.data matches Some(p) && p matches Payload::Processes(v) && v@ == capped(procs@)),
        action@ != "list"@ && action@ == "kill"@ && pid is Some && has_pid(procs@, pid->0)
            ==> (r.0 matches Some(op) && op matches ProcOp::Kill { pids } && pids@ == seq![pid->0])
                && r.1.status@ == "killed"@ && r.1.data is None && r.1.error is None,
        action@ != "list"@ && action@ == "kill"@ && pid is Some && !has_pid(procs@, pid->0)
            ==> r.0 is None && r.1.status@ == "error"@ && r.1.data is None
                && (r.1.error matches Some(e) && e@ == "pid not found"@),
        action@ != "list"@ && action@ == "kill"@ && pid is None && name is Some
            ==> (r.0 matches Some(op) && op matches ProcOp::Kill { pids }
                    && pids@ == pids_of(matching_procs(procs@, (name->0)@)))
                && r.1.status@ == "killed"@ && r.1.error is None
                && (r.1.data matches Some(p) && p matches Payload::Count(c)
                    && c as nat == matching_procs(procs@, (name->0)@).len()),
        action@ != "list"@ && action@ == "kill"@ && pid is None && name is None
            ==> r.0 is None && r.1.status@ == "error"@ && r.1.data is None
                && (r.1.error matches Some(e) && e@ == "pid or name required"@),
        action@ != "list"@ && action@ != "kill"@
            ==> r.0 is None && r.1.status@ == "error"@ && r.1.data is None
                && (r.1.error matches Some(e) && e@ == "unknown proc action"@),
{
    proof {
        crate::envelope::lemma_statuses_not_error();
    }
    if str_eq(action, "list") {
        let mut list = procs;
        list.truncate(100);
        return (None, CommandResult::success("success", Some(Payload::Processes(list))));
    }
    if str_eq(action, "kill") {
        if let Some(target_pid) = pid {
            if let Some(_i) = find_pid(&procs, target_pid) {
                let mut pids: Vec<u32> = Vec::new();
                pids.push(target_pid);
                return (Some(ProcOp::Kill { pids }), CommandResult::success("killed", None));
            } else {
                return (None, CommandResult::error("pid not found"));
            }
        }
        if let Some(target_name) = name {
            let pids = matching_pids(&procs, target_name);
            let count: u64 = pids.len() as u64;
            return (
                Some(ProcOp::Kill { pids }),
                CommandResult::success("killed", Some(Payload::Count(count))),
            );
        }
        return (None, CommandResult::error("pid or name required"));
    }
    (None, CommandResult::error("unknown proc action"))
}

/// The position of the process with exactly this PID, if the snapshot
/// holds one.
fn find_pid(procs: &Vec<ProcessInfo>, pid: u32) -> (r: Option<usize>)
    ensures
        r matches Some(i) ==> i < procs@.len() && procs@[i as int].pid == pid,
        r is None ==> !has_pid(procs@, pid),
{
    let mut i: usize = 0;
    while i < procs.len()
        invariant
            i <= procs@.len(),
            forall|j: int| 0 <= j < i ==> procs@[j].pid != pid,
        decreases procs@.len() - i,
    {
        if procs[i].pid == pid {
            return Some(i);
        }
        i += 1;
    }
    None
}

/// The PIDs of every process whose name contains the filter,
/// case-insensitively, in snapshot order.
fn matching_pids(procs: &Vec<ProcessInfo>, filt: &str) -> (r: Vec<u32>)
    ensures
        r@ == pids_of(matching_procs(procs@, filt@)),
{
    let mut pids: Vec<u32> = Vec::new();
    let mut i: usize = 0;
    while i < procs.len()
        invariant
            i <= procs@.len(),
            pids@ == pids_of(matching_procs(procs@.take(i as int), filt@)),
        decreases procs@.len() - i,
    {
        let is_match = contains_fold(procs[i].name.as_str(), filt);
        proof {
            lemma_matching_take_step(procs@, filt@, i as int);
        }
        if is_match {
            pids.push(procs[i].pid);
        }
        i += 1;
    }
    proof {
        assert(procs@.take(procs@.len() as int) =~= procs@);
    }
    pids
}

/// Extending the scanned prefix by one process extends its matches by that
/// process exactly when its name matches.
proof fn lemma_matching_take_step(ps: Seq<ProcessInfo>, filt: Seq<char>, i: int)
    requires
        0 <= i < ps.len(),
    ensures
        proc_pred(filt)(ps[i]) ==> pids_of(matching_procs(ps.take(i + 1), filt))
            == pids_of(matching_procs(ps.take(i), filt)).push(ps[i].pid),
        !proc_pred(filt)(ps[i]) ==> pids_of(matching_procs(ps.take(i + 1), filt))
            == pids_of(matching_procs(ps.take(i), filt)),
{
    reveal(Seq::filter);
    let t1 = ps.take(i + 1);
    assert(t1.drop_last() =~= ps.take(i));
    assert(t1.last() == ps[i]);
    let m0 = matching_procs(ps.take(i), filt);
    if proc_pred(filt)(ps[i]) {
        assert(matching_procs(t1, filt) == m0.push(ps[i]));
        assert(pids_of(m0.push(ps[i])) =~= pids_of(m0).push(ps[i].pid));
    }
}

} // verus!
