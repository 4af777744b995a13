//! The process group: the supervising parent's engine.
//!
//! Before the group runs it is an ordered list of entries, one forked OS
//! process each.  While it runs, the parent keeps the set of live children,
//! keyed by pid, each with its backoff state.  The embedding binary makes the
//! system calls (`fork`, `waitpid`, `kill`) and drives the loop; each wait
//! result is handed to [`ActiveSet::step`], which takes every decision: tear
//! the group down, restart the exited child after a delay, or let the group
//! shrink.

use vstd::prelude::*;

use crate::backoff::{retry_granted, Backoff, BackoffResult};
use crate::backoff_policy::BackoffPolicy;
use crate::restartable::{RestartPolicy, Restartable};
use crate::supervisor::Supervisor;
use crate::sys::{spec_status_exited, spec_status_signaled, status_exited, status_signaled, SysError};
use crate::watcher::Watcher;

verus! {

/// One entry of a supervisor's process group: the watcher hosting the
/// supervisor's direct workers, or a child supervisor.
#[derive(Debug)]
pub enum ProcEntry {
    /// The watcher process for the supervisor's direct workers.
    Watcher(Watcher),
    /// A child supervisor's process.
    Supervisor(Supervisor),
}

impl Restartable for ProcEntry {
    open spec fn spec_restart_policy(&self) -> RestartPolicy {
        match self {
            ProcEntry::Watcher(w) => w.spec_restart_policy(),
            ProcEntry::Supervisor(s) => s.spec_restart_policy(),
        }
    }

    open spec fn spec_backoff_policy(&self) -> BackoffPolicy {
        match self {
            ProcEntry::Watcher(w) => w.spec_backoff_policy(),
            ProcEntry::Supervisor(s) => s.spec_backoff_policy(),
        }
    }

    fn restart_policy(&self) -> (r: RestartPolicy)
    {
        match self {
            ProcEntry::Watcher(w) => w.restart_policy(),
            ProcEntry::Supervisor(s) => s.restart_policy(),
        }
    }

    fn backoff_policy(&self) -> (r: BackoffPolicy)
    {
        match self {
            ProcEntry::Watcher(w) => w.backoff_policy(),
            ProcEntry::Supervisor(s) => s.backoff_policy(),
        }
    }
}

/// An ordered list of processes to fork, each to be supervised under its own
/// policies.
pub struct ProcessGroup<P> {
    /// The processes, in the order they are to be forked.
    pub processes: Vec<P>,
}

impl<P> ProcessGroup<P> {
    /// Creates an empty process group.
    pub fn new() -> (r: ProcessGroup<P>)
        ensures
            r.processes@.len() == 0,
    {
        ProcessGroup { processes: Vec::new() }
    }

    /// Appends a process to the group.
    pub fn add_process(&mut self, process: P)
        ensures
            final(self).processes@ == old(self).processes@.push(process),
    {
        self.processes.push(process);
    }

    /// Releases the processes, in fork order.
    pub fn into_processes(self) -> (r: Vec<P>)
        ensures
            r@ == self.processes@,
    {
        self.processes
    }
}

/// What the supervision loop is to do after one wait result.
pub enum StepAction<P> {
    /// The group is compromised or a child died by signal: send SIGTERM to
    /// each of these pids; no child is tracked any more.
    Collapse(Vec<i32>),
    /// The exited child is to be forked again after the given delay in
    /// milliseconds; its carried state is then registered under the new pid.
    Restart(Backoff<P>, u64),
    /// The exited child gave up: it is gone for good and the group shrinks.
    Forget,
    /// Nothing to act on.
    Ignore,
}

/// The live children of a running process group, keyed by pid, each with its
/// backoff state.
pub struct ActiveSet<P> {
    /// The live children, as pairs of pid and backoff-wrapped process.
    pub entries: Vec<(i32, Backoff<P>)>,
}

impl<P: Restartable> ActiveSet<P> {
    /// The set's invariant: pids are distinct and positive, and every
    /// child's backoff policy is well formed.
    pub open spec fn wf(&self) -> bool {
        &&& forall|i: int, j: int|
            0 <= i < j < self.entries@.len() ==> (#[trigger] self.entries@[i]).0 != (
            #[trigger] self.entries@[j]).0
        &&& forall|i: int| 0 <= i < self.entries@.len() ==> (#[trigger] self.entries@[i]).0 > 0
        &&& forall|i: int|
            0 <= i < self.entries@.len() ==> (
            #[trigger] self.entries@[i]).1.inner.spec_backoff_policy().wf()
    }

    /// The tracked pids, in insertion order.
    pub open spec fn spec_pids(&self) -> Seq<i32> {
        self.entries@.map_values(|e: (i32, Backoff<P>)| e.0)
    }

    /// Whether the given pid is tracked.
    pub open spec fn spec_has_pid(&self, pid: i32) -> bool {
        exists|i: int| 0 <= i < self.entries@.len() && (#[trigger] self.entries@[i]).0 == pid
    }

    /// The position of the given pid among the entries.
    pub open spec fn spec_index_of(&self, pid: i32) -> int {
        choose|i: int| 0 <= i < self.entries@.len() && (#[trigger] self.entries@[i]).0 == pid
    }

    /// The backoff state tracked for the given pid.
    pub open spec fn spec_slot_of(&self, pid: i32) -> Backoff<P> {
        self.entries@[self.spec_index_of(pid)].1
    }

    /// Whether the child tracked under the given pid would be granted one
    /// more retry by its restart policy.
    pub open spec fn spec_retry_granted_to(&self, pid: i32) -> bool {
        retry_granted(
            self.spec_slot_of(pid).inner.spec_restart_policy(),
            self.spec_slot_of(pid).last_action,
        )
    }

    /// Distinct entries never share a pid: a pid determines its position.
    proof fn lemma_index_unique(&self, pid: i32, a: int, b: int)
        requires
            self.wf(),
            0 <= a < self.entries@.len(),
            0 <= b < self.entries@.len(),
            self.entries@[a].0 == pid,
            self.entries@[b].0 == pid,
        ensures
            a == b,
    {
        if a < b {
            assert(self.entries@[a].0 != self.entries@[b].0);
        } else if b < a {
            assert(self.entries@[b].0 != self.entries@[a].0);
        }
    }

    /// Creates an empty set of live children.
    pub fn new() -> (r: ActiveSet<P>)
        ensures
            r.entries@.len() == 0,
            r.wf(),
    {
        ActiveSet { entries: Vec::new() }
    }

    /// The number of live children.
    pub fn len(&self) -> (r: usize)
        ensures
            r == self.entries@.len(),
    {
        self.entries.len()
    }

    /// Whether no child is live any more: the group has fully collapsed.
    pub fn is_empty(&self) -> (r: bool)
        ensures
            r == (self.entries@.len() == 0),
    {
        self.entries.len() == 0
    }

    /// Reports whether a child is tracked under the given pid.
    pub fn contains_pid(&self, pid: i32) -> (r: bool)
        ensures
            r == self.spec_has_pid(pid),
    {
        let mut idx: usize = 0;
        while idx < self.entries.len()
            invariant
                0 <= idx <= self.entries@.len(),
                forall|j: int| 0 <= j < idx ==> (#[trigger] self.entries@[j]).0 != pid,
            decreases self.entries@.len() - idx,
        {
            if self.entries[idx].0 == pid {
                return true;
            }
            idx = idx + 1;
        }
        false
    }

    /// Starts tracking a freshly forked child under its pid.
    pub fn register(&mut self, pid: i32, slot: Backoff<P>)
        requires
            old(self).wf(),
            pid > 0,
            !old(self).spec_has_pid(pid),
            slot.inner.spec_backoff_policy().wf(),
        ensures
            final(self).entries@ == old(self).entries@.push((pid, slot)),
            final(self).wf(),
    {
        self.entries.push((pid, slot));
    }

    /// Stops tracking every child and hands out all their pids, for the
    /// terminal SIGTERM broadcast: afterwards the set is empty.
    pub fn collapse(&mut self) -> (pids: Vec<i32>)
        requires
            old(self).wf(),
        ensures
            pids@ == old(self).spec_pids(),
            final(self).entries@.len() == 0,
            final(self).wf(),
    {
        let mut pids: Vec<i32> = Vec::new();
        let mut idx: usize = 0;
        while idx < self.entries.len()
            invariant
                0 <= idx <= self.entries@.len(),
                pids@.len() == idx,
                forall|j: int| 0 <= j < idx ==> pids@[j] == (#[trigger] self.entries@[j]).0,
            decreases self.entries@.len() - idx,
        {
            pids.push(self.entries[idx].0);
            idx = idx + 1;
        }
        self.entries = Vec::new();
        proof {
            assert(pids@ =~= old(self).spec_pids());
        }
        pids
    }

    /// Stops tracking the child with the given pid, handing out its backoff
    /// state, if it is tracked at all.
    fn take(&mut self, pid: i32) -> (r: Option<Backoff<P>>)
        requires
            old(self).wf(),
        ensures
            final(self).wf(),
            !old(self).spec_has_pid(pid) ==> r is None && final(self).entries@ == old(
                self,
            ).entries@,
            old(self).spec_has_pid(pid) ==> (r matches Some(slot) && {
                let i = old(self).spec_index_of(pid);
                &&& slot == old(self).entries@[i].1
                &&& final(self).entries@ == old(self).entries@.remove(i)
            }),
    {
        let mut idx: usize = 0;
        while idx < self.entries.len()
            invariant
                old(self).wf(),
                0 <= idx <= self.entries@.len(),
                forall|j: int| 0 <= j < idx ==> (#[trigger] self.entries@[j]).0 != pid,
                self.entries@ == old(self).entries@,
            decreases self.entries@.len() - idx,
        {
            if self.entries[idx].0 == pid {
                proof {
                    assert(old(self).spec_has_pid(pid));
                    let i = old(self).spec_index_of(pid);
                    assert(old(self).entries@[i].0 == pid);
                    old(self).lemma_index_unique(pid, i, idx as int);
                }
                let entry = self.entries.remove(idx);
                proof {
                    let olds = old(self).entries@;
                    let news = self.entries@;
                    olds.remove_ensures(idx as int);
                    assert forall|p: int, q: int|
                        0 <= p < q < news.len() implies (#[trigger] news[p]).0 != (
                    #[trigger] news[q]).0 by {
                        let op: int = if p < idx { p } else { p + 1 };
                        let oq: int = if q < idx { q } else { q + 1 };
                        assert(news[p] == olds[op]);
                        assert(news[q] == olds[oq]);
                    }
                    assert forall|p: int| 0 <= p < news.len() implies (#[trigger] news[p]).0 > 0
                        && news[p].1.inner.spec_backoff_policy().wf() by {
                        let op: int = if p < idx { p } else { p + 1 };
                        assert(news[p] == olds[op]);
                    }
                }
                return Some(entry.1);
            }
            idx = idx + 1;
        }
        proof {
            assert(!self.spec_has_pid(pid));
        }
        None
    }

    /// Reacts to one `waitpid` result.  A wait error means the group can no
    /// longer be observed, and a child killed by a signal is a catastrophic
    /// cascade: both tear the whole group down.  A normal exit consults the
    /// child's backoff state: the child is either restarted after the decided
    /// delay or given up.  Anything else — an unknown pid, a status that is
    /// neither an exit nor a signal — changes nothing.  The pid of the child
    /// that exited is reaped and not signalled: a SIGTERM there would race
    /// pid reuse.
    pub fn step(&mut self, wait_result: Result<i32, SysError>, status: i32) -> (a: StepAction<P>)
        requires
            old(self).wf(),
        ensures
            final(self).wf(),
            wait_result is Err ==> (a matches StepAction::Collapse(pids) && pids@ == old(
                self,
            ).spec_pids() && final(self).entries@.len() == 0),
            (wait_result matches Ok(pid) && spec_status_signaled(status)) ==> (
            a matches StepAction::Collapse(pids) && pids@ == old(self).spec_pids()
                && final(self).entries@.len() == 0),
            (wait_result matches Ok(pid) && !spec_status_signaled(status) && !spec_status_exited(
                status,
            )) ==> (a matches StepAction::Ignore && final(self).entries@ == old(self).entries@),
            (wait_result matches Ok(pid) && spec_status_exited(status) && !old(self).spec_has_pid(
                pid,
            )) ==> (a matches StepAction::Ignore && final(self).entries@ == old(self).entries@),
            wait_result matches Ok(pid) ==> ((spec_status_exited(status) && old(self).spec_has_pid(
                pid,
            )) ==> final(self).entries@ == old(self).entries@.remove(old(self).spec_index_of(pid))),
            wait_result matches Ok(pid) ==> ((spec_status_exited(status) && old(self).spec_has_pid(
                pid,
            ) && !old(self).spec_retry_granted_to(pid)) ==> (a matches StepAction::Forget)),
            wait_result matches Ok(pid) ==> ((spec_status_exited(status) && old(self).spec_has_pid(
                pid,
            ) && old(self).spec_retry_granted_to(pid)) ==> (a matches StepAction::Restart(b, d)
                && b.inner == old(self).spec_slot_of(pid).inner && (b.last_action matches Some(now)
                && (old(self).spec_slot_of(pid).last_action matches Some(ts) ==> ts <= now) && d
                == old(self).spec_slot_of(pid).inner.spec_backoff_policy().spec_next_delay(
                old(self).spec_slot_of(pid).last_action,
                now,
            ) as u64))),
    {
        match wait_result {
            Err(_) => {
                let pids = self.collapse();
                StepAction::Collapse(pids)
            },
            Ok(pid) => {
                if status_signaled(status) {
                    let pids = self.collapse();
                    StepAction::Collapse(pids)
                } else if status_exited(status) {
                    match self.take(pid) {
                        Some(slot) => {
                            let mut slot = slot;
                            match slot.maybe_delay() {
                                BackoffResult::RetryAfterDelay(d) => StepAction::Restart(slot, d),
                                BackoffResult::GiveUp => StepAction::Forget,
                            }
                        },
                        None => StepAction::Ignore,
                    }
                } else {
                    StepAction::Ignore
                }
            },
        }
    }
}

} // verus!
