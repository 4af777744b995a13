//! The supervisor: a non-leaf node of the tree.
//!
//! A supervisor owns an ordered list of children, each a leaf worker or a
//! child supervisor.  At start time the children are partitioned: the direct
//! workers go under one watcher, and the watcher plus each child supervisor
//! become the entries of a process group, one forked OS process each.

use vstd::prelude::*;

use crate::backoff_policy::BackoffPolicy;
use crate::process_group::{ProcEntry, ProcessGroup};
use crate::restartable::{RestartPolicy, Restartable};
use crate::task::Task;
use crate::watcher::Watcher;
use crate::worker::WorkerInfo;

verus! {

/// A non-leaf tree node: the pid of the process where the whole tree was
/// started (the process-group identifier for the tree), its ordered
/// children, and the policies its own parent applies when restarting it.
#[derive(Debug)]
pub struct Supervisor {
    /// The pid of the process where the tree was started.
    pub root_pid: i32,
    /// The ordered children of this supervisor.
    pub tasks: Vec<Task>,
    /// The backoff policy the parent applies to this supervisor.
    pub backoff_policy: BackoffPolicy,
    /// The restart policy the parent applies to this supervisor.
    pub restart_policy: RestartPolicy,
}

/// The direct workers among a task list, in declaration order.
pub open spec fn spec_workers(tasks: Seq<Task>) -> Seq<WorkerInfo>
    decreases tasks.len(),
{
    if tasks.len() == 0 {
        Seq::empty()
    } else {
        let init = spec_workers(tasks.drop_last());
        match tasks.last() {
            Task::Worker(w) => init.push(w),
            Task::Supervisor(_) => init,
        }
    }
}

/// The child supervisors among a task list, in declaration order.
pub open spec fn spec_child_supervisors(tasks: Seq<Task>) -> Seq<Supervisor>
    decreases tasks.len(),
{
    if tasks.len() == 0 {
        Seq::empty()
    } else {
        let init = spec_child_supervisors(tasks.drop_last());
        match tasks.last() {
            Task::Worker(_) => init,
            Task::Supervisor(s) => init.push(s),
        }
    }
}

/// Extending a task list by one child extends its partition by that child.
proof fn lemma_partition_step(tasks: Seq<Task>, j: int)
    requires
        0 <= j < tasks.len(),
    ensures
        spec_workers(tasks.take(j + 1)) == (match tasks[j] {
            Task::Worker(w) => spec_workers(tasks.take(j)).push(w),
            Task::Supervisor(_) => spec_workers(tasks.take(j)),
        }),
        spec_child_supervisors(tasks.take(j + 1)) == (match tasks[j] {
            Task::Worker(_) => spec_child_supervisors(tasks.take(j)),
            Task::Supervisor(s) => spec_child_supervisors(tasks.take(j)).push(s),
        }),
{
    assert(tasks.take(j + 1).drop_last() =~= tasks.take(j));
    assert(tasks.take(j + 1).last() == tasks[j]);
}

impl Supervisor {
    /// A freshly created supervisor under the given root pid: no children
    /// yet, default policies.
    pub open spec fn is_fresh(s: Supervisor, root_pid: i32) -> bool {
        &&& s.root_pid == root_pid
        &&& s.tasks@.len() == 0
        &&& s.backoff_policy == BackoffPolicy::spec_default()
        &&& s.restart_policy == RestartPolicy::Always
    }

    /// Creates a childless supervisor under the given root pid, with the
    /// default policies.
    pub fn new(root_pid: i32) -> (r: Supervisor)
        ensures
            Self::is_fresh(r, root_pid),
    {
        Supervisor {
            root_pid,
            tasks: Vec::new(),
            backoff_policy: BackoffPolicy::default(),
            restart_policy: RestartPolicy::Always,
        }
    }

    /// Sets the backoff policy the parent applies to this supervisor.
    pub fn with_backoff_policy(self, backoff_policy: BackoffPolicy) -> (r: Supervisor)
        ensures
            r.root_pid == self.root_pid,
            r.tasks@ == self.tasks@,
            r.backoff_policy == backoff_policy,
            r.restart_policy == self.restart_policy,
    {
        Supervisor {
            root_pid: self.root_pid,
            tasks: self.tasks,
            backoff_policy,
            restart_policy: self.restart_policy,
        }
    }

    /// Sets the restart policy the parent applies to this supervisor.
    pub fn with_restart_policy(self, restart_policy: RestartPolicy) -> (r: Supervisor)
        ensures
            r.root_pid == self.root_pid,
            r.tasks@ == self.tasks@,
            r.backoff_policy == self.backoff_policy,
            r.restart_policy == restart_policy,
    {
        Supervisor {
            root_pid: self.root_pid,
            tasks: self.tasks,
            backoff_policy: self.backoff_policy,
            restart_policy,
        }
    }

    /// Appends a worker to the supervisor's children.
    pub fn add_worker(self, worker: WorkerInfo) -> (r: Supervisor)
        ensures
            r.root_pid == self.root_pid,
            r.tasks@ == self.tasks@.push(Task::Worker(worker)),
            r.backoff_policy == self.backoff_policy,
            r.restart_policy == self.restart_policy,
    {
        let mut s = self;
        s.tasks.push(Task::Worker(worker));
        s
    }

    /// Appends a child supervisor: a fresh supervisor is created under the
    /// same root pid, handed to `f` for population, and the populated result
    /// becomes the new child.
    pub fn add_supervisor<F: FnOnce(Supervisor) -> Supervisor>(self, f: F) -> (r: Supervisor)
        requires
            forall|c: Supervisor|
                Self::is_fresh(c, self.root_pid) ==> #[trigger] call_requires(f, (c,)),
        ensures
            r.root_pid == self.root_pid,
            r.backoff_policy == self.backoff_policy,
            r.restart_policy == self.restart_policy,
            exists|c: Supervisor, s: Supervisor|
                {
                    &&& Self::is_fresh(c, self.root_pid)
                    &&& #[trigger] call_ensures(f, (c,), s)
                    &&& r.tasks@ == self.tasks@.push(Task::Supervisor(s))
                },
    {
        let mut me = self;
        let child = Supervisor::new(me.root_pid);
        let ghost c0 = child;
        let populated = f(child);
        let ghost s0 = populated;
        me.tasks.push(Task::Supervisor(populated));
        proof {
            assert(Self::is_fresh(c0, self.root_pid) && call_ensures(f, (c0,), s0));
        }
        me
    }

    /// Partitions the children into the start-time process topology: one
    /// watcher holding the direct workers, then one process group entry per
    /// child supervisor, in declaration order.
    pub fn into_process_group(self) -> (pg: ProcessGroup<ProcEntry>)
        ensures
            pg.processes@.len() == spec_child_supervisors(self.tasks@).len() + 1,
            (pg.processes@[0] matches ProcEntry::Watcher(w) && w.workers@ == spec_workers(
                self.tasks@,
            )),
            forall|i: int|
                1 <= i < pg.processes@.len() ==> pg.processes@[i] == ProcEntry::Supervisor(
                    spec_child_supervisors(self.tasks@)[i - 1],
                ),
    {
        let ghost orig = self.tasks@;
        let mut tasks = self.tasks;
        let mut workers: Vec<WorkerInfo> = Vec::new();
        let mut subs: Vec<Supervisor> = Vec::new();
        let ghost mut j: int = 0;
        while tasks.len() > 0
            invariant
                0 <= j <= orig.len(),
                tasks@ == orig.skip(j),
                workers@ == spec_workers(orig.take(j)),
                subs@ == spec_child_supervisors(orig.take(j)),
            decreases tasks@.len(),
        {
            proof {
                assert(tasks@[0] == orig[j]);
                lemma_partition_step(orig, j);
            }
            let t = tasks.remove(0);
            match t {
                Task::Worker(w) => workers.push(w),
                Task::Supervisor(s) => subs.push(s),
            }
            proof {
                j = j + 1;
                assert(tasks@ =~= orig.skip(j));
            }
        }
        proof {
            assert(orig.take(j) =~= orig);
        }
        let ghost all_subs = spec_child_supervisors(orig);
        let watcher = Watcher::new(workers);
        let mut processes: Vec<ProcEntry> = Vec::new();
        processes.push(ProcEntry::Watcher(watcher));
        let ghost mut k: int = 0;
        while subs.len() > 0
            invariant
                0 <= k <= all_subs.len(),
                subs@ == all_subs.skip(k),
                processes@.len() == k + 1,
                (processes@[0] matches ProcEntry::Watcher(w) && w.workers@ == spec_workers(orig)),
                forall|i: int|
                    1 <= i < processes@.len() ==> processes@[i] == ProcEntry::Supervisor(
                        all_subs[i - 1],
                    ),
            decreases subs@.len(),
        {
            proof {
                assert(subs@[0] == all_subs[k]);
            }
            let s = subs.remove(0);
            processes.push(ProcEntry::Supervisor(s));
            proof {
                k = k + 1;
                assert(subs@ =~= all_subs.skip(k));
            }
        }
        ProcessGroup { processes }
    }
}

impl Restartable for Supervisor {
    open spec fn spec_restart_policy(&self) -> RestartPolicy {
        self.restart_policy
    }

    open spec fn spec_backoff_policy(&self) -> BackoffPolicy {
        self.backoff_policy
    }

    fn restart_policy(&self) -> (r: RestartPolicy)
    {
        self.restart_policy
    }

    fn backoff_policy(&self) -> (r: BackoffPolicy)
    {
        self.backoff_policy
    }
}

/// Building the same tree twice and starting each yields the same process
/// topology: the watcher's workers and the child-supervisor list are a
/// function of the task list alone.
pub proof fn lemma_topology_deterministic(a: Seq<Task>, b: Seq<Task>)
    requires
        a == b,
    ensures
        spec_workers(a) == spec_workers(b),
        spec_child_supervisors(a) == spec_child_supervisors(b),
{
}

} // verus!
