//! The leaf of the tree, as the supervision logic sees it.
//!
//! A worker's entrypoint is an async `init` coroutine owned by the embedding
//! binary; what the restart logic reads of a worker is only its identity and
//! its two policies, and that is what stands here.

use vstd::prelude::*;

use crate::backoff_policy::BackoffPolicy;
use crate::restartable::{RestartPolicy, Restartable};

verus! {

/// One leaf worker: its identity within the tree, and the policies that
/// govern restarting it.  The embedding binary maps the identity back to the
/// object whose `init` coroutine actually runs.
#[derive(Debug, Clone, Copy)]
pub struct WorkerInfo {
    /// The worker's identity within the tree.
    pub id: usize,
    /// Whether the worker is restarted when its `init` completes.
    pub restart_policy: RestartPolicy,
    /// The retry cadence applied between restarts.
    pub backoff_policy: BackoffPolicy,
}

impl WorkerInfo {
    /// Describes a worker by its identity and policies.
    pub fn new(id: usize, restart_policy: RestartPolicy, backoff_policy: BackoffPolicy) -> (r:
        WorkerInfo)
        ensures
            r == (WorkerInfo { id, restart_policy, backoff_policy }),
    {
        WorkerInfo { id, restart_policy, backoff_policy }
    }
}

impl Restartable for WorkerInfo {
    open spec fn spec_restart_policy(&self) -> RestartPolicy {
        self.restart_policy
    }

    open spec fn spec_backoff_policy(&self) -> BackoffPolicy {
        self.backoff_policy
    }

    fn restart_policy(&self) -> (r: RestartPolicy)
    {
        self.restart_policy
    }

    fn backoff_policy(&self) -> (r: BackoffPolicy)
    {
        self.backoff_policy
    }
}

} // verus!
