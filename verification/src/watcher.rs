//! The watcher: the single leaf-process body of each supervisor.
//!
//! At start time a supervisor's direct workers are taken out of it and put
//! under one watcher, which runs in a forked process of its own and hosts one
//! cooperative task per worker.  The embedding binary provides that runtime;
//! the watcher here is its description: which workers it hosts, and the
//! policies under which the watcher process itself is restarted by its
//! parent.

use vstd::prelude::*;

use crate::backoff_policy::BackoffPolicy;
use crate::restartable::{RestartPolicy, Restartable};
use crate::worker::WorkerInfo;

verus! {

/// The workers that one supervisor hosts directly, gathered under a single
/// process.  As a child of its supervisor's process group, a watcher is
/// always restarted, under the default backoff policy.
#[derive(Debug)]
pub struct Watcher {
    /// The workers hosted by this watcher, in declaration order.
    pub workers: Vec<WorkerInfo>,
}

impl Watcher {
    /// Gathers the given workers under one watcher.
    pub fn new(workers: Vec<WorkerInfo>) -> (r: Watcher)
        ensures
            r.workers@ == workers@,
    {
        Watcher { workers }
    }

    /// Returns the hosted workers, in declaration order.
    pub fn into_workers(self) -> (r: Vec<WorkerInfo>)
        ensures
            r@ == self.workers@,
    {
        self.workers
    }
}

impl Restartable for Watcher {
    open spec fn spec_restart_policy(&self) -> RestartPolicy {
        RestartPolicy::Always
    }

    open spec fn spec_backoff_policy(&self) -> BackoffPolicy {
        BackoffPolicy::spec_default()
    }

    fn restart_policy(&self) -> (r: RestartPolicy)
    {
        RestartPolicy::Always
    }

    fn backoff_policy(&self) -> (r: BackoffPolicy)
    {
        BackoffPolicy::default()
    }
}

} // verus!
