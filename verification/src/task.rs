//! A supervisor's child: either a leaf worker or a whole child supervisor.

use vstd::prelude::*;

use crate::supervisor::Supervisor;
use crate::worker::WorkerInfo;

verus! {

/// One child in a supervisor's ordered list: a leaf worker, hosted as a task
/// in the supervisor's watcher, or a child supervisor, given an OS process of
/// its own.
#[derive(Debug)]
pub enum Task {
    /// A leaf worker.
    Worker(WorkerInfo),
    /// A child supervisor.
    Supervisor(Supervisor),
}

} // verus!
