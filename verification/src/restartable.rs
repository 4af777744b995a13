//! The restart policy, and the capability of reporting one's policies.

use vstd::prelude::*;

use crate::backoff_policy::BackoffPolicy;

verus! {

/// Whether a child that exits is restarted at all.
#[derive(Debug, Clone, Copy, PartialEq, Eq, Structural)]
pub enum RestartPolicy {
    /// Always restart the child.
    Always,
    /// Restart the child once; give up on its second exit.
    Once,
    /// Never restart the child.
    Never,
}

impl Default for RestartPolicy {
    /// Returns the default `RestartPolicy`, which is `Always`.
    fn default() -> (r: RestartPolicy)
        ensures
            r == RestartPolicy::Always,
    {
        RestartPolicy::Always
    }
}

/// A child that a supervisor may restart: it reports the restart policy and
/// the backoff policy that govern it.
pub trait Restartable: Sized {
    /// The restart policy, as contracts see it.
    spec fn spec_restart_policy(&self) -> RestartPolicy;

    /// The backoff policy, as contracts see it.
    spec fn spec_backoff_policy(&self) -> BackoffPolicy;

    /// Returns the restart policy for the child.
    fn restart_policy(&self) -> (r: RestartPolicy)
        ensures
            r == self.spec_restart_policy(),
    ;

    /// Returns the backoff policy for the child.
    fn backoff_policy(&self) -> (r: BackoffPolicy)
        ensures
            r == self.spec_backoff_policy(),
    ;
}

} // verus!
