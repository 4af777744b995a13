//! Backoff state: the per-child companion that tracks the last restart
//! instant and decides, on each exit, between retrying after a delay and
//! giving the child up.

use vstd::prelude::*;

use crate::backoff_policy::BackoffPolicy;
use crate::backoff_policy::lemma_next_delay_in_bounds;
use crate::restartable::{RestartPolicy, Restartable};

verus! {

/// The outcome of a restart decision: retry the child after the given delay
/// in milliseconds, or give it up for good.
#[derive(Debug, Clone, Copy, PartialEq, Eq, Structural)]
pub enum BackoffResult {
    /// Restart the child after this many milliseconds.
    RetryAfterDelay(u64),
    /// Do not restart the child again.
    GiveUp,
}

/// One child together with the instant, in clock milliseconds, at which the
/// last restart decision for it was taken.
#[derive(Debug)]
pub struct Backoff<Inner> {
    /// The supervised child itself.
    pub inner: Inner,
    /// When the last restart decision was taken, in clock milliseconds;
    /// `None` until the first decision.
    pub last_action: Option<u64>,
}

/// Whether the restart policy grants one more retry, given whether a restart
/// decision was already taken: `Always` always does, `Once` only grants the
/// first, `Never` none at all.
pub open spec fn retry_granted(rp: RestartPolicy, last_action: Option<u64>) -> bool {
    match rp {
        RestartPolicy::Always => true,
        RestartPolicy::Once => last_action is None,
        RestartPolicy::Never => false,
    }
}

impl<Inner> Backoff<Inner> {
    /// Enrolls a child, with no decision taken for it yet.
    pub fn new(inner: Inner) -> (r: Backoff<Inner>)
        ensures
            r.inner == inner,
            r.last_action is None,
    {
        Backoff { inner, last_action: None }
    }

    /// Releases the child, dropping the decision history.
    pub fn into_inner(self) -> (r: Inner)
        ensures
            r == self.inner,
    {
        self.inner
    }
}

impl<Inner: Restartable> Backoff<Inner> {
    /// Takes the restart decision as of the instant `now_ms`, in clock
    /// milliseconds: under `Never` the child is given up at once and nothing
    /// is recorded; otherwise the delay follows the backoff policy and the
    /// elapsed time since the last decision, the decision instant is
    /// recorded, and the retry is granted or refused by the restart policy.
    pub fn maybe_delay_at(&mut self, now_ms: u64) -> (r: BackoffResult)
        requires
            old(self).inner.spec_backoff_policy().wf(),
            old(self).last_action matches Some(ts) ==> ts <= now_ms,
        ensures
            final(self).inner == old(self).inner,
            old(self).inner.spec_restart_policy() == RestartPolicy::Never ==> (r
                == BackoffResult::GiveUp && final(self).last_action == old(self).last_action),
            old(self).inner.spec_restart_policy() != RestartPolicy::Never ==> {
                &&& final(self).last_action == Some(now_ms)
                &&& (retry_granted(old(self).inner.spec_restart_policy(), old(self).last_action)
                    ==> r == BackoffResult::RetryAfterDelay(
                    old(self).inner.spec_backoff_policy().spec_next_delay(
                        old(self).last_action,
                        now_ms,
                    ) as u64,
                ))
                &&& (!retry_granted(old(self).inner.spec_restart_policy(), old(self).last_action)
                    ==> r == BackoffResult::GiveUp)
            },
    {
        if self.inner.restart_policy() == RestartPolicy::Never {
            return BackoffResult::GiveUp;
        }
        let policy = self.inner.backoff_policy();
        proof {
            lemma_next_delay_in_bounds(policy, self.last_action, now_ms);
        }
        let delay: u64 = match self.last_action {
            Some(ts) => {
                let diff = now_ms - ts;
                if diff < policy.max_delay_ms {
                    proof {
                        assert(diff * policy.multiplier_permille <= 0xffff_ffff * 0xffff_ffff)
                            by (nonlinear_arith)
                            requires
                                diff <= 0xffff_ffff,
                                policy.multiplier_permille <= 0xffff_ffff,
                        ;
                    }
                    let scaled = diff * policy.multiplier_permille / 1000;
                    if scaled > policy.max_delay_ms {
                        policy.max_delay_ms
                    } else if scaled < policy.min_delay_ms {
                        policy.min_delay_ms
                    } else {
                        scaled
                    }
                } else if diff > policy.reset_after_ms {
                    policy.min_delay_ms
                } else {
                    policy.max_delay_ms
                }
            },
            None => policy.min_delay_ms,
        };
        let granted = match self.inner.restart_policy() {
            RestartPolicy::Always => true,
            RestartPolicy::Once => self.last_action.is_none(),
            RestartPolicy::Never => false,
        };
        self.last_action = Some(now_ms);
        if granted {
            BackoffResult::RetryAfterDelay(delay)
        } else {
            BackoffResult::GiveUp
        }
    }

    /// Takes the restart decision as of the present instant.  The clock
    /// reading is clamped so that the recorded instant never goes backwards:
    /// `last_action` is monotonic non-decreasing across decisions.
    pub fn maybe_delay(&mut self) -> (r: BackoffResult)
        requires
            old(self).inner.spec_backoff_policy().wf(),
        ensures
            final(self).inner == old(self).inner,
            old(self).inner.spec_restart_policy() == RestartPolicy::Never ==> (r
                == BackoffResult::GiveUp && final(self).last_action == old(self).last_action),
            old(self).inner.spec_restart_policy() != RestartPolicy::Never
                ==> (final(self).last_action matches Some(now) && {
                &&& old(self).last_action matches Some(ts) ==> ts <= now
                &&& (retry_granted(old(self).inner.spec_restart_policy(), old(self).last_action)
                    ==> r == BackoffResult::RetryAfterDelay(
                    old(self).inner.spec_backoff_policy().spec_next_delay(
                        old(self).last_action,
                        now,
                    ) as u64,
                ))
                &&& (!retry_granted(old(self).inner.spec_restart_policy(), old(self).last_action)
                    ==> r == BackoffResult::GiveUp)
            }),
    {
        let now_raw = now_millis();
        let now_ms = match self.last_action {
            Some(ts) => if now_raw < ts {
                ts
            } else {
                now_raw
            },
            None => now_raw,
        };
        self.maybe_delay_at(now_ms)
    }
}

/// Relies on `std::time::SystemTime::now`: a clock reading, reported as whole
/// milliseconds since the epoch.  Nothing is promised of the value.
#[verifier::external_body]
fn now_millis() -> u64 {
    match std::time::SystemTime::now().duration_since(std::time::SystemTime::UNIX_EPOCH) {
        Ok(d) => d.as_millis() as u64,
        Err(_) => 0,
    }
}

/// A child under `RestartPolicy::Never` is never granted a retry: across the
/// tree's lifetime exactly one start is spent on it.
pub proof fn lemma_never_is_never_retried(last_action: Option<u64>)
    ensures
        !retry_granted(RestartPolicy::Never, last_action),
{
}

/// A child under `RestartPolicy::Once` is granted a retry only while no
/// decision is on record; every decision puts one on record, so at most one
/// retry is ever granted, and at most two starts are spent on the child.
pub proof fn lemma_once_retries_at_most_once(ts: u64)
    ensures
        retry_granted(RestartPolicy::Once, Option::None),
        !retry_granted(RestartPolicy::Once, Option::Some(ts)),
{
}

} // verus!
