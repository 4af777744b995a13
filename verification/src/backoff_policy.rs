//! The backoff policy: how long to wait before restarting a child.
//!
//! All durations are whole milliseconds.  The growth factor is kept in
//! permille (thousandths), so that a factor of 1.2 is written `1200`; the
//! next delay is the elapsed time times the factor, truncated, then clamped
//! into `[min_delay, max_delay]`.

use vstd::prelude::*;

verus! {

/// Retry cadence for restarting a child: the floor and ceiling of the delay,
/// how long a child must stay up before its delay collapses back to the
/// floor, and the growth factor applied to the time since the last restart.
#[derive(Debug, Clone, Copy)]
pub struct BackoffPolicy {
    /// The minimum delay between retries, in milliseconds.
    pub min_delay_ms: u64,
    /// The maximum delay between retries, in milliseconds.
    pub max_delay_ms: u64,
    /// A child that stayed up longer than this is retried after the minimum
    /// delay again, in milliseconds.
    pub reset_after_ms: u64,
    /// The growth factor applied to the elapsed time, in permille.
    pub multiplier_permille: u64,
}

impl BackoffPolicy {
    /// The policy invariant: delays are ordered `0 < min < max < reset`, the
    /// factor is strictly above one, and ceiling and factor are small enough
    /// that scaling an elapsed time below the ceiling cannot overflow.
    pub open spec fn wf(&self) -> bool {
        &&& 0 < self.min_delay_ms
        &&& self.min_delay_ms < self.max_delay_ms
        &&& self.max_delay_ms < self.reset_after_ms
        &&& 1000 < self.multiplier_permille
        &&& self.max_delay_ms <= 0xffff_ffff
        &&& self.multiplier_permille <= 0xffff_ffff
    }

    /// The default policy: 50 ms floor, 60 s ceiling, 120 s stability reset,
    /// factor 1.2.
    pub open spec fn spec_default() -> BackoffPolicy {
        BackoffPolicy {
            min_delay_ms: 50,
            max_delay_ms: 60_000,
            reset_after_ms: 120_000,
            multiplier_permille: 1200,
        }
    }

    /// Creates a new `BackoffPolicy` with the given delays and growth factor.
    pub fn new(
        min_delay_ms: u64,
        max_delay_ms: u64,
        reset_after_ms: u64,
        multiplier_permille: u64,
    ) -> (r: BackoffPolicy)
        requires
            0 < min_delay_ms,
            min_delay_ms < max_delay_ms,
            max_delay_ms < reset_after_ms,
            1000 < multiplier_permille,
            max_delay_ms <= 0xffff_ffff,
            multiplier_permille <= 0xffff_ffff,
        ensures
            r == (BackoffPolicy { min_delay_ms, max_delay_ms, reset_after_ms, multiplier_permille }),
            r.wf(),
    {
        BackoffPolicy { min_delay_ms, max_delay_ms, reset_after_ms, multiplier_permille }
    }

    /// Returns the minimum delay between retries, in milliseconds.
    pub fn min_delay(&self) -> (r: u64)
        ensures
            r == self.min_delay_ms,
    {
        self.min_delay_ms
    }

    /// Returns the maximum delay between retries, in milliseconds.
    pub fn max_delay(&self) -> (r: u64)
        ensures
            r == self.max_delay_ms,
    {
        self.max_delay_ms
    }

    /// Returns the stability window after which the delay resets, in
    /// milliseconds.
    pub fn reset_after(&self) -> (r: u64)
        ensures
            r == self.reset_after_ms,
    {
        self.reset_after_ms
    }

    /// Returns the growth factor, in permille.
    pub fn multiplier(&self) -> (r: u64)
        ensures
            r == self.multiplier_permille,
    {
        self.multiplier_permille
    }

    /// The delay before the next restart, in milliseconds, given the instant
    /// of the last restart decision (if any) and the current instant, both in
    /// clock milliseconds.  With no prior action the delay is the floor.
    /// Otherwise it follows the elapsed time `diff = now - last`:
    /// still inside the ceiling, the delay is `diff` scaled by the growth
    /// factor and clamped into `[min_delay, max_delay]`; past the stability
    /// window it collapses back to the floor; between the two it is the
    /// ceiling.
    pub open spec fn spec_next_delay(&self, last_action: Option<u64>, now: u64) -> int {
        match last_action {
            Option::None => self.min_delay_ms as int,
            Option::Some(ts) => {
                let diff = now - ts;
                if diff < self.max_delay_ms {
                    let scaled = diff * self.multiplier_permille / 1000;
                    if scaled > self.max_delay_ms {
                        self.max_delay_ms as int
                    } else if scaled < self.min_delay_ms {
                        self.min_delay_ms as int
                    } else {
                        scaled
                    }
                } else if diff > self.reset_after_ms {
                    self.min_delay_ms as int
                } else {
                    self.max_delay_ms as int
                }
            }
        }
    }
}

/// Every restart delay lies between the policy's floor and its ceiling,
/// whatever the history.
pub proof fn lemma_next_delay_in_bounds(p: BackoffPolicy, last_action: Option<u64>, now: u64)
    requires
        p.wf(),
        last_action matches Some(ts) ==> ts <= now,
    ensures
        p.min_delay_ms <= p.spec_next_delay(last_action, now) <= p.max_delay_ms,
{
}

/// With no prior action on record, the next delay is exactly the floor,
/// regardless of any history elsewhere.
pub proof fn lemma_first_delay_is_min(p: BackoffPolicy, now: u64)
    requires
        p.wf(),
    ensures
        p.spec_next_delay(Option::None, now) == p.min_delay_ms,
{
}

/// A child that stayed up longer than the stability window is retried after
/// the floor delay again: the backoff resets.
pub proof fn lemma_reset_after_stability(p: BackoffPolicy, ts: u64, now: u64)
    requires
        p.wf(),
        ts <= now,
        now - ts > p.reset_after_ms,
    ensures
        p.spec_next_delay(Option::Some(ts), now) == p.min_delay_ms,
{
}

/// An elapsed time from the ceiling up to the stability window (inclusive on
/// both ends) yields the ceiling itself: the stable-window branch.
pub proof fn lemma_stable_window(p: BackoffPolicy, ts: u64, now: u64)
    requires
        p.wf(),
        ts <= now,
        p.max_delay_ms <= now - ts <= p.reset_after_ms,
    ensures
        p.spec_next_delay(Option::Some(ts), now) == p.max_delay_ms,
{
}

/// While the elapsed time stays under the ceiling, a longer elapsed time
/// never yields a shorter delay: under quick successive failures the delays
/// are non-decreasing until the ceiling clamps them.
pub proof fn lemma_next_delay_monotone(p: BackoffPolicy, ts1: u64, now1: u64, ts2: u64, now2: u64)
    requires
        p.wf(),
        ts1 <= now1,
        ts2 <= now2,
        now1 - ts1 <= now2 - ts2,
        now2 - ts2 < p.max_delay_ms,
    ensures
        p.spec_next_delay(Option::Some(ts1), now1) <= p.spec_next_delay(Option::Some(ts2), now2),
{
    let d1 = now1 - ts1;
    let d2 = now2 - ts2;
    let m = p.multiplier_permille as int;
    vstd::arithmetic::mul::lemma_mul_inequality(d1, d2, m);
    vstd::arithmetic::div_mod::lemma_div_is_ordered(d1 * m, d2 * m, 1000);
}

impl Default for BackoffPolicy {
    /// Returns the default `BackoffPolicy`.
    fn default() -> (r: BackoffPolicy)
        ensures
            r == BackoffPolicy::spec_default(),
            r.wf(),
    {
        BackoffPolicy {
            min_delay_ms: 50,
            max_delay_ms: 60_000,
            reset_after_ms: 120_000,
            multiplier_permille: 1200,
        }
    }
}

} // verus!
