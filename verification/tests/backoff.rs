use supertrees::backoff::{Backoff, BackoffResult};
use supertrees::backoff_policy::BackoffPolicy;
use supertrees::restartable::RestartPolicy;
use supertrees::worker::WorkerInfo;

fn always_default(id: usize) -> WorkerInfo {
    WorkerInfo::new(id, RestartPolicy::Always, BackoffPolicy::default())
}

#[test]
fn default_policy_values() {
    let p = BackoffPolicy::default();
    assert_eq!(p.min_delay(), 50);
    assert_eq!(p.max_delay(), 60_000);
    assert_eq!(p.reset_after(), 120_000);
    assert_eq!(p.multiplier(), 1200);
}

#[test]
fn new_policy_keeps_fields() {
    let p = BackoffPolicy::new(10, 1_000, 5_000, 1500);
    assert_eq!(p.min_delay(), 10);
    assert_eq!(p.max_delay(), 1_000);
    assert_eq!(p.reset_after(), 5_000);
    assert_eq!(p.multiplier(), 1500);
}

#[test]
fn first_delay_is_min_regardless_of_clock() {
    let mut b = Backoff::new(always_default(0));
    assert_eq!(b.maybe_delay_at(5_000), BackoffResult::RetryAfterDelay(50));
    let mut late = Backoff::new(always_default(1));
    assert_eq!(
        late.maybe_delay_at(1_000_000_000),
        BackoffResult::RetryAfterDelay(50)
    );
}

#[test]
fn second_delay_scales_elapsed_time() {
    // A worker whose init completes cleanly after 200 ms: the first delay is
    // the 50 ms floor, the second is 200 ms scaled by 1.2, so 240 ms.
    let mut b = Backoff::new(always_default(0));
    assert_eq!(b.maybe_delay_at(1_000), BackoffResult::RetryAfterDelay(50));
    assert_eq!(b.maybe_delay_at(1_200), BackoffResult::RetryAfterDelay(240));
}

#[test]
fn short_elapsed_time_clamps_to_floor() {
    let mut b = Backoff::new(always_default(0));
    assert_eq!(b.maybe_delay_at(100), BackoffResult::RetryAfterDelay(50));
    // 10 ms elapsed, scaled to 12 ms, clamped up to the 50 ms floor.
    assert_eq!(b.maybe_delay_at(110), BackoffResult::RetryAfterDelay(50));
}

#[test]
fn large_scaled_delay_clamps_to_ceiling() {
    let mut b = Backoff::new(always_default(0));
    assert_eq!(b.maybe_delay_at(0), BackoffResult::RetryAfterDelay(50));
    // 59 999 ms elapsed is still under the ceiling, but scaling it by 1.2
    // overshoots: clamped down to 60 000 ms.
    assert_eq!(
        b.maybe_delay_at(59_999),
        BackoffResult::RetryAfterDelay(60_000)
    );
}

#[test]
fn stable_window_yields_ceiling() {
    // An elapsed time exactly equal to max_delay takes the stable-window
    // branch and yields the ceiling itself.
    let mut b = Backoff::new(always_default(0));
    assert_eq!(b.maybe_delay_at(1_000), BackoffResult::RetryAfterDelay(50));
    assert_eq!(
        b.maybe_delay_at(61_000),
        BackoffResult::RetryAfterDelay(60_000)
    );
}

#[test]
fn long_stability_resets_to_floor() {
    // A worker stable for 130 s then exiting: past the 120 s window the
    // delay collapses back to the 50 ms floor.
    let mut b = Backoff::new(always_default(0));
    assert_eq!(b.maybe_delay_at(0), BackoffResult::RetryAfterDelay(50));
    assert_eq!(b.maybe_delay_at(130_000), BackoffResult::RetryAfterDelay(50));
}

#[test]
fn quick_failures_grow_nondecreasing_within_bounds() {
    // Five failures in quick succession under the default policy: every
    // delay is within [50 ms, 60 s] and the sequence never decreases.
    let mut b = Backoff::new(always_default(0));
    let times: [u64; 5] = [100, 110, 170, 250, 350];
    let mut delays: Vec<u64> = Vec::new();
    for t in times {
        match b.maybe_delay_at(t) {
            BackoffResult::RetryAfterDelay(d) => delays.push(d),
            BackoffResult::GiveUp => panic!("an always-restarted child never gives up"),
        }
    }
    assert_eq!(delays, vec![50, 50, 72, 96, 120]);
    for w in delays.windows(2) {
        assert!(w[0] <= w[1]);
    }
    for d in delays {
        assert!((50..=60_000).contains(&d));
    }
}

#[test]
fn multiplier_near_one_grows_slowly() {
    // With a growth factor of 1.001 the delays creep: the ceiling clamp is
    // reached only from an elapsed time close to the ceiling itself.
    let p = BackoffPolicy::new(50, 60_000, 120_000, 1001);
    let mut b = Backoff::new(WorkerInfo::new(0, RestartPolicy::Always, p));
    assert_eq!(b.maybe_delay_at(0), BackoffResult::RetryAfterDelay(50));
    assert_eq!(
        b.maybe_delay_at(10_000),
        BackoffResult::RetryAfterDelay(10_010)
    );
    let mut c = Backoff::new(WorkerInfo::new(1, RestartPolicy::Always, p));
    assert_eq!(c.maybe_delay_at(0), BackoffResult::RetryAfterDelay(50));
    assert_eq!(
        c.maybe_delay_at(59_999),
        BackoffResult::RetryAfterDelay(60_000)
    );
}

#[test]
fn once_worker_restarts_exactly_once() {
    // The first exit is granted a retry, the second exit gives up; even the
    // give-up updates the record.
    let mut b = Backoff::new(WorkerInfo::new(
        0,
        RestartPolicy::Once,
        BackoffPolicy::default(),
    ));
    assert_eq!(b.maybe_delay_at(500), BackoffResult::RetryAfterDelay(50));
    assert_eq!(b.maybe_delay_at(600), BackoffResult::GiveUp);
    assert_eq!(b.maybe_delay_at(700), BackoffResult::GiveUp);
    assert_eq!(b.last_action, Some(700));
}

#[test]
fn never_worker_gives_up_immediately() {
    // Under Never the child is given up at once and nothing is recorded.
    let mut b = Backoff::new(WorkerInfo::new(
        0,
        RestartPolicy::Never,
        BackoffPolicy::default(),
    ));
    assert_eq!(b.maybe_delay_at(500), BackoffResult::GiveUp);
    assert_eq!(b.last_action, None);
    assert_eq!(b.maybe_delay_at(900), BackoffResult::GiveUp);
    assert_eq!(b.last_action, None);
}

#[test]
fn clock_backed_first_decision_is_floor_delay() {
    // Through the real clock: with no prior action the delay is the floor.
    let mut b = Backoff::new(always_default(0));
    assert_eq!(b.maybe_delay(), BackoffResult::RetryAfterDelay(50));
    assert!(b.last_action.is_some());
}

#[test]
fn into_inner_returns_the_child() {
    let b = Backoff::new(always_default(7));
    let w = b.into_inner();
    assert_eq!(w.id, 7);
}
