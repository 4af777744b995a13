use supertrees::backoff::Backoff;
use supertrees::backoff_policy::BackoffPolicy;
use supertrees::process_group::{ActiveSet, ProcessGroup, StepAction};
use supertrees::restartable::RestartPolicy;
use supertrees::sys::SysError;
use supertrees::worker::WorkerInfo;

fn slot(id: usize, rp: RestartPolicy) -> Backoff<WorkerInfo> {
    Backoff::new(WorkerInfo::new(id, rp, BackoffPolicy::default()))
}

#[test]
fn process_group_collects_in_order() {
    let mut pg: ProcessGroup<u32> = ProcessGroup::new();
    pg.add_process(7);
    pg.add_process(8);
    assert_eq!(pg.into_processes(), vec![7, 8]);
}

#[test]
fn register_and_len() {
    let mut active: ActiveSet<WorkerInfo> = ActiveSet::new();
    assert!(active.is_empty());
    active.register(10, slot(0, RestartPolicy::Always));
    active.register(11, slot(1, RestartPolicy::Always));
    assert_eq!(active.len(), 2);
    assert!(!active.is_empty());
}

#[test]
fn wait_error_collapses_the_group() {
    let mut active: ActiveSet<WorkerInfo> = ActiveSet::new();
    active.register(10, slot(0, RestartPolicy::Always));
    active.register(11, slot(1, RestartPolicy::Always));
    match active.step(Err(SysError { errno: 10 }), 0) {
        StepAction::Collapse(pids) => assert_eq!(pids, vec![10, 11]),
        _ => panic!("a wait error tears the group down"),
    }
    assert!(active.is_empty());
}

#[test]
fn signaled_child_collapses_the_group() {
    // A child killed by a signal: every remaining sibling is handed out for
    // the SIGTERM broadcast and no child stays tracked.
    let mut active: ActiveSet<WorkerInfo> = ActiveSet::new();
    active.register(21, slot(0, RestartPolicy::Always));
    active.register(22, slot(1, RestartPolicy::Always));
    let killed_by_sigkill = 9;
    match active.step(Ok(21), killed_by_sigkill) {
        StepAction::Collapse(pids) => assert_eq!(pids, vec![21, 22]),
        _ => panic!("a signaled child tears the group down"),
    }
    assert!(active.is_empty());
}

#[test]
fn exited_child_is_restarted_with_floor_delay() {
    let mut active: ActiveSet<WorkerInfo> = ActiveSet::new();
    active.register(30, slot(0, RestartPolicy::Always));
    active.register(31, slot(1, RestartPolicy::Always));
    match active.step(Ok(30), 0) {
        StepAction::Restart(b, delay) => {
            assert_eq!(b.inner.id, 0);
            assert_eq!(delay, 50);
            assert!(b.last_action.is_some());
            // The supervision loop then forks again and registers the new
            // pid with the carried backoff state.
            active.register(32, b);
        }
        _ => panic!("an always-restarted child is forked again"),
    }
    assert_eq!(active.len(), 2);
}

#[test]
fn exited_never_child_is_forgotten() {
    let mut active: ActiveSet<WorkerInfo> = ActiveSet::new();
    active.register(40, slot(0, RestartPolicy::Never));
    active.register(41, slot(1, RestartPolicy::Always));
    match active.step(Ok(40), 0) {
        StepAction::Forget => {}
        _ => panic!("a never-restarted child is given up"),
    }
    assert_eq!(active.len(), 1);
}

#[test]
fn exited_once_child_gives_up_on_second_exit() {
    let mut active: ActiveSet<WorkerInfo> = ActiveSet::new();
    active.register(50, slot(0, RestartPolicy::Once));
    let carried = match active.step(Ok(50), 0) {
        StepAction::Restart(b, delay) => {
            assert_eq!(delay, 50);
            b
        }
        _ => panic!("the first exit of a once-restarted child is retried"),
    };
    active.register(51, carried);
    match active.step(Ok(51), 0) {
        StepAction::Forget => {}
        _ => panic!("the second exit of a once-restarted child gives up"),
    }
    assert!(active.is_empty());
}

#[test]
fn unknown_pid_is_ignored() {
    let mut active: ActiveSet<WorkerInfo> = ActiveSet::new();
    active.register(60, slot(0, RestartPolicy::Always));
    match active.step(Ok(999), 0) {
        StepAction::Ignore => {}
        _ => panic!("an unknown pid changes nothing"),
    }
    assert_eq!(active.len(), 1);
}

#[test]
fn stopped_status_is_ignored() {
    let mut active: ActiveSet<WorkerInfo> = ActiveSet::new();
    active.register(70, slot(0, RestartPolicy::Always));
    match active.step(Ok(70), 0x7f) {
        StepAction::Ignore => {}
        _ => panic!("a status that is neither exit nor signal changes nothing"),
    }
    assert_eq!(active.len(), 1);
}

#[test]
fn collapse_empties_and_reports_all_pids() {
    let mut active: ActiveSet<WorkerInfo> = ActiveSet::new();
    active.register(80, slot(0, RestartPolicy::Always));
    active.register(81, slot(1, RestartPolicy::Once));
    active.register(82, slot(2, RestartPolicy::Never));
    let pids = active.collapse();
    assert_eq!(pids, vec![80, 81, 82]);
    assert!(active.is_empty());
}
