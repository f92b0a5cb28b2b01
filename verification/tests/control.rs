use talos::control::{dispatch, next_replay, run_finished, DispatchAction};
use talos::{
    AdmissionGates, AdmissionPolicy, DecisionStatus, GpuLeaseManager, SchedulerState,
    TaskPriority, TaskRequest, TaskScheduler, TaskType, Uuid,
};

fn calm() -> AdmissionGates {
    AdmissionGates {
        memory_above_reject: false,
        vlm_memory_below_gate: true,
        vlm_temperature_below_gate: true,
    }
}

fn task(id: u64, task_type: TaskType, priority: TaskPriority) -> TaskRequest {
    TaskRequest {
        task_id: id,
        task_type,
        priority,
        memory_estimate_mb: 1,
        deadline_ms: 100,
        pool_slot_id: 0,
        frame: vec![1],
    }
}

#[test]
fn admitted_task_runs_under_a_fresh_lease() {
    let policy = AdmissionPolicy::default();
    let mut leases = GpuLeaseManager::new();
    let mut scheduler = TaskScheduler::new();
    let outcome = dispatch(
        &policy,
        &mut leases,
        &mut scheduler,
        task(1, TaskType::CV_FEATURES, TaskPriority::HIGH),
        &calm(),
        SchedulerState::NORMAL,
    );
    assert_eq!(outcome.decision.status, DecisionStatus::ADMIT);
    assert_eq!(outcome.recorded, DecisionStatus::ADMIT);
    assert!(!outcome.gpu_lease_active);
    match outcome.action {
        DispatchAction::Execute { task, lease } => {
            assert_eq!(task.task_id, 1);
            assert_eq!(lease.id(), Uuid(1));
        }
        other => panic!("expected execution, got {other:?}"),
    }
    assert!(leases.is_active());
    assert!(scheduler.is_empty());
    assert_eq!(leases.next_id(), 2);
}

#[test]
fn held_lease_defers_into_the_queue_and_replays_after_release() {
    let policy = AdmissionPolicy::default();
    let mut leases = GpuLeaseManager::new();
    let mut scheduler = TaskScheduler::new();
    let lease = leases.try_acquire().expect("lease");
    let outcome = dispatch(
        &policy,
        &mut leases,
        &mut scheduler,
        task(2, TaskType::CV_FEATURES, TaskPriority::MEDIUM),
        &calm(),
        SchedulerState::NORMAL,
    );
    assert_eq!(outcome.recorded, DecisionStatus::DEFER);
    assert!(matches!(outcome.action, DispatchAction::Deferred));
    assert_eq!(scheduler.len(), 1);
    assert_eq!(leases.next_id(), 2);
    assert!(next_replay(&leases, &mut scheduler).is_none());
    assert_eq!(scheduler.len(), 1);
    leases.release(lease);
    let replay = next_replay(&leases, &mut scheduler).expect("replay");
    assert_eq!(replay.task_id, 2);
    assert!(scheduler.is_empty());
    assert!(run_finished(true, &leases, &scheduler));
    assert!(!run_finished(false, &leases, &scheduler));
}

#[test]
fn rejected_task_is_handed_back_and_never_queued() {
    let policy = AdmissionPolicy::default();
    let mut leases = GpuLeaseManager::new();
    let mut scheduler = TaskScheduler::new();
    let outcome = dispatch(
        &policy,
        &mut leases,
        &mut scheduler,
        task(3, TaskType::VLM_QUERY, TaskPriority::LOW),
        &calm(),
        SchedulerState::DEGRADED,
    );
    assert_eq!(outcome.recorded, DecisionStatus::REJECT);
    match outcome.action {
        DispatchAction::Rejected { task } => assert_eq!(task.task_id, 3),
        other => panic!("expected rejection, got {other:?}"),
    }
    assert!(scheduler.is_empty());
    assert!(!leases.is_active());
}

#[test]
fn dispatch_reports_queue_pressure_and_cv_burst() {
    let policy = AdmissionPolicy::default();
    let mut leases = GpuLeaseManager::new();
    let mut scheduler = TaskScheduler::new();
    scheduler.defer(task(10, TaskType::CV_FEATURES, TaskPriority::HIGH));
    scheduler.defer(task(11, TaskType::CV_FEATURES, TaskPriority::LOW));
    let outcome = dispatch(
        &policy,
        &mut leases,
        &mut scheduler,
        task(12, TaskType::VLM_QUERY, TaskPriority::LOW),
        &calm(),
        SchedulerState::NORMAL,
    );
    assert_eq!(outcome.queue_pressure, 11);
    assert!(outcome.cv_burst_active);
    assert_eq!(outcome.recorded, DecisionStatus::DEFER);
    assert_eq!(scheduler.len(), 3);
}
