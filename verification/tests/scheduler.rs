use talos::scheduler::priority_weight;
use talos::{TaskPriority, TaskRequest, TaskScheduler, TaskType};

fn task(priority: TaskPriority) -> TaskRequest {
    TaskRequest {
        task_id: 1,
        task_type: TaskType::CV_FEATURES,
        priority,
        memory_estimate_mb: 1,
        deadline_ms: 100,
        pool_slot_id: 0,
        frame: vec![1],
    }
}

#[test]
fn queue_pressure_is_derived_from_queued_tasks() {
    let mut scheduler = TaskScheduler::new();
    scheduler.defer(task(TaskPriority::HIGH));
    scheduler.defer(task(TaskPriority::MEDIUM));
    scheduler.defer(task(TaskPriority::LOW));
    assert_eq!(scheduler.queue_pressure(), 16);
}

#[test]
fn deferred_tasks_pop_in_fifo_order() {
    let mut scheduler = TaskScheduler::new();
    assert!(scheduler.is_empty());
    assert!(scheduler.pop_next().is_none());
    let mut first = task(TaskPriority::LOW);
    first.task_id = 1;
    let mut second = task(TaskPriority::HIGH);
    second.task_id = 2;
    scheduler.defer(first);
    scheduler.defer(second);
    assert_eq!(scheduler.len(), 2);
    assert_eq!(scheduler.queue_pressure(), 11);
    assert_eq!(scheduler.pop_next().map(|t| t.task_id), Some(1));
    assert_eq!(scheduler.queue_pressure(), 10);
    assert_eq!(scheduler.pop_next().map(|t| t.task_id), Some(2));
    assert!(scheduler.is_empty());
    assert_eq!(scheduler.queue_pressure(), 0);
}

#[test]
fn cv_burst_needs_two_queued_cv_tasks() {
    let mut scheduler = TaskScheduler::new();
    scheduler.defer(task(TaskPriority::LOW));
    assert!(!scheduler.cv_burst_active());
    let mut vlm = task(TaskPriority::LOW);
    vlm.task_type = TaskType::VLM_QUERY;
    scheduler.defer(vlm);
    assert!(!scheduler.cv_burst_active());
    scheduler.defer(task(TaskPriority::HIGH));
    assert!(scheduler.cv_burst_active());
}

#[test]
fn priority_weights() {
    assert_eq!(priority_weight(TaskPriority::HIGH), 10);
    assert_eq!(priority_weight(TaskPriority::MEDIUM), 5);
    assert_eq!(priority_weight(TaskPriority::LOW), 1);
}

#[test]
fn checked_queue_pressure_matches_the_weighted_sum() {
    let mut scheduler = TaskScheduler::new();
    assert_eq!(scheduler.checked_queue_pressure(), Some(0));
    scheduler.defer(task(TaskPriority::HIGH));
    scheduler.defer(task(TaskPriority::LOW));
    assert_eq!(scheduler.checked_queue_pressure(), Some(11));
    assert_eq!(scheduler.checked_queue_pressure(), Some(scheduler.queue_pressure()));
}
