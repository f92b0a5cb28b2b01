use talos::frames::filled;
use talos::ingestion::{bytes_to_estimated_mb, frame_task, is_jpg, FrameSlot, MockFrameIngestor};
use talos::stats::{StateSampleCounts, VlmDecisionCounts};
use talos::{DecisionStatus, SchedulerState, TaskPriority, TaskType, VlmGateDecision, VlmGateReason};

#[test]
fn estimated_memory_rounds_up_to_whole_mebibytes() {
    assert_eq!(bytes_to_estimated_mb(0), 1);
    assert_eq!(bytes_to_estimated_mb(1), 1);
    assert_eq!(bytes_to_estimated_mb(1024 * 1024), 1);
    assert_eq!(bytes_to_estimated_mb(1024 * 1024 + 1), 2);
    assert_eq!(bytes_to_estimated_mb(5 * 1024 * 1024), 5);
}

#[test]
fn jpg_extension_ignores_case() {
    assert!(is_jpg("jpg"));
    assert!(is_jpg("JPG"));
    assert!(is_jpg("JpG"));
    assert!(!is_jpg("jpeg"));
    assert!(!is_jpg("png"));
    assert!(!is_jpg(""));
}

#[test]
fn ingestor_cycles_files_and_pool_slots() {
    let mut ingestor = MockFrameIngestor::new_with_pool_slots(3, 2);
    assert_eq!(ingestor.len(), 3);
    assert!(!ingestor.is_empty());
    assert_eq!(ingestor.pool_slot_count(), 2);
    let slots: Vec<FrameSlot> = (0..4).map(|_| ingestor.next_slot().expect("files are present")).collect();
    assert_eq!(
        slots,
        vec![
            FrameSlot { file_index: 0, task_id: 1, pool_slot_id: 0 },
            FrameSlot { file_index: 1, task_id: 2, pool_slot_id: 1 },
            FrameSlot { file_index: 2, task_id: 3, pool_slot_id: 0 },
            FrameSlot { file_index: 0, task_id: 4, pool_slot_id: 1 },
        ]
    );

    let default = MockFrameIngestor::new(7);
    assert_eq!(default.pool_slot_count(), 5);

    let mut empty = MockFrameIngestor::new(0);
    assert!(empty.is_empty());
    assert_eq!(empty.next_slot(), None);
    assert_eq!(empty.next_slot(), None);
}

#[test]
fn frame_tasks_are_medium_priority_cv_with_estimated_memory() {
    let slot = FrameSlot { file_index: 4, task_id: 9, pool_slot_id: 3 };
    let task = frame_task(slot, filled(7, 3 * 1024 * 1024));
    assert_eq!(task.task_id, 9);
    assert_eq!(task.task_type, TaskType::CV_FEATURES);
    assert_eq!(task.priority, TaskPriority::MEDIUM);
    assert_eq!(task.memory_estimate_mb, 3);
    assert_eq!(task.deadline_ms, 250);
    assert_eq!(task.pool_slot_id, 3);
    assert_eq!(task.frame.len(), 3 * 1024 * 1024);
    assert!(task.frame.iter().all(|b| *b == 7));
}

#[test]
fn state_samples_count_loaded_states_only() {
    let mut counts = StateSampleCounts::default();
    counts.record(SchedulerState::NORMAL);
    counts.record(SchedulerState::HIGH_LOAD);
    counts.record(SchedulerState::THROTTLE);
    counts.record(SchedulerState::THROTTLE);
    counts.record(SchedulerState::DEGRADED);
    assert_eq!(
        counts,
        StateSampleCounts { high_load_samples: 1, throttle_samples: 2, degraded_samples: 1 }
    );
}

#[test]
fn vlm_decisions_count_status_and_pressure_reasons() {
    let mut counts = VlmDecisionCounts::default();
    counts.record(TaskType::CV_FEATURES, DecisionStatus::ADMIT, None);
    assert_eq!(counts, VlmDecisionCounts::default());

    counts.record(TaskType::VLM_QUERY, DecisionStatus::ADMIT, None);
    counts.record(
        TaskType::VLM_QUERY,
        DecisionStatus::DEFER,
        Some(VlmGateDecision { status: DecisionStatus::DEFER, reason: VlmGateReason::ThermalPressure }),
    );
    counts.record(
        TaskType::VLM_QUERY,
        DecisionStatus::REJECT,
        Some(VlmGateDecision { status: DecisionStatus::REJECT, reason: VlmGateReason::MemoryPressure }),
    );
    assert_eq!(
        counts,
        VlmDecisionCounts {
            vlm_admitted: 1,
            vlm_deferred: 1,
            vlm_rejected: 1,
            vlm_thermal_pressure_deferrals: 1,
            vlm_memory_pressure_decisions: 1,
        }
    );
}
