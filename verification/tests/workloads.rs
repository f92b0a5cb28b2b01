use std::path::PathBuf;

use talos::model_backend::RealModelBackend;
use talos::workloads::{
    apply_workload, deterministic_bucket, mode_delay, mode_name, parse_mode, parse_workload_mode, phase6_task,
    real_model_task, sitl_csv_path, sitl_jsonl_path, synthetic_change_frame, synthetic_task, synthetic_telemetry,
    StressMode, WorkloadMode,
};
use talos::types::TelemetryTenths;
use talos::{TaskPriority, TaskRequest, TaskType};

const ALL_MODES: [StressMode; 8] = [
    StressMode::CvFlood,
    StressMode::VlmBurst,
    StressMode::ThermalSpike,
    StressMode::MixedContention,
    StressMode::ChangeDetection,
    StressMode::VlmQuery,
    StressMode::Phase6Contention,
    StressMode::Phase8Optimization,
];

#[test]
fn stress_mode_names_read_back() {
    for mode in ALL_MODES {
        assert_eq!(parse_mode(mode_name(mode)), Some(mode));
    }
    assert_eq!(parse_mode("cv-flood"), Some(StressMode::CvFlood));
    assert_eq!(parse_mode("phase8-optimization"), Some(StressMode::Phase8Optimization));
    assert_eq!(parse_mode("cv_flood"), None);
    assert_eq!(parse_mode(""), None);
}

#[test]
fn stress_mode_delays_and_log_paths() {
    assert_eq!(mode_delay(StressMode::CvFlood), Some(20));
    assert_eq!(mode_delay(StressMode::VlmBurst), Some(100));
    assert_eq!(mode_delay(StressMode::ThermalSpike), Some(50));
    assert_eq!(mode_delay(StressMode::MixedContention), Some(25));
    assert_eq!(mode_delay(StressMode::ChangeDetection), Some(40));
    assert_eq!(mode_delay(StressMode::VlmQuery), Some(100));
    assert_eq!(mode_delay(StressMode::Phase6Contention), Some(10));
    assert_eq!(mode_delay(StressMode::Phase8Optimization), Some(15));
    assert_eq!(sitl_jsonl_path(StressMode::CvFlood), PathBuf::from("logs/sitl-cv-flood.jsonl"));
    assert_eq!(sitl_csv_path(StressMode::VlmQuery), PathBuf::from("logs/sitl-vlm-query.csv"));
}

#[test]
fn deterministic_buckets_follow_the_congruential_step() {
    let expected = [0usize, 2, 0, 3, 1, 3, 2, 0, 2, 0, 3, 1];
    for (index, bucket) in expected.iter().enumerate() {
        assert_eq!(deterministic_bucket(index), *bucket);
    }
}

#[test]
fn change_frames_hold_a_baseline_then_flash_every_third_index() {
    assert_eq!(synthetic_change_frame(0), vec![16u8; 1024]);
    assert_eq!(synthetic_change_frame(1), vec![16u8; 1024]);
    assert_eq!(synthetic_change_frame(2), vec![32u8; 1024]);
    assert_eq!(synthetic_change_frame(3), vec![220u8; 1024]);
    assert_eq!(synthetic_change_frame(4), vec![32u8; 1024]);
}

fn kind(task: &TaskRequest) -> (TaskType, TaskPriority, u64) {
    (task.task_type, task.priority, task.memory_estimate_mb)
}

#[test]
fn synthetic_tasks_follow_their_mode() {
    let task = synthetic_task(StressMode::VlmBurst, 0);
    assert_eq!(task.task_id, 1);
    assert_eq!(kind(&task), (TaskType::VLM_QUERY, TaskPriority::HIGH, 2304));
    assert_eq!(task.deadline_ms, 250);
    assert_eq!(task.pool_slot_id, 0);
    assert_eq!(task.frame, vec![1u8; 1024]);

    let task = synthetic_task(StressMode::VlmBurst, 6);
    assert_eq!(kind(&task), (TaskType::CV_FEATURES, TaskPriority::MEDIUM, 32));
    assert_eq!(task.pool_slot_id, 1);

    let task = synthetic_task(StressMode::ThermalSpike, 3);
    assert_eq!(kind(&task), (TaskType::VLM_QUERY, TaskPriority::LOW, 2304));

    assert_eq!(kind(&synthetic_task(StressMode::MixedContention, 1)), (TaskType::VLM_QUERY, TaskPriority::LOW, 2304));
    assert_eq!(kind(&synthetic_task(StressMode::MixedContention, 3)), (TaskType::CV_FEATURES, TaskPriority::LOW, 32));
    assert_eq!(kind(&synthetic_task(StressMode::MixedContention, 4)), (TaskType::CHANGE_DETECTION, TaskPriority::MEDIUM, 64));
    assert_eq!(kind(&synthetic_task(StressMode::MixedContention, 0)), (TaskType::CV_FEATURES, TaskPriority::HIGH, 32));

    let task = synthetic_task(StressMode::ChangeDetection, 3);
    assert_eq!(kind(&task), (TaskType::CHANGE_DETECTION, TaskPriority::MEDIUM, 64));
    assert_eq!(task.frame, vec![220u8; 1024]);

    let task = synthetic_task(StressMode::VlmQuery, 70);
    assert_eq!(kind(&task), (TaskType::VLM_QUERY, TaskPriority::LOW, 2304));
    assert_eq!(task.frame, vec![38u8; 1024]);

    let task = synthetic_task(StressMode::Phase8Optimization, 3);
    assert_eq!(kind(&task), (TaskType::VLM_QUERY, TaskPriority::LOW, 2304));
    assert_eq!(task.frame, vec![67u8; 4096]);
    let task = synthetic_task(StressMode::Phase8Optimization, 2);
    assert_eq!(kind(&task), (TaskType::CV_FEATURES, TaskPriority::HIGH, 32));
    assert_eq!(task.frame, vec![3u8; 4096]);
    let task = synthetic_task(StressMode::Phase8Optimization, 4);
    assert_eq!(kind(&task), (TaskType::CHANGE_DETECTION, TaskPriority::MEDIUM, 64));
    assert_eq!(task.frame, vec![32u8; 1024]);
}

#[test]
fn contention_tasks_mix_vlm_high_priority_cv_and_change_detection() {
    let task = phase6_task(0);
    assert_eq!(kind(&task), (TaskType::VLM_QUERY, TaskPriority::LOW, 2304));
    assert_eq!(task.deadline_ms, 1000);
    assert_eq!(task.frame, vec![48u8; 2048]);

    let task = phase6_task(1);
    assert_eq!(kind(&task), (TaskType::CV_FEATURES, TaskPriority::HIGH, 32));
    assert_eq!(task.deadline_ms, 250);
    assert_eq!(task.frame, vec![2u8; 2048]);

    let task = phase6_task(3);
    assert_eq!(kind(&task), (TaskType::CHANGE_DETECTION, TaskPriority::MEDIUM, 64));
    assert_eq!(task.frame, vec![220u8; 1024]);

    let task = phase6_task(5);
    assert_eq!(kind(&task), (TaskType::CV_FEATURES, TaskPriority::MEDIUM, 32));
    assert_eq!(task.frame, vec![6u8; 2048]);
    assert_eq!(task.task_id, 6);
    assert_eq!(task.pool_slot_id, 0);
}

fn ingested(task_id: u64) -> TaskRequest {
    TaskRequest {
        task_id,
        task_type: TaskType::CV_FEATURES,
        priority: TaskPriority::MEDIUM,
        memory_estimate_mb: 1,
        deadline_ms: 250,
        pool_slot_id: 2,
        frame: vec![9, 9],
    }
}

#[test]
fn alternating_workload_cycles_task_types() {
    assert_eq!(parse_workload_mode("alternating"), Some(WorkloadMode::Alternating));
    assert_eq!(parse_workload_mode("cv"), Some(WorkloadMode::Cv));
    assert_eq!(parse_workload_mode("change-detection"), Some(WorkloadMode::ChangeDetection));
    assert_eq!(parse_workload_mode("vlm"), Some(WorkloadMode::Vlm));
    assert_eq!(parse_workload_mode("VLM"), None);

    let mut task = ingested(3);
    apply_workload(&mut task, WorkloadMode::Alternating);
    assert_eq!(kind(&task), (TaskType::VLM_QUERY, TaskPriority::LOW, 2304));
    assert_eq!(task.deadline_ms, 1000);
    assert_eq!(task.frame, vec![9, 9]);

    let mut task = ingested(4);
    apply_workload(&mut task, WorkloadMode::Alternating);
    assert_eq!(kind(&task), (TaskType::CHANGE_DETECTION, TaskPriority::MEDIUM, 1));
    assert_eq!(task.deadline_ms, 250);

    let mut task = ingested(5);
    apply_workload(&mut task, WorkloadMode::Alternating);
    assert_eq!(kind(&task), (TaskType::CV_FEATURES, TaskPriority::MEDIUM, 1));

    let mut task = ingested(7);
    apply_workload(&mut task, WorkloadMode::ChangeDetection);
    assert_eq!(task.task_type, TaskType::CHANGE_DETECTION);
    assert_eq!(task.pool_slot_id, 2);
}

#[test]
fn real_model_tasks_match_their_backend() {
    let task = real_model_task(7, RealModelBackend::SmolVlmCuda);
    assert_eq!(task.task_id, 8);
    assert_eq!(kind(&task), (TaskType::VLM_QUERY, TaskPriority::LOW, 2304));
    assert_eq!(task.deadline_ms, 5000);
    assert_eq!(task.pool_slot_id, 2);
    assert_eq!(task.frame, vec![1u8; 1024]);

    let task = real_model_task(0, RealModelBackend::TensorRtEngine);
    assert_eq!(kind(&task), (TaskType::CV_FEATURES, TaskPriority::HIGH, 512));
    assert_eq!(task.deadline_ms, 1000);
}

fn reading(memory: u32, temperature: u32, gpu: u32) -> TelemetryTenths {
    TelemetryTenths { memory_deci_percent: memory, temperature_deci_c: temperature, gpu_deci_percent: gpu }
}

#[test]
fn synthetic_telemetry_follows_the_mode() {
    let nominal = reading(400, 450, 0);
    assert_eq!(TelemetryTenths::nominal(), nominal);
    assert_eq!(synthetic_telemetry(StressMode::CvFlood, 3, 10), nominal);
    assert_eq!(synthetic_telemetry(StressMode::VlmBurst, 5, 10), reading(860, 600, 250));
    assert_eq!(synthetic_telemetry(StressMode::VlmBurst, 6, 10), nominal);
    assert_eq!(synthetic_telemetry(StressMode::ThermalSpike, 4, 10), nominal);
    assert_eq!(synthetic_telemetry(StressMode::ThermalSpike, 5, 10), reading(550, 850, 900));
    assert_eq!(synthetic_telemetry(StressMode::MixedContention, 77, 100), reading(860, 820, 700));
    assert_eq!(synthetic_telemetry(StressMode::MixedContention, 8, 100), reading(620, 580, 700));
    assert_eq!(synthetic_telemetry(StressMode::Phase8Optimization, 26, 40), reading(830, 720, 720));
    assert_eq!(synthetic_telemetry(StressMode::Phase8Optimization, 20, 40), reading(560, 620, 720));
    assert_eq!(synthetic_telemetry(StressMode::Phase8Optimization, 21, 40), reading(570, 790, 720));
}
