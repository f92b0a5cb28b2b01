use talos::hitl::{
    baseline_task_parts, heavy_task_parts, hitl_change_frame, hitl_task, inspection_frame, patterned_frame,
    thermal_task_parts, CpuBurnThreads, HitlWorkload,
};
use talos::{TaskPriority, TaskType};

#[test]
fn hitl_workloads_parse_and_name() {
    assert_eq!(HitlWorkload::parse("baseline"), Some(HitlWorkload::Baseline));
    assert_eq!(HitlWorkload::parse("heavy"), Some(HitlWorkload::Heavy));
    assert_eq!(HitlWorkload::parse("thermal"), Some(HitlWorkload::Thermal));
    assert_eq!(HitlWorkload::parse("Thermal"), None);
    assert_eq!(HitlWorkload::Baseline.name(), "hitl-baseline");
    assert_eq!(HitlWorkload::Heavy.name(), "hitl-heavy");
    assert_eq!(HitlWorkload::Thermal.name(), "hitl-thermal");
}

#[test]
fn hitl_workload_defaults() {
    assert_eq!(HitlWorkload::Baseline.default_payload_bytes(), 4096);
    assert_eq!(HitlWorkload::Heavy.default_payload_bytes(), 16 * 1024 * 1024);
    assert_eq!(HitlWorkload::Thermal.default_payload_bytes(), 1024 * 1024);
    assert_eq!(HitlWorkload::Baseline.default_sample_period_ms(), 100);
    assert_eq!(HitlWorkload::Heavy.default_sample_period_ms(), 20);
    assert_eq!(HitlWorkload::Thermal.default_sample_period_ms(), 50);
    assert_eq!(HitlWorkload::Baseline.default_inter_task_delay_ms(), 25);
    assert_eq!(HitlWorkload::Heavy.default_inter_task_delay_ms(), 0);
    assert_eq!(HitlWorkload::Baseline.default_duration_secs(), None);
    assert_eq!(HitlWorkload::Heavy.default_duration_secs(), Some(60));
    assert_eq!(HitlWorkload::Thermal.default_duration_secs(), Some(300));
    assert_eq!(HitlWorkload::Baseline.default_progress_every(), 0);
    assert_eq!(HitlWorkload::Heavy.default_progress_every(), 5);
    assert_eq!(HitlWorkload::Thermal.default_progress_every(), 1);
    assert_eq!(HitlWorkload::Heavy.default_cpu_burn_threads(), CpuBurnThreads::Disabled);
    assert_eq!(HitlWorkload::Thermal.default_cpu_burn_threads(), CpuBurnThreads::Auto);
    assert_eq!(HitlWorkload::Thermal.default_memory_pressure_mb(), 0);
}

#[test]
fn cpu_burn_threads_parse() {
    assert_eq!(CpuBurnThreads::parse("none"), Some(CpuBurnThreads::Disabled));
    assert_eq!(CpuBurnThreads::parse("0"), Some(CpuBurnThreads::Disabled));
    assert_eq!(CpuBurnThreads::parse("auto"), Some(CpuBurnThreads::Auto));
    assert_eq!(CpuBurnThreads::parse("4"), Some(CpuBurnThreads::Count(4)));
    assert_eq!(CpuBurnThreads::parse("+12"), Some(CpuBurnThreads::Count(12)));
    assert_eq!(CpuBurnThreads::parse("00"), Some(CpuBurnThreads::Count(0)));
    assert_eq!(CpuBurnThreads::parse("four"), None);
    assert_eq!(CpuBurnThreads::parse("-1"), None);
    assert_eq!(CpuBurnThreads::parse(""), None);
}

#[test]
fn patterned_frames_step_by_31_from_the_task_offset() {
    assert_eq!(patterned_frame(0, 4), vec![0, 31, 62, 93]);
    assert_eq!(patterned_frame(6, 3), vec![102, 133, 164]);
    assert_eq!(patterned_frame(1, 10)[9], ((9 * 31 + 17) % 256) as u8);
    assert!(patterned_frame(3, 0).is_empty());
}

#[test]
fn inspection_frames_hold_one_bright_defect_cell() {
    let frame = inspection_frame(1, 4096);
    assert_eq!(frame.len(), 4096);
    for (offset, byte) in frame.iter().enumerate() {
        let expected = if (1920..1984).contains(&offset) { 231 } else { 25 };
        assert_eq!(*byte, expected, "offset {offset}");
    }

    let frame = inspection_frame(0, 128);
    let bright: Vec<usize> = frame.iter().enumerate().filter(|(_, b)| **b == 232).map(|(i, _)| i).collect();
    assert_eq!(bright, vec![22, 23]);
    assert_eq!(frame[0], 24);

    let frame = inspection_frame(22, 64);
    assert_eq!(frame[45], 210);
    assert_eq!(frame[0], 30);
    assert_eq!(frame.iter().filter(|b| **b == 210).count(), 1);
    assert!(inspection_frame(5, 0).is_empty());
}

#[test]
fn baseline_change_frames() {
    assert_eq!(hitl_change_frame(0), vec![24u8; 4096]);
    assert_eq!(hitl_change_frame(2), vec![24u8; 4096]);
    assert_eq!(hitl_change_frame(7), vec![36u8; 4096]);
    assert_eq!(hitl_change_frame(8), inspection_frame(8, 4096));
}

#[test]
fn baseline_task_mix() {
    let (task_type, priority, memory, frame) = baseline_task_parts(10);
    assert_eq!((task_type, priority, memory), (TaskType::VLM_QUERY, TaskPriority::LOW, 2304));
    assert_eq!(frame, vec![74u8; 4096]);

    let (task_type, priority, memory, frame) = baseline_task_parts(3);
    assert_eq!((task_type, priority, memory), (TaskType::CHANGE_DETECTION, TaskPriority::MEDIUM, 64));
    assert_eq!(frame, vec![36u8; 4096]);

    let (task_type, priority, memory, frame) = baseline_task_parts(4);
    assert_eq!((task_type, priority, memory), (TaskType::CV_FEATURES, TaskPriority::HIGH, 32));
    assert_eq!(frame, inspection_frame(4, 4096));

    let (task_type, priority, _, _) = baseline_task_parts(9);
    assert_eq!((task_type, priority), (TaskType::CV_FEATURES, TaskPriority::MEDIUM));
}

#[test]
fn heavy_and_thermal_task_mix() {
    let (task_type, priority, memory, frame) = heavy_task_parts(4, 256);
    assert_eq!((task_type, priority, memory), (TaskType::CHANGE_DETECTION, TaskPriority::MEDIUM, 128));
    assert_eq!(frame, inspection_frame(4, 256));
    let (task_type, priority, _, _) = heavy_task_parts(5, 256);
    assert_eq!((task_type, priority), (TaskType::CV_FEATURES, TaskPriority::HIGH));

    let (task_type, priority, memory, frame) = thermal_task_parts(6, 3);
    assert_eq!((task_type, priority, memory), (TaskType::VLM_QUERY, TaskPriority::LOW, 2304));
    assert_eq!(frame, vec![102, 133, 164]);
    let (_, _, _, frame) = thermal_task_parts(0, 9 * 1024 * 1024);
    assert_eq!(frame.len(), 8 * 1024 * 1024);
    let (task_type, priority, memory, _) = thermal_task_parts(3, 64);
    assert_eq!((task_type, priority, memory), (TaskType::CHANGE_DETECTION, TaskPriority::MEDIUM, 128));
    let (task_type, priority, _, _) = thermal_task_parts(1, 64);
    assert_eq!((task_type, priority), (TaskType::CV_FEATURES, TaskPriority::HIGH));
}

#[test]
fn hitl_tasks_carry_deadline_and_slot() {
    let task = hitl_task(20, HitlWorkload::Baseline, 4096);
    assert_eq!(task.task_id, 21);
    assert_eq!(task.task_type, TaskType::VLM_QUERY);
    assert_eq!(task.deadline_ms, 1000);
    assert_eq!(task.pool_slot_id, 0);

    let task = hitl_task(8, HitlWorkload::Heavy, 1024);
    assert_eq!(task.task_type, TaskType::CHANGE_DETECTION);
    assert_eq!(task.deadline_ms, 250);
    assert_eq!(task.memory_estimate_mb, 128);
    assert_eq!(task.pool_slot_id, 3);
    assert_eq!(task.frame.len(), 1024);

    let task = hitl_task(12, HitlWorkload::Thermal, 64);
    assert_eq!(task.task_type, TaskType::VLM_QUERY);
    assert_eq!(task.frame.len(), 64);
}
