use vstd::prelude::*;

use std::path::PathBuf;

use vstd::string::*;

use crate::frames::{filled, filled_frame};
use crate::observability::{path_from, path_from_text};
use crate::model_backend::RealModelBackend;
use crate::text::str_equal;
use crate::types::{nominal_sample, TaskPriority, TaskRequest, TaskType, TelemetryTenths};

verus! {

/// The synthetic workload a benchmark run replays.
#[derive(Clone, Copy, Debug, PartialEq, Eq, Structural)]
pub enum StressMode {
    CvFlood,
    VlmBurst,
    ThermalSpike,
    MixedContention,
    ChangeDetection,
    VlmQuery,
    Phase6Contention,
    Phase8Optimization,
}

/// The word that names a stress mode.
pub open spec fn stress_mode_text(mode: StressMode) -> Seq<char> {
    match mode {
        StressMode::CvFlood => "cv-flood"@,
        StressMode::VlmBurst => "vlm-burst"@,
        StressMode::ThermalSpike => "thermal-spike"@,
        StressMode::MixedContention => "mixed-contention"@,
        StressMode::ChangeDetection => "change-detection"@,
        StressMode::VlmQuery => "vlm-query"@,
        StressMode::Phase6Contention => "phase6-contention"@,
        StressMode::Phase8Optimization => "phase8-optimization"@,
    }
}

/// The stress mode a word names, if any.
pub open spec fn stress_mode_named(text: Seq<char>) -> Option<StressMode> {
    if text == "cv-flood"@ {
        Some(StressMode::CvFlood)
    } else if text == "vlm-burst"@ {
        Some(StressMode::VlmBurst)
    } else if text == "thermal-spike"@ {
        Some(StressMode::ThermalSpike)
    } else if text == "mixed-contention"@ {
        Some(StressMode::MixedContention)
    } else if text == "change-detection"@ {
        Some(StressMode::ChangeDetection)
    } else if text == "vlm-query"@ {
        Some(StressMode::VlmQuery)
    } else if text == "phase6-contention"@ {
        Some(StressMode::Phase6Contention)
    } else if text == "phase8-optimization"@ {
        Some(StressMode::Phase8Optimization)
    } else {
        None
    }
}

/// Reads a stress mode from its name.
pub fn parse_mode(value: &str) -> (mode: Option<StressMode>)
    ensures
        mode == stress_mode_named(value@),
{
    if str_equal(value, "cv-flood") {
        Some(StressMode::CvFlood)
    } else if str_equal(value, "vlm-burst") {
        Some(StressMode::VlmBurst)
    } else if str_equal(value, "thermal-spike") {
        Some(StressMode::ThermalSpike)
    } else if str_equal(value, "mixed-contention") {
        Some(StressMode::MixedContention)
    } else if str_equal(value, "change-detection") {
        Some(StressMode::ChangeDetection)
    } else if str_equal(value, "vlm-query") {
        Some(StressMode::VlmQuery)
    } else if str_equal(value, "phase6-contention") {
        Some(StressMode::Phase6Contention)
    } else if str_equal(value, "phase8-optimization") {
        Some(StressMode::Phase8Optimization)
    } else {
        None
    }
}

/// The name of a stress mode.
pub fn mode_name(mode: StressMode) -> (name: &'static str)
    ensures
        name@ == stress_mode_text(mode),
{
    match mode {
        StressMode::CvFlood => "cv-flood",
        StressMode::VlmBurst => "vlm-burst",
        StressMode::ThermalSpike => "thermal-spike",
        StressMode::MixedContention => "mixed-contention",
        StressMode::ChangeDetection => "change-detection",
        StressMode::VlmQuery => "vlm-query",
        StressMode::Phase6Contention => "phase6-contention",
        StressMode::Phase8Optimization => "phase8-optimization",
    }
}

/// Reading a stress mode's name gives the mode back.
pub proof fn lemma_stress_mode_name_round_trip(mode: StressMode)
    ensures
        stress_mode_named(stress_mode_text(mode)) == Some(mode),
{
    reveal_strlit("cv-flood");
    reveal_strlit("vlm-burst");
    reveal_strlit("thermal-spike");
    reveal_strlit("mixed-contention");
    reveal_strlit("change-detection");
    reveal_strlit("vlm-query");
    reveal_strlit("phase6-contention");
    reveal_strlit("phase8-optimization");
    assert("vlm-burst"@[4] != "vlm-query"@[4]);
    assert("mixed-contention"@[0] != "change-detection"@[0]);
    assert("cv-flood"@.len() != "vlm-burst"@.len());
    assert("thermal-spike"@.len() != "mixed-contention"@.len());
    assert("phase6-contention"@.len() != "phase8-optimization"@.len());
}

/// Where a benchmark run in `mode` logs its events as JSON lines.
pub fn sitl_jsonl_path(mode: StressMode) -> (path: PathBuf)
    ensures
        path == path_from_text("logs/sitl-"@ + stress_mode_text(mode) + ".jsonl"@),
{
    let mut text = String::from_str("logs/sitl-");
    text.append(mode_name(mode));
    text.append(".jsonl");
    path_from(text.as_str())
}

/// Where a benchmark run in `mode` logs its events as CSV rows.
pub fn sitl_csv_path(mode: StressMode) -> (path: PathBuf)
    ensures
        path == path_from_text("logs/sitl-"@ + stress_mode_text(mode) + ".csv"@),
{
    let mut text = String::from_str("logs/sitl-");
    text.append(mode_name(mode));
    text.append(".csv");
    path_from(text.as_str())
}

/// The pause between tasks of a stress mode, in milliseconds.
pub open spec fn mode_delay_ms(mode: StressMode) -> u64 {
    match mode {
        StressMode::CvFlood => 20,
        StressMode::VlmBurst => 100,
        StressMode::ThermalSpike => 50,
        StressMode::MixedContention => 25,
        StressMode::ChangeDetection => 40,
        StressMode::VlmQuery => 100,
        StressMode::Phase6Contention => 10,
        StressMode::Phase8Optimization => 15,
    }
}

/// The pause between tasks of a stress mode, in milliseconds.
pub fn mode_delay(mode: StressMode) -> (delay_ms: Option<u64>)
    ensures
        delay_ms == Some(mode_delay_ms(mode)),
{
    match mode {
        StressMode::CvFlood => Some(20),
        StressMode::VlmBurst => Some(100),
        StressMode::ThermalSpike => Some(50),
        StressMode::MixedContention => Some(25),
        StressMode::ChangeDetection => Some(40),
        StressMode::VlmQuery => Some(100),
        StressMode::Phase6Contention => Some(10),
        StressMode::Phase8Optimization => Some(15),
    }
}

/// The reading a benchmark run in `mode` reports before task `index` of
/// `tasks`, in tenths: VLM bursts come with memory pressure, a thermal spike
/// heats the second half of the run, mixed contention adds periodic memory
/// and heat spikes, and the optimization workload drifts upward.
pub open spec fn synthetic_sample(mode: StressMode, index: usize, tasks: usize) -> TelemetryTenths {
    match mode {
        StressMode::VlmBurst => if index % 5 == 0 {
            TelemetryTenths { memory_deci_percent: 860, temperature_deci_c: 600, gpu_deci_percent: 250 }
        } else {
            nominal_sample()
        },
        StressMode::ThermalSpike => if index >= tasks / 2 {
            TelemetryTenths { memory_deci_percent: 550, temperature_deci_c: 850, gpu_deci_percent: 900 }
        } else {
            nominal_sample()
        },
        StressMode::MixedContention => TelemetryTenths {
            memory_deci_percent: if index % 11 == 0 { 860 } else { 620 },
            temperature_deci_c: if index % 7 == 0 { 820 } else { 580 },
            gpu_deci_percent: 700,
        },
        StressMode::Phase8Optimization => TelemetryTenths {
            memory_deci_percent: if index % 13 == 0 { 830 } else { (560 + (index % 10) * 10) as u32 },
            temperature_deci_c: if index > tasks / 2 {
                (700 + (index % 12) * 10) as u32
            } else {
                (580 + (index % 8) * 10) as u32
            },
            gpu_deci_percent: 720,
        },
        _ => nominal_sample(),
    }
}

/// The telemetry a benchmark run in `mode` reports before task `index` of `tasks`.
pub fn synthetic_telemetry(mode: StressMode, index: usize, tasks: usize) -> (sample: TelemetryTenths)
    ensures
        sample == synthetic_sample(mode, index, tasks),
{
    match mode {
        StressMode::VlmBurst => {
            if index % 5 == 0 {
                TelemetryTenths { memory_deci_percent: 860, temperature_deci_c: 600, gpu_deci_percent: 250 }
            } else {
                TelemetryTenths::nominal()
            }
        },
        StressMode::ThermalSpike => {
            if index >= tasks / 2 {
                TelemetryTenths { memory_deci_percent: 550, temperature_deci_c: 850, gpu_deci_percent: 900 }
            } else {
                TelemetryTenths::nominal()
            }
        },
        StressMode::MixedContention => {
            let memory_deci_percent: u32 = if index % 11 == 0 { 860 } else { 620 };
            let temperature_deci_c: u32 = if index % 7 == 0 { 820 } else { 580 };
            TelemetryTenths { memory_deci_percent, temperature_deci_c, gpu_deci_percent: 700 }
        },
        StressMode::Phase8Optimization => {
            let memory_deci_percent: u32 = if index % 13 == 0 {
                830
            } else {
                560 + (index % 10) as u32 * 10
            };
            let temperature_deci_c: u32 = if index > tasks / 2 {
                700 + (index % 12) as u32 * 10
            } else {
                580 + (index % 8) as u32 * 10
            };
            TelemetryTenths { memory_deci_percent, temperature_deci_c, gpu_deci_percent: 720 }
        },
        _ => TelemetryTenths::nominal(),
    }
}

/// A pseudo-random bucket in 0..4 for a task index (a linear congruential step).
pub fn deterministic_bucket(index: usize) -> (bucket: usize)
    ensures
        bucket == (index.wrapping_mul(1_103_515_245).wrapping_add(12_345) / 65_536) % 4,
        bucket < 4,
{
    (index.wrapping_mul(1_103_515_245).wrapping_add(12_345) / 65_536) % 4
}

/// The byte that fills a change-detection frame: a stable baseline, then a
/// bright frame every third index.
pub open spec fn change_frame_value(index: nat) -> u8 {
    if index < 2 {
        16
    } else if index % 3 == 0 {
        220
    } else {
        32
    }
}

/// A change-detection frame of 1024 bytes.
pub fn synthetic_change_frame(index: usize) -> (frame: Vec<u8>)
    ensures
        frame@ == filled_frame(change_frame_value(index as nat), 1024),
{
    let value: u8 = if index < 2 {
        16
    } else if index % 3 == 0 {
        220
    } else {
        32
    };
    filled(value, 1024)
}

/// The kind, priority and memory estimate of a benchmark task.
pub open spec fn synthetic_kind(mode: StressMode, index: usize) -> (TaskType, TaskPriority, u64) {
    let cv_medium = (TaskType::CV_FEATURES, TaskPriority::MEDIUM, 32u64);
    match mode {
        StressMode::CvFlood => cv_medium,
        StressMode::VlmBurst => if index % 5 == 0 {
            (TaskType::VLM_QUERY, TaskPriority::HIGH, 2304u64)
        } else {
            cv_medium
        },
        StressMode::ThermalSpike => if index % 3 == 0 {
            (TaskType::VLM_QUERY, TaskPriority::LOW, 2304u64)
        } else {
            cv_medium
        },
        StressMode::MixedContention => {
            let bucket = (index.wrapping_mul(1_103_515_245).wrapping_add(12_345) / 65_536) % 4;
            if bucket == 0 {
                (TaskType::CV_FEATURES, TaskPriority::HIGH, 32u64)
            } else if bucket == 1 {
                (TaskType::CHANGE_DETECTION, TaskPriority::MEDIUM, 64u64)
            } else if bucket == 2 {
                (TaskType::VLM_QUERY, TaskPriority::LOW, 2304u64)
            } else {
                (TaskType::CV_FEATURES, TaskPriority::LOW, 32u64)
            }
        },
        StressMode::ChangeDetection => (TaskType::CHANGE_DETECTION, TaskPriority::MEDIUM, 64u64),
        StressMode::VlmQuery => (TaskType::VLM_QUERY, TaskPriority::LOW, 2304u64),
        StressMode::Phase6Contention => cv_medium,
        StressMode::Phase8Optimization => {
            let bucket = (index.wrapping_mul(1_103_515_245).wrapping_add(12_345) / 65_536) % 4;
            if bucket == 0 {
                (TaskType::CV_FEATURES, TaskPriority::HIGH, 32u64)
            } else if bucket == 1 {
                (TaskType::CHANGE_DETECTION, TaskPriority::MEDIUM, 64u64)
            } else if bucket == 2 {
                (TaskType::CV_FEATURES, TaskPriority::LOW, 32u64)
            } else {
                (TaskType::VLM_QUERY, TaskPriority::LOW, 2304u64)
            }
        },
    }
}

/// The frame of a benchmark task.
pub open spec fn synthetic_frame(mode: StressMode, index: usize, task_type: TaskType) -> Seq<u8> {
    match mode {
        StressMode::ChangeDetection => filled_frame(change_frame_value(index as nat), 1024),
        StressMode::VlmQuery => filled_frame((32 + index % 64) as u8, 1024),
        StressMode::Phase8Optimization => match task_type {
            TaskType::CHANGE_DETECTION => filled_frame(change_frame_value(index as nat), 1024),
            TaskType::VLM_QUERY => filled_frame((64 + index % 32) as u8, 4096),
            TaskType::CV_FEATURES => filled_frame((1 + index % 16) as u8, 4096),
        },
        _ => filled_frame(1, 1024),
    }
}

/// The `index`-th task of a benchmark run in `mode`.
pub fn synthetic_task(mode: StressMode, index: usize) -> (task: TaskRequest)
    requires
        mode != StressMode::Phase6Contention,
        index < u64::MAX,
    ensures
        task.task_id == index + 1,
        (task.task_type, task.priority, task.memory_estimate_mb) == synthetic_kind(mode, index),
        task.deadline_ms == 250,
        task.pool_slot_id == index % 5,
        task.frame@ == synthetic_frame(mode, index, task.task_type),
{
    let (task_type, priority, memory_estimate_mb) = match mode {
        StressMode::CvFlood => (TaskType::CV_FEATURES, TaskPriority::MEDIUM, 32u64),
        StressMode::VlmBurst => {
            if index % 5 == 0 {
                (TaskType::VLM_QUERY, TaskPriority::HIGH, 2304u64)
            } else {
                (TaskType::CV_FEATURES, TaskPriority::MEDIUM, 32u64)
            }
        },
        StressMode::ThermalSpike => {
            if index % 3 == 0 {
                (TaskType::VLM_QUERY, TaskPriority::LOW, 2304u64)
            } else {
                (TaskType::CV_FEATURES, TaskPriority::MEDIUM, 32u64)
            }
        },
        StressMode::MixedContention => {
            let bucket = deterministic_bucket(index);
            if bucket == 0 {
                (TaskType::CV_FEATURES, TaskPriority::HIGH, 32u64)
            } else if bucket == 1 {
                (TaskType::CHANGE_DETECTION, TaskPriority::MEDIUM, 64u64)
            } else if bucket == 2 {
                (TaskType::VLM_QUERY, TaskPriority::LOW, 2304u64)
            } else {
                (TaskType::CV_FEATURES, TaskPriority::LOW, 32u64)
            }
        },
        StressMode::ChangeDetection => (TaskType::CHANGE_DETECTION, TaskPriority::MEDIUM, 64u64),
        StressMode::VlmQuery => (TaskType::VLM_QUERY, TaskPriority::LOW, 2304u64),
        StressMode::Phase6Contention => (TaskType::CV_FEATURES, TaskPriority::MEDIUM, 32u64),
        StressMode::Phase8Optimization => {
            let bucket = deterministic_bucket(index);
            if bucket == 0 {
                (TaskType::CV_FEATURES, TaskPriority::HIGH, 32u64)
            } else if bucket == 1 {
                (TaskType::CHANGE_DETECTION, TaskPriority::MEDIUM, 64u64)
            } else if bucket == 2 {
                (TaskType::CV_FEATURES, TaskPriority::LOW, 32u64)
            } else {
                (TaskType::VLM_QUERY, TaskPriority::LOW, 2304u64)
            }
        },
    };
    let frame = match mode {
        StressMode::ChangeDetection => synthetic_change_frame(index),
        StressMode::VlmQuery => filled(32 + (index % 64) as u8, 1024),
        StressMode::Phase8Optimization => match task_type {
            TaskType::CHANGE_DETECTION => synthetic_change_frame(index),
            TaskType::VLM_QUERY => filled(64 + (index % 32) as u8, 4096),
            TaskType::CV_FEATURES => filled(1 + (index % 16) as u8, 4096),
        },
        _ => filled(1, 1024),
    };
    TaskRequest {
        task_id: index as u64 + 1,
        task_type,
        priority,
        memory_estimate_mb,
        deadline_ms: 250,
        pool_slot_id: index % 5,
        frame,
    }
}

/// The kind, priority and memory estimate of the contention workload's tasks.
pub open spec fn phase6_kind(index: usize) -> (TaskType, TaskPriority, u64) {
    let r = index % 6;
    if r == 0 {
        (TaskType::VLM_QUERY, TaskPriority::LOW, 2304u64)
    } else if r == 1 || r == 2 {
        (TaskType::CV_FEATURES, TaskPriority::HIGH, 32u64)
    } else if r == 3 {
        (TaskType::CHANGE_DETECTION, TaskPriority::MEDIUM, 64u64)
    } else {
        (TaskType::CV_FEATURES, TaskPriority::MEDIUM, 32u64)
    }
}

/// The `index`-th task of the contention workload.
pub fn phase6_task(index: usize) -> (task: TaskRequest)
    requires
        index < u64::MAX,
    ensures
        task.task_id == index + 1,
        (task.task_type, task.priority, task.memory_estimate_mb) == phase6_kind(index),
        task.deadline_ms == (if task.task_type == TaskType::VLM_QUERY { 1000u64 } else { 250u64 }),
        task.pool_slot_id == index % 5,
        task.frame@ == match task.task_type {
            TaskType::CHANGE_DETECTION => filled_frame(change_frame_value(index as nat), 1024),
            TaskType::VLM_QUERY => filled_frame((48 + index % 64) as u8, 2048),
            TaskType::CV_FEATURES => filled_frame((1 + index % 8) as u8, 2048),
        },
{
    let r = index % 6;
    let (task_type, priority, memory_estimate_mb) = if r == 0 {
        (TaskType::VLM_QUERY, TaskPriority::LOW, 2304u64)
    } else if r == 1 || r == 2 {
        (TaskType::CV_FEATURES, TaskPriority::HIGH, 32u64)
    } else if r == 3 {
        (TaskType::CHANGE_DETECTION, TaskPriority::MEDIUM, 64u64)
    } else {
        (TaskType::CV_FEATURES, TaskPriority::MEDIUM, 32u64)
    };
    let frame = match task_type {
        TaskType::CHANGE_DETECTION => synthetic_change_frame(index),
        TaskType::VLM_QUERY => filled(48 + (index % 64) as u8, 2048),
        TaskType::CV_FEATURES => filled(1 + (index % 8) as u8, 2048),
    };
    TaskRequest {
        task_id: index as u64 + 1,
        task_type,
        priority,
        memory_estimate_mb,
        deadline_ms: if task_type == TaskType::VLM_QUERY {
            1000
        } else {
            250
        },
        pool_slot_id: index % 5,
        frame,
    }
}

/// The workload an edge node run gives its ingested frames.
#[derive(Clone, Copy, Debug, PartialEq, Eq, Structural)]
pub enum WorkloadMode {
    Cv,
    ChangeDetection,
    Vlm,
    Alternating,
}

/// The workload a word names, if any.
pub open spec fn workload_mode_named(text: Seq<char>) -> Option<WorkloadMode> {
    if text == "cv"@ {
        Some(WorkloadMode::Cv)
    } else if text == "change-detection"@ {
        Some(WorkloadMode::ChangeDetection)
    } else if text == "vlm"@ {
        Some(WorkloadMode::Vlm)
    } else if text == "alternating"@ {
        Some(WorkloadMode::Alternating)
    } else {
        None
    }
}

/// Reads a workload mode: `cv`, `change-detection`, `vlm` or `alternating`.
pub fn parse_workload_mode(value: &str) -> (mode: Option<WorkloadMode>)
    ensures
        mode == workload_mode_named(value@),
{
    if str_equal(value, "cv") {
        Some(WorkloadMode::Cv)
    } else if str_equal(value, "change-detection") {
        Some(WorkloadMode::ChangeDetection)
    } else if str_equal(value, "vlm") {
        Some(WorkloadMode::Vlm)
    } else if str_equal(value, "alternating") {
        Some(WorkloadMode::Alternating)
    } else {
        None
    }
}

/// The task type a workload gives the task with identifier `task_id`: the
/// alternating workload makes every third task a VLM query and every other
/// even one a change detection.
pub open spec fn workload_task_type(workload: WorkloadMode, task_id: u64) -> TaskType {
    match workload {
        WorkloadMode::Cv => TaskType::CV_FEATURES,
        WorkloadMode::ChangeDetection => TaskType::CHANGE_DETECTION,
        WorkloadMode::Vlm => TaskType::VLM_QUERY,
        WorkloadMode::Alternating => if task_id % 3 == 0 {
            TaskType::VLM_QUERY
        } else if task_id % 2 == 0 {
            TaskType::CHANGE_DETECTION
        } else {
            TaskType::CV_FEATURES
        },
    }
}

/// Gives an ingested task the type its workload asks for; a VLM query also
/// becomes LOW priority, with the VLM memory estimate and a one second deadline.
pub fn apply_workload(task: &mut TaskRequest, workload: WorkloadMode)
    ensures
        final(task).task_type == workload_task_type(workload, old(task).task_id),
        final(task).task_id == old(task).task_id,
        final(task).pool_slot_id == old(task).pool_slot_id,
        final(task).frame == old(task).frame,
        final(task).task_type == TaskType::VLM_QUERY ==> final(task).priority == TaskPriority::LOW
            && final(task).memory_estimate_mb == 2304 && final(task).deadline_ms == 1000,
        final(task).task_type != TaskType::VLM_QUERY ==> final(task).priority == old(task).priority
            && final(task).memory_estimate_mb == old(task).memory_estimate_mb
            && final(task).deadline_ms == old(task).deadline_ms,
{
    task.task_type = match workload {
        WorkloadMode::Cv => TaskType::CV_FEATURES,
        WorkloadMode::ChangeDetection => TaskType::CHANGE_DETECTION,
        WorkloadMode::Vlm => TaskType::VLM_QUERY,
        WorkloadMode::Alternating => {
            if task.task_id % 3 == 0 {
                TaskType::VLM_QUERY
            } else if task.task_id % 2 == 0 {
                TaskType::CHANGE_DETECTION
            } else {
                TaskType::CV_FEATURES
            }
        },
    };
    if task.task_type == TaskType::VLM_QUERY {
        task.priority = TaskPriority::LOW;
        task.memory_estimate_mb = 2304;
        task.deadline_ms = 1000;
    }
}

/// The `index`-th task of a real model run: a LOW priority VLM query for the
/// VLM backend, a HIGH priority CV task otherwise.
pub fn real_model_task(index: usize, backend: RealModelBackend) -> (task: TaskRequest)
    requires
        index < u64::MAX,
    ensures
        task.task_id == index + 1,
        task.task_type == (if backend == RealModelBackend::SmolVlmCuda {
            TaskType::VLM_QUERY
        } else {
            TaskType::CV_FEATURES
        }),
        task.task_type == TaskType::VLM_QUERY ==> task.priority == TaskPriority::LOW
            && task.memory_estimate_mb == 2304 && task.deadline_ms == 5000,
        task.task_type == TaskType::CV_FEATURES ==> task.priority == TaskPriority::HIGH
            && task.memory_estimate_mb == 512 && task.deadline_ms == 1000,
        task.pool_slot_id == index % 5,
        task.frame@ == filled_frame(1, 1024),
{
    let task_type = if backend == RealModelBackend::SmolVlmCuda {
        TaskType::VLM_QUERY
    } else {
        TaskType::CV_FEATURES
    };
    let vlm = task_type == TaskType::VLM_QUERY;
    TaskRequest {
        task_id: index as u64 + 1,
        task_type,
        priority: if vlm {
            TaskPriority::LOW
        } else {
            TaskPriority::HIGH
        },
        memory_estimate_mb: if vlm {
            2304
        } else {
            512
        },
        deadline_ms: if vlm {
            5000
        } else {
            1000
        },
        pool_slot_id: index % 5,
        frame: filled(1, 1024),
    }
}

} // verus!
