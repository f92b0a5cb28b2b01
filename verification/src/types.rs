use vstd::prelude::*;

verus! {

/// The kind of work a task asks the runtime to perform.
#[allow(non_camel_case_types)]
#[derive(Clone, Copy, Debug, PartialEq, Eq, Structural)]
pub enum TaskType {
    CV_FEATURES,
    CHANGE_DETECTION,
    VLM_QUERY,
}

/// Scheduling priority of a task.
#[allow(non_camel_case_types)]
#[derive(Clone, Copy, Debug, PartialEq, Eq, Structural)]
pub enum TaskPriority {
    HIGH,
    MEDIUM,
    LOW,
}

/// A unit of work offered to the admission controller.
#[derive(Clone, Debug, PartialEq, Eq)]
pub struct TaskRequest {
    pub task_id: u64,
    pub task_type: TaskType,
    pub priority: TaskPriority,
    pub memory_estimate_mb: u64,
    pub deadline_ms: u64,
    pub pool_slot_id: usize,
    pub frame: Vec<u8>,
}

/// The outcome of an admission decision.
#[allow(non_camel_case_types)]
#[derive(Clone, Copy, Debug, PartialEq, Eq, Structural)]
pub enum DecisionStatus {
    ADMIT,
    DEFER,
    REJECT,
}

/// An admission decision together with the lease duration it grants.
#[derive(Clone, Copy, Debug, PartialEq, Eq, Structural)]
pub struct Decision {
    pub status: DecisionStatus,
    pub lease_duration_ms: u64,
}

/// The scheduler's operating mode, from least to most severe.
#[allow(non_camel_case_types)]
#[derive(Clone, Copy, Debug, PartialEq, Eq, Structural)]
pub enum SchedulerState {
    NORMAL,
    HIGH_LOAD,
    THROTTLE,
    DEGRADED,
}

/// A telemetry reading in tenths: memory use in tenths of a percent,
/// temperature in tenths of a degree Celsius, GPU utilization in tenths of a
/// percent.
#[derive(Clone, Copy, Debug, PartialEq, Eq, Structural)]
pub struct TelemetryTenths {
    pub memory_deci_percent: u32,
    pub temperature_deci_c: u32,
    pub gpu_deci_percent: u32,
}

/// The reading of an idle, cool board: 40 % memory, 45 degrees, idle GPU.
pub open spec fn nominal_sample() -> TelemetryTenths {
    TelemetryTenths { memory_deci_percent: 400, temperature_deci_c: 450, gpu_deci_percent: 0 }
}

impl TelemetryTenths {
    /// The reading of an idle, cool board: 40 % memory, 45 degrees, idle GPU.
    pub fn nominal() -> (sample: Self)
        ensures
            sample == nominal_sample(),
    {
        TelemetryTenths { memory_deci_percent: 400, temperature_deci_c: 450, gpu_deci_percent: 0 }
    }
}

} // verus!
