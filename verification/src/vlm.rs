use vstd::prelude::*;

use crate::types::{DecisionStatus, SchedulerState, TaskRequest, TaskType};

verus! {

/// Why the VLM gate reached its decision.
#[derive(Clone, Copy, Debug, PartialEq, Eq, Structural)]
pub enum VlmGateReason {
    NotVlm,
    GpuLeaseActive,
    InputTooLarge,
    MemoryPressure,
    ThermalPressure,
    HighLoad,
    Throttle,
    Degraded,
    CvBurstActive,
    AdmitQuantized,
}

/// A VLM gate decision and its reason.
#[derive(Clone, Copy, Debug, PartialEq, Eq, Structural)]
pub struct VlmGateDecision {
    pub status: DecisionStatus,
    pub reason: VlmGateReason,
}

/// What the runtime is told about the quantized model.
#[derive(Clone, Copy, Debug, PartialEq, Eq)]
pub struct VlmRuntimeMetadata {
    pub model_name: &'static str,
    pub quantization_bits: u32,
    pub max_output_tokens: u32,
}

/// The integer part of a quantized VLM profile: its name and its budgets.
#[derive(Clone, Copy, Debug, PartialEq, Eq)]
pub struct VlmModelLimits {
    pub model_name: &'static str,
    pub quantization_bits: u32,
    pub estimated_memory_mb: u64,
    pub max_input_bytes: u64,
    pub max_output_tokens: u32,
}

/// What the VLM gate reads of the current telemetry: the outcome of comparing
/// each reading with the profile's gates.
#[derive(Clone, Copy, Debug, PartialEq, Eq, Structural)]
pub struct VlmGates {
    /// Memory usage is strictly above the hard memory gate.
    pub memory_above_hard_gate: bool,
    /// Temperature is at or above the temperature gate.
    pub temperature_at_or_above_gate: bool,
    /// Memory usage is at or above the soft memory gate.
    pub memory_at_or_above_soft_gate: bool,
}

/// The decision of the VLM gate, checks taken in order: kind, lease, input
/// size, hard memory gate, scheduler state, temperature, soft memory gate,
/// CV burst.
pub open spec fn vlm_gate_outcome(
    task_type: TaskType,
    frame_len: nat,
    max_input_bytes: u64,
    gates: VlmGates,
    state: SchedulerState,
    gpu_lease_active: bool,
    cv_burst_active: bool,
) -> VlmGateDecision {
    if task_type != TaskType::VLM_QUERY {
        VlmGateDecision { status: DecisionStatus::ADMIT, reason: VlmGateReason::NotVlm }
    } else if gpu_lease_active {
        VlmGateDecision { status: DecisionStatus::DEFER, reason: VlmGateReason::GpuLeaseActive }
    } else if frame_len > max_input_bytes {
        VlmGateDecision { status: DecisionStatus::REJECT, reason: VlmGateReason::InputTooLarge }
    } else if gates.memory_above_hard_gate {
        VlmGateDecision { status: DecisionStatus::REJECT, reason: VlmGateReason::MemoryPressure }
    } else if state == SchedulerState::DEGRADED {
        VlmGateDecision { status: DecisionStatus::REJECT, reason: VlmGateReason::Degraded }
    } else if state == SchedulerState::THROTTLE {
        VlmGateDecision { status: DecisionStatus::REJECT, reason: VlmGateReason::Throttle }
    } else if state == SchedulerState::HIGH_LOAD {
        VlmGateDecision { status: DecisionStatus::DEFER, reason: VlmGateReason::HighLoad }
    } else if gates.temperature_at_or_above_gate {
        VlmGateDecision { status: DecisionStatus::DEFER, reason: VlmGateReason::ThermalPressure }
    } else if gates.memory_at_or_above_soft_gate {
        VlmGateDecision { status: DecisionStatus::DEFER, reason: VlmGateReason::MemoryPressure }
    } else if cv_burst_active {
        VlmGateDecision { status: DecisionStatus::DEFER, reason: VlmGateReason::CvBurstActive }
    } else {
        VlmGateDecision { status: DecisionStatus::ADMIT, reason: VlmGateReason::AdmitQuantized }
    }
}

impl VlmModelLimits {
    /// The default profile: a 4-bit model with an 8 MiB input budget.
    pub fn new() -> (limits: Self)
        ensures
            limits.model_name@ == "qwen2.5-vl-int4"@,
            limits.quantization_bits == 4,
            limits.estimated_memory_mb == 2304,
            limits.max_input_bytes == 8 * 1024 * 1024,
            limits.max_output_tokens == 128,
    {
        VlmModelLimits {
            model_name: "qwen2.5-vl-int4",
            quantization_bits: 4,
            estimated_memory_mb: 2304,
            max_input_bytes: 8 * 1024 * 1024,
            max_output_tokens: 128,
        }
    }

    /// The metadata handed to the runtime.
    pub fn runtime_metadata(self) -> (metadata: VlmRuntimeMetadata)
        ensures
            metadata.model_name == self.model_name,
            metadata.quantization_bits == self.quantization_bits,
            metadata.max_output_tokens == self.max_output_tokens,
    {
        VlmRuntimeMetadata {
            model_name: self.model_name,
            quantization_bits: self.quantization_bits,
            max_output_tokens: self.max_output_tokens,
        }
    }

    /// Decides whether a VLM query may run, and why.
    pub fn evaluate(
        self,
        task: &TaskRequest,
        gates: &VlmGates,
        state: SchedulerState,
        gpu_lease_active: bool,
        cv_burst_active: bool,
    ) -> (gate: VlmGateDecision)
        ensures
            gate == vlm_gate_outcome(
                task.task_type,
                task.frame@.len(),
                self.max_input_bytes,
                *gates,
                state,
                gpu_lease_active,
                cv_burst_active,
            ),
    {
        if task.task_type != TaskType::VLM_QUERY {
            return VlmGateDecision { status: DecisionStatus::ADMIT, reason: VlmGateReason::NotVlm };
        }
        if gpu_lease_active {
            return self.decision(DecisionStatus::DEFER, VlmGateReason::GpuLeaseActive);
        }
        if task.frame.len() as u64 > self.max_input_bytes {
            return self.decision(DecisionStatus::REJECT, VlmGateReason::InputTooLarge);
        }
        if gates.memory_above_hard_gate {
            return self.decision(DecisionStatus::REJECT, VlmGateReason::MemoryPressure);
        }
        match state {
            SchedulerState::DEGRADED => {
                return self.decision(DecisionStatus::REJECT, VlmGateReason::Degraded);
            },
            SchedulerState::THROTTLE => {
                return self.decision(DecisionStatus::REJECT, VlmGateReason::Throttle);
            },
            SchedulerState::HIGH_LOAD => {
                return self.decision(DecisionStatus::DEFER, VlmGateReason::HighLoad);
            },
            SchedulerState::NORMAL => {},
        }
        if gates.temperature_at_or_above_gate {
            return self.decision(DecisionStatus::DEFER, VlmGateReason::ThermalPressure);
        }
        if gates.memory_at_or_above_soft_gate {
            return self.decision(DecisionStatus::DEFER, VlmGateReason::MemoryPressure);
        }
        if cv_burst_active {
            return self.decision(DecisionStatus::DEFER, VlmGateReason::CvBurstActive);
        }
        self.decision(DecisionStatus::ADMIT, VlmGateReason::AdmitQuantized)
    }

    fn decision(self, status: DecisionStatus, reason: VlmGateReason) -> (gate: VlmGateDecision)
        ensures
            gate.status == status,
            gate.reason == reason,
    {
        VlmGateDecision { status, reason }
    }
}

impl Default for VlmModelLimits {
    fn default() -> (limits: Self)
        ensures
            limits.model_name@ == "qwen2.5-vl-int4"@,
            limits.quantization_bits == 4,
            limits.estimated_memory_mb == 2304,
            limits.max_input_bytes == 8 * 1024 * 1024,
            limits.max_output_tokens == 128,
    {
        VlmModelLimits::new()
    }
}

/// The text that names a gate reason in logs.
pub open spec fn reason_text(reason: VlmGateReason) -> Seq<char> {
    match reason {
        VlmGateReason::NotVlm => "not_vlm"@,
        VlmGateReason::GpuLeaseActive => "gpu_lease_active"@,
        VlmGateReason::InputTooLarge => "input_too_large"@,
        VlmGateReason::MemoryPressure => "memory_pressure"@,
        VlmGateReason::ThermalPressure => "thermal_pressure"@,
        VlmGateReason::HighLoad => "high_load"@,
        VlmGateReason::Throttle => "throttle"@,
        VlmGateReason::Degraded => "degraded"@,
        VlmGateReason::CvBurstActive => "cv_burst_active"@,
        VlmGateReason::AdmitQuantized => "admit_quantized"@,
    }
}

impl VlmGateReason {
    /// The reason's name in logs.
    pub fn as_str(self) -> (text: &'static str)
        ensures
            text@ == reason_text(self),
    {
        match self {
            VlmGateReason::NotVlm => "not_vlm",
            VlmGateReason::GpuLeaseActive => "gpu_lease_active",
            VlmGateReason::InputTooLarge => "input_too_large",
            VlmGateReason::MemoryPressure => "memory_pressure",
            VlmGateReason::ThermalPressure => "thermal_pressure",
            VlmGateReason::HighLoad => "high_load",
            VlmGateReason::Throttle => "throttle",
            VlmGateReason::Degraded => "degraded",
            VlmGateReason::CvBurstActive => "cv_burst_active",
            VlmGateReason::AdmitQuantized => "admit_quantized",
        }
    }
}

/// A VLM query is never admitted outside the NORMAL state, and in the
/// THROTTLE and DEGRADED states it is rejected unless a lease defers it.
pub proof fn lemma_vlm_gate_never_admits_outside_normal(
    frame_len: nat,
    max_input_bytes: u64,
    gates: VlmGates,
    state: SchedulerState,
    gpu_lease_active: bool,
    cv_burst_active: bool,
)
    requires
        state != SchedulerState::NORMAL,
    ensures
        vlm_gate_outcome(TaskType::VLM_QUERY, frame_len, max_input_bytes, gates, state, gpu_lease_active, cv_burst_active).status
            != DecisionStatus::ADMIT,
        (state == SchedulerState::THROTTLE || state == SchedulerState::DEGRADED) && !gpu_lease_active
            ==> vlm_gate_outcome(TaskType::VLM_QUERY, frame_len, max_input_bytes, gates, state, gpu_lease_active, cv_burst_active).status
            == DecisionStatus::REJECT,
{
}

/// Tasks that are not VLM queries are admitted by the VLM gate with reason NotVlm.
pub proof fn lemma_vlm_gate_admits_other_tasks(
    task_type: TaskType,
    frame_len: nat,
    max_input_bytes: u64,
    gates: VlmGates,
    state: SchedulerState,
    gpu_lease_active: bool,
    cv_burst_active: bool,
)
    requires
        task_type != TaskType::VLM_QUERY,
    ensures
        vlm_gate_outcome(task_type, frame_len, max_input_bytes, gates, state, gpu_lease_active, cv_burst_active)
            == (VlmGateDecision { status: DecisionStatus::ADMIT, reason: VlmGateReason::NotVlm }),
{
}

/// The VLM gate admits a VLM query exactly when none of its conditions holds, and then the
/// reason is AdmitQuantized.
pub proof fn lemma_vlm_gate_admits_only_when_all_clear(
    frame_len: nat,
    max_input_bytes: u64,
    gates: VlmGates,
    state: SchedulerState,
    gpu_lease_active: bool,
    cv_burst_active: bool,
)
    ensures
        vlm_gate_outcome(TaskType::VLM_QUERY, frame_len, max_input_bytes, gates, state, gpu_lease_active, cv_burst_active).status
            == DecisionStatus::ADMIT <==> (!gpu_lease_active && frame_len <= max_input_bytes
            && !gates.memory_above_hard_gate && state == SchedulerState::NORMAL
            && !gates.temperature_at_or_above_gate && !gates.memory_at_or_above_soft_gate
            && !cv_burst_active),
        vlm_gate_outcome(TaskType::VLM_QUERY, frame_len, max_input_bytes, gates, state, gpu_lease_active, cv_burst_active).status
            == DecisionStatus::ADMIT ==> vlm_gate_outcome(TaskType::VLM_QUERY, frame_len, max_input_bytes, gates, state, gpu_lease_active, cv_burst_active).reason
            == VlmGateReason::AdmitQuantized,
{
}

/// The first and third letters of each reason's name.
spec fn reason_text_key(reason: VlmGateReason) -> (char, char) {
    match reason {
        VlmGateReason::NotVlm => ('n', 't'),
        VlmGateReason::GpuLeaseActive => ('g', 'u'),
        VlmGateReason::InputTooLarge => ('i', 'p'),
        VlmGateReason::MemoryPressure => ('m', 'm'),
        VlmGateReason::ThermalPressure => ('t', 'e'),
        VlmGateReason::HighLoad => ('h', 'g'),
        VlmGateReason::Throttle => ('t', 'r'),
        VlmGateReason::Degraded => ('d', 'g'),
        VlmGateReason::CvBurstActive => ('c', '_'),
        VlmGateReason::AdmitQuantized => ('a', 'm'),
    }
}

proof fn lemma_reason_text_key(reason: VlmGateReason)
    ensures
        reason_text(reason).len() > 2,
        (reason_text(reason)[0], reason_text(reason)[2]) == reason_text_key(reason),
{
    match reason {
        VlmGateReason::NotVlm => reveal_strlit("not_vlm"),
        VlmGateReason::GpuLeaseActive => reveal_strlit("gpu_lease_active"),
        VlmGateReason::InputTooLarge => reveal_strlit("input_too_large"),
        VlmGateReason::MemoryPressure => reveal_strlit("memory_pressure"),
        VlmGateReason::ThermalPressure => reveal_strlit("thermal_pressure"),
        VlmGateReason::HighLoad => reveal_strlit("high_load"),
        VlmGateReason::Throttle => reveal_strlit("throttle"),
        VlmGateReason::Degraded => reveal_strlit("degraded"),
        VlmGateReason::CvBurstActive => reveal_strlit("cv_burst_active"),
        VlmGateReason::AdmitQuantized => reveal_strlit("admit_quantized"),
    }
}

/// Each reason has its own name.
pub proof fn lemma_reason_text_injective(a: VlmGateReason, b: VlmGateReason)
    requires
        reason_text(a) == reason_text(b),
    ensures
        a == b,
{
    lemma_reason_text_key(a);
    lemma_reason_text_key(b);
}

} // verus!
