use vstd::prelude::*;

use crate::types::{DecisionStatus, SchedulerState, TaskType};
use crate::vlm::{VlmGateDecision, VlmGateReason};

verus! {

/// How many telemetry samples found the scheduler in each loaded state.
#[derive(Clone, Copy, Debug, Default, PartialEq, Eq, Structural)]
pub struct StateSampleCounts {
    pub high_load_samples: usize,
    pub throttle_samples: usize,
    pub degraded_samples: usize,
}

impl StateSampleCounts {
    /// Counts one sample in `state`; NORMAL samples are not counted.
    pub fn record(&mut self, state: SchedulerState)
        requires
            old(self).high_load_samples < usize::MAX,
            old(self).throttle_samples < usize::MAX,
            old(self).degraded_samples < usize::MAX,
        ensures
            final(self).high_load_samples == old(self).high_load_samples + (if state == SchedulerState::HIGH_LOAD { 1int } else { 0int }),
            final(self).throttle_samples == old(self).throttle_samples + (if state == SchedulerState::THROTTLE { 1int } else { 0int }),
            final(self).degraded_samples == old(self).degraded_samples + (if state == SchedulerState::DEGRADED { 1int } else { 0int }),
    {
        match state {
            SchedulerState::HIGH_LOAD => self.high_load_samples = self.high_load_samples + 1,
            SchedulerState::THROTTLE => self.throttle_samples = self.throttle_samples + 1,
            SchedulerState::DEGRADED => self.degraded_samples = self.degraded_samples + 1,
            SchedulerState::NORMAL => {},
        }
    }
}

/// How the VLM queries of a run were decided.
#[derive(Clone, Copy, Debug, Default, PartialEq, Eq, Structural)]
pub struct VlmDecisionCounts {
    pub vlm_admitted: usize,
    pub vlm_deferred: usize,
    pub vlm_rejected: usize,
    pub vlm_thermal_pressure_deferrals: usize,
    pub vlm_memory_pressure_decisions: usize,
}

/// Whether the VLM gate decided for the given reason.
pub open spec fn gate_reason_is(gate: Option<VlmGateDecision>, reason: VlmGateReason) -> bool {
    match gate {
        Some(g) => g.reason == reason,
        None => false,
    }
}

impl VlmDecisionCounts {
    /// Counts the decision on a task: only VLM queries count, once by their
    /// status, and once more when the VLM gate gave thermal or memory
    /// pressure as its reason.
    pub fn record(&mut self, task_type: TaskType, decision: DecisionStatus, vlm_gate: Option<VlmGateDecision>)
        requires
            old(self).vlm_admitted < usize::MAX,
            old(self).vlm_deferred < usize::MAX,
            old(self).vlm_rejected < usize::MAX,
            old(self).vlm_thermal_pressure_deferrals < usize::MAX,
            old(self).vlm_memory_pressure_decisions < usize::MAX,
        ensures
            task_type != TaskType::VLM_QUERY ==> *final(self) == *old(self),
            task_type == TaskType::VLM_QUERY ==> {
                &&& final(self).vlm_admitted == old(self).vlm_admitted + (if decision == DecisionStatus::ADMIT { 1int } else { 0int })
                &&& final(self).vlm_deferred == old(self).vlm_deferred + (if decision == DecisionStatus::DEFER { 1int } else { 0int })
                &&& final(self).vlm_rejected == old(self).vlm_rejected + (if decision == DecisionStatus::REJECT { 1int } else { 0int })
                &&& final(self).vlm_thermal_pressure_deferrals == old(self).vlm_thermal_pressure_deferrals
                    + (if gate_reason_is(vlm_gate, VlmGateReason::ThermalPressure) { 1int } else { 0int })
                &&& final(self).vlm_memory_pressure_decisions == old(self).vlm_memory_pressure_decisions
                    + (if gate_reason_is(vlm_gate, VlmGateReason::MemoryPressure) { 1int } else { 0int })
            },
    {
        if task_type != TaskType::VLM_QUERY {
            return;
        }
        match decision {
            DecisionStatus::ADMIT => self.vlm_admitted = self.vlm_admitted + 1,
            DecisionStatus::DEFER => self.vlm_deferred = self.vlm_deferred + 1,
            DecisionStatus::REJECT => self.vlm_rejected = self.vlm_rejected + 1,
        }
        let thermal = match vlm_gate {
            Some(gate) => gate.reason == VlmGateReason::ThermalPressure,
            None => false,
        };
        if thermal {
            self.vlm_thermal_pressure_deferrals = self.vlm_thermal_pressure_deferrals + 1;
        }
        let memory = match vlm_gate {
            Some(gate) => gate.reason == VlmGateReason::MemoryPressure,
            None => false,
        };
        if memory {
            self.vlm_memory_pressure_decisions = self.vlm_memory_pressure_decisions + 1;
        }
    }
}

} // verus!
