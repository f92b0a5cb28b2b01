use vstd::prelude::*;

use crate::types::{Decision, DecisionStatus, SchedulerState, TaskPriority, TaskRequest, TaskType};

verus! {

/// What the admission policy reads of the current telemetry: the outcome of
/// comparing each reading with the threshold it is held against.
#[derive(Clone, Copy, Debug, PartialEq, Eq, Structural)]
pub struct AdmissionGates {
    /// Memory usage is strictly above the reject threshold.
    pub memory_above_reject: bool,
    /// Memory usage is strictly below the VLM memory gate.
    pub vlm_memory_below_gate: bool,
    /// Temperature is strictly below the VLM temperature gate.
    pub vlm_temperature_below_gate: bool,
}

/// The integer part of the admission controller: the lease duration that
/// every decision carries.
#[derive(Clone, Copy, Debug, PartialEq, Eq, Structural)]
pub struct AdmissionPolicy {
    pub default_lease_duration_ms: u64,
}

/// The status the admission policy gives a task.
pub open spec fn admission_status(
    task_type: TaskType,
    priority: TaskPriority,
    gates: AdmissionGates,
    state: SchedulerState,
    gpu_lease_active: bool,
    cv_burst_active: bool,
) -> DecisionStatus {
    if gpu_lease_active {
        DecisionStatus::DEFER
    } else if task_type == TaskType::VLM_QUERY && gates.memory_above_reject {
        DecisionStatus::REJECT
    } else {
        match state {
            SchedulerState::NORMAL => {
                if task_type != TaskType::VLM_QUERY {
                    DecisionStatus::ADMIT
                } else if gates.vlm_memory_below_gate && gates.vlm_temperature_below_gate
                    && !cv_burst_active {
                    DecisionStatus::ADMIT
                } else {
                    DecisionStatus::DEFER
                }
            },
            SchedulerState::HIGH_LOAD => {
                if task_type == TaskType::VLM_QUERY {
                    DecisionStatus::DEFER
                } else {
                    DecisionStatus::ADMIT
                }
            },
            SchedulerState::THROTTLE => {
                if priority == TaskPriority::LOW || task_type == TaskType::VLM_QUERY {
                    DecisionStatus::REJECT
                } else {
                    DecisionStatus::ADMIT
                }
            },
            SchedulerState::DEGRADED => {
                if priority == TaskPriority::HIGH && task_type == TaskType::CV_FEATURES {
                    DecisionStatus::ADMIT
                } else {
                    DecisionStatus::REJECT
                }
            },
        }
    }
}

impl AdmissionPolicy {
    /// The policy with a lease duration of one second.
    pub fn new() -> (policy: Self)
        ensures
            policy.default_lease_duration_ms == 1000,
    {
        AdmissionPolicy { default_lease_duration_ms: 1000 }
    }

    /// Decides whether `task` is admitted, deferred or rejected.
    pub fn decide(
        &self,
        task: &TaskRequest,
        gates: &AdmissionGates,
        state: SchedulerState,
        gpu_lease_active: bool,
        cv_burst_active: bool,
    ) -> (decision: Decision)
        ensures
            decision.status == admission_status(
                task.task_type,
                task.priority,
                *gates,
                state,
                gpu_lease_active,
                cv_burst_active,
            ),
            decision.lease_duration_ms == self.default_lease_duration_ms,
    {
        if gpu_lease_active {
            return self.decision(DecisionStatus::DEFER);
        }
        if task.task_type == TaskType::VLM_QUERY && gates.memory_above_reject {
            return self.decision(DecisionStatus::REJECT);
        }
        match state {
            SchedulerState::NORMAL => self.normal_policy(task, gates, cv_burst_active),
            SchedulerState::HIGH_LOAD => {
                if task.task_type == TaskType::VLM_QUERY {
                    self.decision(DecisionStatus::DEFER)
                } else {
                    self.decision(DecisionStatus::ADMIT)
                }
            },
            SchedulerState::THROTTLE => {
                if task.priority == TaskPriority::LOW || task.task_type == TaskType::VLM_QUERY {
                    self.decision(DecisionStatus::REJECT)
                } else {
                    self.decision(DecisionStatus::ADMIT)
                }
            },
            SchedulerState::DEGRADED => {
                if task.priority == TaskPriority::HIGH && task.task_type == TaskType::CV_FEATURES {
                    self.decision(DecisionStatus::ADMIT)
                } else {
                    self.decision(DecisionStatus::REJECT)
                }
            },
        }
    }

    fn normal_policy(&self, task: &TaskRequest, gates: &AdmissionGates, cv_burst_active: bool) -> (decision: Decision)
        ensures
            decision.lease_duration_ms == self.default_lease_duration_ms,
            decision.status == (if task.task_type != TaskType::VLM_QUERY {
                DecisionStatus::ADMIT
            } else if gates.vlm_memory_below_gate && gates.vlm_temperature_below_gate
                && !cv_burst_active {
                DecisionStatus::ADMIT
            } else {
                DecisionStatus::DEFER
            }),
    {
        if task.task_type != TaskType::VLM_QUERY {
            return self.decision(DecisionStatus::ADMIT);
        }
        if gates.vlm_memory_below_gate && gates.vlm_temperature_below_gate && !cv_burst_active {
            self.decision(DecisionStatus::ADMIT)
        } else {
            self.decision(DecisionStatus::DEFER)
        }
    }

    fn decision(&self, status: DecisionStatus) -> (decision: Decision)
        ensures
            decision.status == status,
            decision.lease_duration_ms == self.default_lease_duration_ms,
    {
        Decision { status, lease_duration_ms: self.default_lease_duration_ms }
    }
}

impl Default for AdmissionPolicy {
    fn default() -> (policy: Self)
        ensures
            policy.default_lease_duration_ms == 1000,
    {
        AdmissionPolicy::new()
    }
}

/// While a GPU lease is held, every task is deferred, whatever its kind,
/// priority, the telemetry or the scheduler state.
pub proof fn lemma_active_lease_defers_everything(
    task_type: TaskType,
    priority: TaskPriority,
    gates: AdmissionGates,
    state: SchedulerState,
    cv_burst_active: bool,
)
    ensures
        admission_status(task_type, priority, gates, state, true, cv_burst_active)
            == DecisionStatus::DEFER,
{
}

/// A VLM query is admitted only in the NORMAL state, only when memory is not
/// above the reject threshold and below the VLM memory gate, the temperature
/// is below the VLM temperature gate, no CV burst is queued and no lease is held.
pub proof fn lemma_vlm_admitted_only_when_every_gate_is_open(
    priority: TaskPriority,
    gates: AdmissionGates,
    state: SchedulerState,
    gpu_lease_active: bool,
    cv_burst_active: bool,
)
    ensures
        admission_status(TaskType::VLM_QUERY, priority, gates, state, gpu_lease_active, cv_burst_active)
            == DecisionStatus::ADMIT <==> (
            state == SchedulerState::NORMAL && !gpu_lease_active && !gates.memory_above_reject
                && gates.vlm_memory_below_gate && gates.vlm_temperature_below_gate
                && !cv_burst_active),
{
}

/// Without a lease, a VLM query is rejected whenever memory is above the
/// reject threshold, and in the THROTTLE and DEGRADED states.
pub proof fn lemma_vlm_rejected_under_pressure(
    priority: TaskPriority,
    gates: AdmissionGates,
    state: SchedulerState,
    cv_burst_active: bool,
)
    requires
        gates.memory_above_reject || state == SchedulerState::THROTTLE || state
            == SchedulerState::DEGRADED,
    ensures
        admission_status(TaskType::VLM_QUERY, priority, gates, state, false, cv_burst_active)
            == DecisionStatus::REJECT,
{
}

/// In the DEGRADED state, without a lease, a task is admitted exactly when
/// it is a HIGH priority CV task, and rejected otherwise.
pub proof fn lemma_degraded_admits_only_high_priority_cv(
    task_type: TaskType,
    priority: TaskPriority,
    gates: AdmissionGates,
    cv_burst_active: bool,
)
    ensures
        admission_status(task_type, priority, gates, SchedulerState::DEGRADED, false, cv_burst_active)
            == (if priority == TaskPriority::HIGH && task_type == TaskType::CV_FEATURES {
            DecisionStatus::ADMIT
        } else {
            DecisionStatus::REJECT
        }),
{
}

/// In the THROTTLE state, without a lease, LOW priority tasks and VLM queries
/// are rejected and every other task is admitted.
pub proof fn lemma_throttle_rejects_low_priority_and_vlm(
    task_type: TaskType,
    priority: TaskPriority,
    gates: AdmissionGates,
    cv_burst_active: bool,
)
    ensures
        admission_status(task_type, priority, gates, SchedulerState::THROTTLE, false, cv_burst_active)
            == (if priority == TaskPriority::LOW || task_type == TaskType::VLM_QUERY {
            DecisionStatus::REJECT
        } else {
            DecisionStatus::ADMIT
        }),
{
}

/// A task that is not a VLM query is deferred only while a GPU lease is held;
/// in the NORMAL and HIGH_LOAD states it is always admitted when none is.
pub proof fn lemma_non_vlm_deferred_only_by_lease(
    task_type: TaskType,
    priority: TaskPriority,
    gates: AdmissionGates,
    state: SchedulerState,
    gpu_lease_active: bool,
    cv_burst_active: bool,
)
    requires
        task_type != TaskType::VLM_QUERY,
    ensures
        admission_status(task_type, priority, gates, state, gpu_lease_active, cv_burst_active)
            == DecisionStatus::DEFER <==> gpu_lease_active,
        !gpu_lease_active && (state == SchedulerState::NORMAL || state == SchedulerState::HIGH_LOAD)
            ==> admission_status(task_type, priority, gates, state, gpu_lease_active, cv_burst_active)
            == DecisionStatus::ADMIT,
{
}

/// Without a lease, a VLM query is rejected exactly under memory pressure or
/// in the THROTTLE and DEGRADED states. In NORMAL and HIGH_LOAD, with memory
/// not above the reject threshold, a query that is not admitted waits in the
/// deferred queue instead.
pub proof fn lemma_vlm_rejected_only_under_pressure(
    priority: TaskPriority,
    gates: AdmissionGates,
    state: SchedulerState,
    cv_burst_active: bool,
)
    ensures
        admission_status(TaskType::VLM_QUERY, priority, gates, state, false, cv_burst_active)
            == DecisionStatus::REJECT <==> (gates.memory_above_reject || state == SchedulerState::THROTTLE
            || state == SchedulerState::DEGRADED),
        (state == SchedulerState::NORMAL || state == SchedulerState::HIGH_LOAD) && !gates.memory_above_reject
            ==> admission_status(TaskType::VLM_QUERY, priority, gates, state, false, cv_burst_active)
            != DecisionStatus::REJECT,
        (state == SchedulerState::NORMAL || state == SchedulerState::HIGH_LOAD) && !gates.memory_above_reject
            && admission_status(TaskType::VLM_QUERY, priority, gates, state, false, cv_burst_active)
            != DecisionStatus::ADMIT ==> admission_status(
            TaskType::VLM_QUERY,
            priority,
            gates,
            state,
            false,
            cv_burst_active,
        ) == DecisionStatus::DEFER,
{
}

} // verus!
