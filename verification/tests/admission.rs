use talos::state_machine::StatePolicy;
use talos::vlm::VlmModelLimits;
use talos::{
    AdmissionGates, AdmissionPolicy, DecisionStatus, SchedulerState, StateGates, TaskPriority,
    TaskRequest, TaskType, VlmGateReason, VlmGates,
};

// The default thresholds of the controllers, applied to a reading.
fn admission_gates(memory_usage_percent: f32, temperature_c: f32) -> AdmissionGates {
    AdmissionGates {
        memory_above_reject: memory_usage_percent > 85.0,
        vlm_memory_below_gate: memory_usage_percent < 75.0,
        vlm_temperature_below_gate: temperature_c < 75.0,
    }
}

fn nominal() -> AdmissionGates {
    admission_gates(40.0, 45.0)
}

fn state_gates(memory_usage_percent: f32, temperature_c: f32) -> StateGates {
    StateGates {
        memory_above_degraded: memory_usage_percent > 85.0,
        temperature_above_throttle: temperature_c > 80.0,
    }
}

fn vlm_gates(memory_usage_percent: f32, temperature_c: f32) -> VlmGates {
    VlmGates {
        memory_above_hard_gate: memory_usage_percent > 85.0,
        temperature_at_or_above_gate: temperature_c >= 75.0,
        memory_at_or_above_soft_gate: memory_usage_percent >= 75.0,
    }
}

fn task(task_type: TaskType, priority: TaskPriority) -> TaskRequest {
    TaskRequest {
        task_id: 1,
        task_type,
        priority,
        memory_estimate_mb: 1,
        deadline_ms: 100,
        pool_slot_id: 0,
        frame: vec![1, 2, 3],
    }
}

#[test]
fn active_lease_defers_everything() {
    let controller = AdmissionPolicy::default();
    let decision = controller.decide(
        &task(TaskType::CV_FEATURES, TaskPriority::HIGH),
        &nominal(),
        SchedulerState::NORMAL,
        true,
        false,
    );
    assert_eq!(decision.status, DecisionStatus::DEFER);
    assert_eq!(decision.lease_duration_ms, 1000);
}

#[test]
fn memory_pressure_rejects_vlm() {
    let controller = AdmissionPolicy::default();
    let decision = controller.decide(
        &task(TaskType::VLM_QUERY, TaskPriority::HIGH),
        &admission_gates(86.0, 60.0),
        SchedulerState::NORMAL,
        false,
        false,
    );
    assert_eq!(decision.status, DecisionStatus::REJECT);
}

#[test]
fn vlm_gate_uses_memory_temperature_and_cv_burst() {
    let controller = AdmissionPolicy::default();
    let request = task(TaskType::VLM_QUERY, TaskPriority::MEDIUM);
    assert_eq!(
        controller
            .decide(&request, &nominal(), SchedulerState::NORMAL, false, false)
            .status,
        DecisionStatus::ADMIT
    );
    assert_eq!(
        controller
            .decide(&request, &nominal(), SchedulerState::NORMAL, false, true)
            .status,
        DecisionStatus::DEFER
    );
}

#[test]
fn throttle_rejects_low_priority_and_vlm() {
    let controller = AdmissionPolicy::default();
    assert_eq!(
        controller
            .decide(
                &task(TaskType::CV_FEATURES, TaskPriority::LOW),
                &nominal(),
                SchedulerState::THROTTLE,
                false,
                false
            )
            .status,
        DecisionStatus::REJECT
    );
    assert_eq!(
        controller
            .decide(
                &task(TaskType::VLM_QUERY, TaskPriority::HIGH),
                &nominal(),
                SchedulerState::THROTTLE,
                false,
                false
            )
            .status,
        DecisionStatus::REJECT
    );
}

#[test]
fn degraded_allows_only_high_priority_cv() {
    let controller = AdmissionPolicy::default();
    assert_eq!(
        controller
            .decide(
                &task(TaskType::CV_FEATURES, TaskPriority::HIGH),
                &nominal(),
                SchedulerState::DEGRADED,
                false,
                false
            )
            .status,
        DecisionStatus::ADMIT
    );
    assert_eq!(
        controller
            .decide(
                &task(TaskType::CHANGE_DETECTION, TaskPriority::HIGH),
                &nominal(),
                SchedulerState::DEGRADED,
                false,
                false
            )
            .status,
        DecisionStatus::REJECT
    );
}

#[test]
fn high_load_defers_vlm_and_admits_cv() {
    let controller = AdmissionPolicy::default();
    let vlm = task(TaskType::VLM_QUERY, TaskPriority::HIGH);
    let cv = task(TaskType::CV_FEATURES, TaskPriority::LOW);
    assert_eq!(
        controller.decide(&vlm, &nominal(), SchedulerState::HIGH_LOAD, false, false).status,
        DecisionStatus::DEFER
    );
    assert_eq!(
        controller.decide(&cv, &nominal(), SchedulerState::HIGH_LOAD, false, false).status,
        DecisionStatus::ADMIT
    );
    let hot = admission_gates(40.0, 76.0);
    assert_eq!(
        controller.decide(&vlm, &hot, SchedulerState::NORMAL, false, false).status,
        DecisionStatus::DEFER
    );
}

#[test]
fn queue_pressure_triggers_high_load() {
    let machine = StatePolicy::default();
    assert_eq!(
        machine.evaluate(&state_gates(40.0, 45.0), 21),
        SchedulerState::HIGH_LOAD
    );
    assert_eq!(
        machine.evaluate(&state_gates(40.0, 45.0), 20),
        SchedulerState::NORMAL
    );
}

#[test]
fn thermal_and_memory_transitions_are_more_severe_than_queue_pressure() {
    let machine = StatePolicy::default();
    assert_eq!(
        machine.evaluate(&state_gates(40.0, 81.0), 21),
        SchedulerState::THROTTLE
    );
    assert_eq!(
        machine.evaluate(&state_gates(86.0, 81.0), 21),
        SchedulerState::DEGRADED
    );
}

fn vlm_task(frame_len: usize) -> TaskRequest {
    TaskRequest {
        task_id: 1,
        task_type: TaskType::VLM_QUERY,
        priority: TaskPriority::LOW,
        memory_estimate_mb: 2_304,
        deadline_ms: 1_000,
        pool_slot_id: 0,
        frame: vec![1; frame_len],
    }
}

#[test]
fn admits_quantized_vlm_under_nominal_conditions() {
    let gate = VlmModelLimits::default().evaluate(
        &vlm_task(1024),
        &vlm_gates(40.0, 45.0),
        SchedulerState::NORMAL,
        false,
        false,
    );
    assert_eq!(gate.status, DecisionStatus::ADMIT);
    assert_eq!(gate.reason, VlmGateReason::AdmitQuantized);
}

#[test]
fn rejects_vlm_under_hard_memory_pressure() {
    let gate = VlmModelLimits::default().evaluate(
        &vlm_task(1024),
        &vlm_gates(86.0, 60.0),
        SchedulerState::NORMAL,
        false,
        false,
    );
    assert_eq!(gate.status, DecisionStatus::REJECT);
    assert_eq!(gate.reason, VlmGateReason::MemoryPressure);
}

#[test]
fn rejects_inputs_beyond_quantized_context_budget() {
    let profile = VlmModelLimits::default();
    let gate = profile.evaluate(
        &vlm_task(profile.max_input_bytes as usize + 1),
        &vlm_gates(40.0, 45.0),
        SchedulerState::NORMAL,
        false,
        false,
    );
    assert_eq!(gate.status, DecisionStatus::REJECT);
    assert_eq!(gate.reason, VlmGateReason::InputTooLarge);
}

#[test]
fn vlm_gate_reasons_in_order() {
    let profile = VlmModelLimits::default();
    let cv = TaskRequest { task_type: TaskType::CV_FEATURES, ..vlm_task(4) };
    let gate = profile.evaluate(&cv, &vlm_gates(95.0, 95.0), SchedulerState::DEGRADED, true, true);
    assert_eq!(gate.status, DecisionStatus::ADMIT);
    assert_eq!(gate.reason, VlmGateReason::NotVlm);
    let gate = profile.evaluate(&vlm_task(4), &vlm_gates(40.0, 45.0), SchedulerState::NORMAL, true, false);
    assert_eq!((gate.status, gate.reason), (DecisionStatus::DEFER, VlmGateReason::GpuLeaseActive));
    let gate = profile.evaluate(&vlm_task(4), &vlm_gates(40.0, 45.0), SchedulerState::DEGRADED, false, false);
    assert_eq!((gate.status, gate.reason), (DecisionStatus::REJECT, VlmGateReason::Degraded));
    let gate = profile.evaluate(&vlm_task(4), &vlm_gates(40.0, 45.0), SchedulerState::THROTTLE, false, false);
    assert_eq!((gate.status, gate.reason), (DecisionStatus::REJECT, VlmGateReason::Throttle));
    let gate = profile.evaluate(&vlm_task(4), &vlm_gates(40.0, 45.0), SchedulerState::HIGH_LOAD, false, false);
    assert_eq!((gate.status, gate.reason), (DecisionStatus::DEFER, VlmGateReason::HighLoad));
    let gate = profile.evaluate(&vlm_task(4), &vlm_gates(40.0, 75.0), SchedulerState::NORMAL, false, false);
    assert_eq!((gate.status, gate.reason), (DecisionStatus::DEFER, VlmGateReason::ThermalPressure));
    let gate = profile.evaluate(&vlm_task(4), &vlm_gates(75.0, 45.0), SchedulerState::NORMAL, false, false);
    assert_eq!((gate.status, gate.reason), (DecisionStatus::DEFER, VlmGateReason::MemoryPressure));
    let gate = profile.evaluate(&vlm_task(4), &vlm_gates(40.0, 45.0), SchedulerState::NORMAL, false, true);
    assert_eq!((gate.status, gate.reason), (DecisionStatus::DEFER, VlmGateReason::CvBurstActive));
    assert_eq!(VlmGateReason::CvBurstActive.as_str(), "cv_burst_active");
    assert_eq!(VlmGateReason::AdmitQuantized.as_str(), "admit_quantized");
}

#[test]
fn runtime_metadata_copies_the_profile() {
    let metadata = VlmModelLimits::default().runtime_metadata();
    assert_eq!(metadata.model_name, "qwen2.5-vl-int4");
    assert_eq!(metadata.quantization_bits, 4);
    assert_eq!(metadata.max_output_tokens, 128);
}
