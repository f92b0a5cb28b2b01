use vstd::prelude::*;

use crate::types::SchedulerState;

verus! {

/// What the state machine reads of the current telemetry: the outcome of
/// comparing each reading with its threshold.
#[derive(Clone, Copy, Debug, PartialEq, Eq, Structural)]
pub struct StateGates {
    /// Memory usage is strictly above the degraded threshold.
    pub memory_above_degraded: bool,
    /// Temperature is strictly above the thermal throttle threshold.
    pub temperature_above_throttle: bool,
}

/// The integer part of the state machine: the queue pressure above which
/// the scheduler is under high load.
#[derive(Clone, Copy, Debug, PartialEq, Eq, Structural)]
pub struct StatePolicy {
    pub queue_pressure_threshold: u32,
}

/// How severe a scheduler state is: NORMAL 0, HIGH_LOAD 1, THROTTLE 2, DEGRADED 3.
pub open spec fn severity(state: SchedulerState) -> int {
    match state {
        SchedulerState::NORMAL => 0,
        SchedulerState::HIGH_LOAD => 1,
        SchedulerState::THROTTLE => 2,
        SchedulerState::DEGRADED => 3,
    }
}

/// The scheduler state for the given telemetry gates and queue pressure.
pub open spec fn scheduler_state_for(gates: StateGates, queue_pressure: u32, threshold: u32) -> SchedulerState {
    if gates.memory_above_degraded {
        SchedulerState::DEGRADED
    } else if gates.temperature_above_throttle {
        SchedulerState::THROTTLE
    } else if queue_pressure > threshold {
        SchedulerState::HIGH_LOAD
    } else {
        SchedulerState::NORMAL
    }
}

impl StatePolicy {
    /// The policy with a queue pressure threshold of 20.
    pub fn new() -> (policy: Self)
        ensures
            policy.queue_pressure_threshold == 20,
    {
        StatePolicy { queue_pressure_threshold: 20 }
    }

    /// The scheduler state: DEGRADED under memory pressure, else THROTTLE
    /// when hot, else HIGH_LOAD when the queue pressure is above the
    /// threshold, else NORMAL.
    pub fn evaluate(&self, gates: &StateGates, queue_pressure: u32) -> (state: SchedulerState)
        ensures
            state == scheduler_state_for(*gates, queue_pressure, self.queue_pressure_threshold),
    {
        if gates.memory_above_degraded {
            SchedulerState::DEGRADED
        } else if gates.temperature_above_throttle {
            SchedulerState::THROTTLE
        } else if queue_pressure > self.queue_pressure_threshold {
            SchedulerState::HIGH_LOAD
        } else {
            SchedulerState::NORMAL
        }
    }
}

impl Default for StatePolicy {
    fn default() -> (policy: Self)
        ensures
            policy.queue_pressure_threshold == 20,
    {
        StatePolicy::new()
    }
}

/// Memory pressure outranks heat, and heat outranks queue pressure: the state
/// is DEGRADED whenever memory is above its threshold, and THROTTLE whenever
/// memory is not but the temperature is, whatever the queue pressure.
pub proof fn lemma_thermal_and_memory_outrank_queue_pressure(gates: StateGates, queue_pressure: u32, threshold: u32)
    ensures
        gates.memory_above_degraded ==> scheduler_state_for(gates, queue_pressure, threshold)
            == SchedulerState::DEGRADED,
        !gates.memory_above_degraded && gates.temperature_above_throttle
            ==> scheduler_state_for(gates, queue_pressure, threshold) == SchedulerState::THROTTLE,
{
}

/// More queue pressure never gives a less severe state.
pub proof fn lemma_state_monotone_in_queue_pressure(gates: StateGates, low: u32, high: u32, threshold: u32)
    requires
        low <= high,
    ensures
        severity(scheduler_state_for(gates, low, threshold)) <= severity(
            scheduler_state_for(gates, high, threshold),
        ),
{
}

/// With calm telemetry the state is decided by queue pressure alone: HIGH_LOAD
/// exactly when it is above the threshold, NORMAL otherwise.
pub proof fn lemma_queue_pressure_decides_calm_state(gates: StateGates, queue_pressure: u32, threshold: u32)
    requires
        !gates.memory_above_degraded,
        !gates.temperature_above_throttle,
    ensures
        scheduler_state_for(gates, queue_pressure, threshold) == (if queue_pressure > threshold {
            SchedulerState::HIGH_LOAD
        } else {
            SchedulerState::NORMAL
        }),
{
}

} // verus!
