use vstd::prelude::*;

use crate::types::TelemetryTenths;

verus! {

/// The hottest the simulated board gets, in tenths of a degree Celsius.
pub const MAX_TEMPERATURE_DECI_C: u32 = 920;

/// The coolest the simulated board gets, in tenths of a degree Celsius.
pub const MIN_TEMPERATURE_DECI_C: u32 = 420;

/// The highest simulated memory use, in tenths of a percent.
pub const MAX_MEMORY_DECI_PERCENT: u32 = 900;

/// The lowest simulated memory use, in tenths of a percent.
pub const MIN_MEMORY_DECI_PERCENT: u32 = 400;

/// Warming per tick with the GPU busy, in tenths of a degree.
pub const HEATING_PER_ACTIVE_TICK: u32 = 24;

/// Cooling per idle tick, in tenths of a degree.
pub const COOLING_PER_IDLE_TICK: u32 = 6;

/// Memory growth per tick under memory pressure, in tenths of a percent.
pub const MEMORY_GROWTH_PER_TICK: u32 = 32;

/// Memory released per tick without memory pressure, in tenths of a percent.
pub const MEMORY_RELIEF_PER_TICK: u32 = 4;

/// GPU utilization reported while the GPU is busy, in tenths of a percent.
pub const ACTIVE_GPU_UTILIZATION: u32 = 950;

/// GPU utilization reported while the GPU idles, in tenths of a percent.
pub const IDLE_GPU_UTILIZATION: u32 = 150;

/// A reading lies within the simulated board's limits.
pub open spec fn sample_in_range(s: TelemetryTenths) -> bool {
    &&& MIN_TEMPERATURE_DECI_C <= s.temperature_deci_c <= MAX_TEMPERATURE_DECI_C
    &&& MIN_MEMORY_DECI_PERCENT <= s.memory_deci_percent <= MAX_MEMORY_DECI_PERCENT
}

/// The reading after one tick: a busy GPU warms the board by 2.4 degrees up
/// to 92 and reports 95 % utilization, an idle one cools it by 0.6 degrees
/// down to 42 and reports 15 %; memory pressure adds 3.2 % up to 90, its
/// absence frees 0.4 % down to 40.
pub open spec fn after_tick(s: TelemetryTenths, gpu_active: bool, memory_pressure: bool) -> TelemetryTenths {
    TelemetryTenths {
        temperature_deci_c: if gpu_active {
            if s.temperature_deci_c + HEATING_PER_ACTIVE_TICK > MAX_TEMPERATURE_DECI_C {
                MAX_TEMPERATURE_DECI_C
            } else {
                (s.temperature_deci_c + HEATING_PER_ACTIVE_TICK) as u32
            }
        } else {
            if s.temperature_deci_c < MIN_TEMPERATURE_DECI_C + COOLING_PER_IDLE_TICK {
                MIN_TEMPERATURE_DECI_C
            } else {
                (s.temperature_deci_c - COOLING_PER_IDLE_TICK) as u32
            }
        },
        gpu_deci_percent: if gpu_active {
            ACTIVE_GPU_UTILIZATION
        } else {
            IDLE_GPU_UTILIZATION
        },
        memory_deci_percent: if memory_pressure {
            if s.memory_deci_percent + MEMORY_GROWTH_PER_TICK > MAX_MEMORY_DECI_PERCENT {
                MAX_MEMORY_DECI_PERCENT
            } else {
                (s.memory_deci_percent + MEMORY_GROWTH_PER_TICK) as u32
            }
        } else {
            if s.memory_deci_percent < MIN_MEMORY_DECI_PERCENT + MEMORY_RELIEF_PER_TICK {
                MIN_MEMORY_DECI_PERCENT
            } else {
                (s.memory_deci_percent - MEMORY_RELIEF_PER_TICK) as u32
            }
        },
    }
}

/// The reading after `n` ticks with the same GPU activity and memory pressure.
pub open spec fn ticks_sample(s: TelemetryTenths, n: nat, gpu_active: bool, memory_pressure: bool) -> TelemetryTenths
    decreases n,
{
    if n == 0 {
        s
    } else {
        after_tick(ticks_sample(s, (n - 1) as nat, gpu_active, memory_pressure), gpu_active, memory_pressure)
    }
}

/// The reading the simulator starts from: 48 % memory, 58 degrees, idle GPU.
pub open spec fn initial_sample() -> TelemetryTenths {
    TelemetryTenths { memory_deci_percent: 480, temperature_deci_c: 580, gpu_deci_percent: 0 }
}

/// Simulates a board that warms while its GPU works and fills its memory
/// under pressure, within fixed limits.
#[derive(Clone, Copy, Debug)]
pub struct ThermalStressSimulator {
    sample: TelemetryTenths,
}

impl View for ThermalStressSimulator {
    type V = TelemetryTenths;

    closed spec fn view(&self) -> TelemetryTenths {
        self.sample
    }
}

impl ThermalStressSimulator {
    #[verifier::type_invariant]
    closed spec fn readings_in_range(self) -> bool {
        sample_in_range(self.sample)
    }

    /// A simulator at 48 % memory, 58 degrees and an idle GPU.
    pub fn new() -> (simulator: Self)
        ensures
            simulator@ == initial_sample(),
    {
        ThermalStressSimulator {
            sample: TelemetryTenths { memory_deci_percent: 480, temperature_deci_c: 580, gpu_deci_percent: 0 },
        }
    }

    /// The current reading, which lies within the board's limits.
    pub fn sample(&self) -> (sample: TelemetryTenths)
        ensures
            sample == self@,
            sample_in_range(sample),
    {
        proof {
            use_type_invariant(self);
        }
        self.sample
    }

    /// Advances the simulation by one tick and returns the new reading.
    pub fn tick(&mut self, gpu_active: bool, memory_pressure: bool) -> (sample: TelemetryTenths)
        ensures
            sample == after_tick(old(self)@, gpu_active, memory_pressure),
            final(self)@ == sample,
            sample_in_range(sample),
    {
        proof {
            use_type_invariant(&*self);
        }
        let current = self.sample;
        let temperature_deci_c: u32 = if gpu_active {
            if current.temperature_deci_c + HEATING_PER_ACTIVE_TICK > MAX_TEMPERATURE_DECI_C {
                MAX_TEMPERATURE_DECI_C
            } else {
                current.temperature_deci_c + HEATING_PER_ACTIVE_TICK
            }
        } else {
            if current.temperature_deci_c < MIN_TEMPERATURE_DECI_C + COOLING_PER_IDLE_TICK {
                MIN_TEMPERATURE_DECI_C
            } else {
                current.temperature_deci_c - COOLING_PER_IDLE_TICK
            }
        };
        let memory_deci_percent: u32 = if memory_pressure {
            if current.memory_deci_percent + MEMORY_GROWTH_PER_TICK > MAX_MEMORY_DECI_PERCENT {
                MAX_MEMORY_DECI_PERCENT
            } else {
                current.memory_deci_percent + MEMORY_GROWTH_PER_TICK
            }
        } else {
            if current.memory_deci_percent < MIN_MEMORY_DECI_PERCENT + MEMORY_RELIEF_PER_TICK {
                MIN_MEMORY_DECI_PERCENT
            } else {
                current.memory_deci_percent - MEMORY_RELIEF_PER_TICK
            }
        };
        let gpu_deci_percent: u32 = if gpu_active {
            ACTIVE_GPU_UTILIZATION
        } else {
            IDLE_GPU_UTILIZATION
        };
        let next = TelemetryTenths { memory_deci_percent, temperature_deci_c, gpu_deci_percent };
        self.sample = next;
        next
    }
}

impl Default for ThermalStressSimulator {
    fn default() -> (simulator: Self)
        ensures
            simulator@ == initial_sample(),
    {
        ThermalStressSimulator::new()
    }
}

/// Every tick keeps the readings within the board's limits.
pub proof fn lemma_tick_stays_in_range(s: TelemetryTenths, gpu_active: bool, memory_pressure: bool)
    requires
        sample_in_range(s),
    ensures
        sample_in_range(after_tick(s, gpu_active, memory_pressure)),
{
}

/// A busy GPU never cools the board and an idle one never warms it; memory
/// pressure never frees memory and its absence never takes more.
pub proof fn lemma_tick_direction(s: TelemetryTenths, gpu_active: bool, memory_pressure: bool)
    requires
        sample_in_range(s),
    ensures
        gpu_active ==> after_tick(s, gpu_active, memory_pressure).temperature_deci_c >= s.temperature_deci_c,
        !gpu_active ==> after_tick(s, gpu_active, memory_pressure).temperature_deci_c <= s.temperature_deci_c,
        memory_pressure ==> after_tick(s, gpu_active, memory_pressure).memory_deci_percent >= s.memory_deci_percent,
        !memory_pressure ==> after_tick(s, gpu_active, memory_pressure).memory_deci_percent <= s.memory_deci_percent,
{
}

/// Under sustained load, after `n` ticks the board is at least 2.4 degrees
/// per tick warmer, up to 92, and holds at least 3.2 % more memory per tick,
/// up to 90.
pub proof fn lemma_sustained_load_heats(s: TelemetryTenths, n: nat)
    requires
        sample_in_range(s),
    ensures
        sample_in_range(ticks_sample(s, n, true, true)),
        ticks_sample(s, n, true, true).temperature_deci_c >= if s.temperature_deci_c + n * HEATING_PER_ACTIVE_TICK
            > MAX_TEMPERATURE_DECI_C {
            MAX_TEMPERATURE_DECI_C as int
        } else {
            s.temperature_deci_c + n * HEATING_PER_ACTIVE_TICK
        },
        ticks_sample(s, n, true, true).memory_deci_percent >= if s.memory_deci_percent + n * MEMORY_GROWTH_PER_TICK
            > MAX_MEMORY_DECI_PERCENT {
            MAX_MEMORY_DECI_PERCENT as int
        } else {
            s.memory_deci_percent + n * MEMORY_GROWTH_PER_TICK
        },
    decreases n,
{
    if n > 0 {
        lemma_sustained_load_heats(s, (n - 1) as nat);
        lemma_tick_stays_in_range(ticks_sample(s, (n - 1) as nat, true, true), true, true);
    }
}

} // verus!
