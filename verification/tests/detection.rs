use talos::change_detection::{change_detected, ChangeSignals, EmbeddingBaseline};
use talos::state_machine::{StateGates, StatePolicy};
use talos::stress::ThermalStressSimulator;
use talos::types::TelemetryTenths;
use talos::SchedulerState;

#[derive(Clone, Copy, Debug, PartialEq)]
struct FeatureEmbedding {
    mean: f32,
    variance: f32,
    edge_density: f32,
    entropy: f32,
    saliency_score: f32,
    texture_score: f32,
    anomaly_score: f32,
    checksum: u64,
    input_bytes: u64,
}

fn embedding(mean: f32, edge_density: f32, checksum: u64) -> FeatureEmbedding {
    FeatureEmbedding {
        mean,
        variance: 0.01,
        edge_density,
        entropy: 4.0,
        saliency_score: edge_density,
        texture_score: edge_density * 0.5,
        anomaly_score: edge_density * 0.75,
        checksum,
        input_bytes: 1024,
    }
}

fn byte_delta_ratio(previous: u64, current: u64) -> f32 {
    let max = previous.max(current);
    if max == 0 {
        return 0.0;
    }
    let min = previous.min(current);
    (max - min) as f32 / max as f32
}

fn distance(previous: FeatureEmbedding, current: FeatureEmbedding) -> f32 {
    (previous.mean - current.mean).abs() * 2.0
        + (previous.variance - current.variance).abs() * 4.0
        + (previous.edge_density - current.edge_density).abs()
        + ((previous.entropy - current.entropy).abs() / 8.0).min(1.0)
        + (previous.saliency_score - current.saliency_score).abs()
        + (previous.texture_score - current.texture_score).abs()
        + (previous.anomaly_score - current.anomaly_score).abs()
        + byte_delta_ratio(previous.input_bytes, current.input_bytes) * 0.5
}

struct ChangeResult {
    baseline_ready: bool,
    score: f32,
    changed: bool,
}

struct Detector {
    baseline: EmbeddingBaseline<FeatureEmbedding>,
}

impl Detector {
    fn new() -> Self {
        Detector { baseline: EmbeddingBaseline::new() }
    }

    fn evaluate(&mut self, embedding: FeatureEmbedding) -> ChangeResult {
        match self.baseline.observe(embedding) {
            None => ChangeResult { baseline_ready: false, score: 0.0, changed: false },
            Some(previous) => {
                let score = distance(previous, embedding);
                let signals = ChangeSignals {
                    checksum_changed: previous.checksum != embedding.checksum,
                    score_at_or_above_high_confidence: score >= 0.35,
                    score_at_or_above_change: score >= 0.08,
                };
                ChangeResult { baseline_ready: true, score, changed: change_detected(&signals) }
            }
        }
    }
}

#[test]
fn first_embedding_initializes_baseline() {
    let mut detector = Detector::new();
    let result = detector.evaluate(embedding(0.4, 0.2, 1));

    assert!(!result.baseline_ready);
    assert!(!result.changed);
    assert_eq!(result.score, 0.0);
}

#[test]
fn stable_embedding_does_not_trigger_change() {
    let mut detector = Detector::new();
    detector.evaluate(embedding(0.4, 0.2, 1));
    let result = detector.evaluate(embedding(0.401, 0.2, 1));

    assert!(result.baseline_ready);
    assert!(!result.changed);
    assert!(result.score < 0.08);
}

#[test]
fn embedding_shift_triggers_change() {
    let mut detector = Detector::new();
    detector.evaluate(embedding(0.4, 0.2, 1));
    let result = detector.evaluate(embedding(0.5, 0.35, 2));

    assert!(result.baseline_ready);
    assert!(result.changed);
    assert!(result.score >= 0.08);
}

#[test]
fn change_verdicts() {
    let signals = |checksum_changed, high, change| ChangeSignals {
        checksum_changed,
        score_at_or_above_high_confidence: high,
        score_at_or_above_change: change,
    };
    assert!(change_detected(&signals(false, true, true)));
    assert!(change_detected(&signals(true, false, true)));
    assert!(!change_detected(&signals(false, false, true)));
    assert!(!change_detected(&signals(true, false, false)));
    assert!(!change_detected(&signals(false, false, false)));
}

#[test]
fn baseline_hands_back_the_embedding_it_replaces() {
    let mut baseline = EmbeddingBaseline::new();
    assert_eq!(baseline.observe(1u64), None);
    assert_eq!(baseline.observe(2u64), Some(1));
    assert_eq!(baseline.observe(3u64), Some(2));
}

fn state_after(sample: TelemetryTenths, policy: &StatePolicy) -> SchedulerState {
    let gates = StateGates {
        memory_above_degraded: sample.memory_deci_percent > 850,
        temperature_above_throttle: sample.temperature_deci_c > 800,
    };
    policy.evaluate(&gates, 0)
}

#[test]
fn thermal_stress_reaches_throttle_then_degraded() {
    let mut simulator = ThermalStressSimulator::new();
    let machine = StatePolicy::default();
    let mut state = SchedulerState::NORMAL;

    for _ in 0..20 {
        let telemetry = simulator.tick(true, true);
        state = state_after(telemetry, &machine);
    }

    assert_eq!(state, SchedulerState::DEGRADED);
    assert!(simulator.sample().temperature_deci_c > 800);
    assert!(simulator.sample().memory_deci_percent > 850);
}

#[test]
fn stress_readings_start_nominal_and_stay_within_limits() {
    let mut simulator = ThermalStressSimulator::default();
    assert_eq!(
        simulator.sample(),
        TelemetryTenths { memory_deci_percent: 480, temperature_deci_c: 580, gpu_deci_percent: 0 }
    );
    let sample = simulator.tick(true, true);
    assert_eq!(sample, TelemetryTenths { memory_deci_percent: 512, temperature_deci_c: 604, gpu_deci_percent: 950 });
    let sample = simulator.tick(false, false);
    assert_eq!(sample, TelemetryTenths { memory_deci_percent: 508, temperature_deci_c: 598, gpu_deci_percent: 150 });

    let policy = StatePolicy::default();
    let mut states = Vec::new();
    for _ in 0..40 {
        let sample = simulator.tick(true, false);
        assert!(sample.temperature_deci_c <= 920);
        states.push(state_after(sample, &policy));
    }
    assert_eq!(simulator.sample().temperature_deci_c, 920);
    assert!(states.contains(&SchedulerState::THROTTLE));
    assert!(!states.contains(&SchedulerState::DEGRADED));

    for _ in 0..200 {
        simulator.tick(false, false);
    }
    assert_eq!(simulator.sample().temperature_deci_c, 420);
    assert_eq!(simulator.sample().memory_deci_percent, 400);
}
