use talos::optimization::{dedupe_recommendations, recommend};
use talos::{percentile_u64, OptimizationRecommendation, OptimizationSignals};

#[test]
fn percentile_handles_empty_and_sorted_values() {
    assert_eq!(percentile_u64(&[], 95), 0);
    assert_eq!(percentile_u64(&[10, 1, 5, 7], 50), 5);
    assert_eq!(percentile_u64(&[10, 1, 5, 7], 95), 7);
}

#[test]
fn percentile_extremes_are_min_and_max() {
    let values = [9, 3, 3, 12, 0, 7];
    assert_eq!(percentile_u64(&values, 0), 0);
    assert_eq!(percentile_u64(&values, 100), 12);
    assert_eq!(percentile_u64(&[42], 95), 42);
}

fn healthy() -> OptimizationSignals {
    OptimizationSignals {
        temperature_at_or_above_max: false,
        memory_at_or_above_max: false,
        defer_rate_above_max: false,
        reject_rate_above_max: false,
        throughput_below_min: false,
        tasks: 100,
        execution_p95_ms: 50,
        target_execution_p95_ms: 120,
        runtime_p95_ms: 5,
        target_runtime_p95_ms: 20,
    }
}

#[test]
fn healthy_metrics_maintain_current_profile() {
    assert_eq!(
        recommend(&healthy()),
        vec![OptimizationRecommendation::MaintainCurrentProfile]
    );
}

#[test]
fn high_memory_recommends_vlm_and_input_tuning() {
    let mut signals = healthy();
    signals.memory_at_or_above_max = true;
    let recommendations = recommend(&signals);
    assert!(recommendations.contains(&OptimizationRecommendation::LowerVlmSoftMemoryGate));
    assert!(recommendations.contains(&OptimizationRecommendation::ReduceInputResolution));
}

#[test]
fn high_defer_rate_recommends_pool_and_source_tuning() {
    let mut signals = healthy();
    signals.defer_rate_above_max = true;
    let recommendations = recommend(&signals);
    assert!(recommendations.contains(&OptimizationRecommendation::IncreasePoolSlots));
    assert!(recommendations.contains(&OptimizationRecommendation::ReduceSourceRate));
}

#[test]
fn every_signal_raised_gives_each_recommendation_once_in_order() {
    let signals = OptimizationSignals {
        temperature_at_or_above_max: true,
        memory_at_or_above_max: true,
        defer_rate_above_max: true,
        reject_rate_above_max: true,
        throughput_below_min: true,
        tasks: 3,
        execution_p95_ms: 500,
        target_execution_p95_ms: 120,
        runtime_p95_ms: 50,
        target_runtime_p95_ms: 20,
    };
    assert_eq!(
        recommend(&signals),
        vec![
            OptimizationRecommendation::ApplyJetsonHardening,
            OptimizationRecommendation::LowerVlmSoftMemoryGate,
            OptimizationRecommendation::ReduceInputResolution,
            OptimizationRecommendation::InvestigateRuntimeBackend,
            OptimizationRecommendation::IncreasePoolSlots,
            OptimizationRecommendation::ReduceSourceRate,
        ]
    );
}

#[test]
fn low_throughput_without_tasks_is_not_a_signal() {
    let mut signals = healthy();
    signals.throughput_below_min = true;
    signals.tasks = 0;
    assert_eq!(
        recommend(&signals),
        vec![OptimizationRecommendation::MaintainCurrentProfile]
    );
}

#[test]
fn dedupe_keeps_first_occurrences() {
    let mut items = vec![
        OptimizationRecommendation::ReduceSourceRate,
        OptimizationRecommendation::IncreasePoolSlots,
        OptimizationRecommendation::ReduceSourceRate,
        OptimizationRecommendation::ApplyJetsonHardening,
        OptimizationRecommendation::IncreasePoolSlots,
    ];
    dedupe_recommendations(&mut items);
    assert_eq!(
        items,
        vec![
            OptimizationRecommendation::ReduceSourceRate,
            OptimizationRecommendation::IncreasePoolSlots,
            OptimizationRecommendation::ApplyJetsonHardening,
        ]
    );
}

#[test]
fn recommendation_names() {
    assert_eq!(
        OptimizationRecommendation::LowerVlmSoftMemoryGate.as_str(),
        "lower_vlm_soft_memory_gate"
    );
    assert_eq!(
        OptimizationRecommendation::MaintainCurrentProfile.as_str(),
        "maintain_current_profile"
    );
}
