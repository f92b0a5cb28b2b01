use vstd::prelude::*;
use vstd::relations::{sorted_by, total_ordering};

verus! {

/// A tuning step suggested by a benchmark run.
#[derive(Clone, Copy, Debug, PartialEq, Eq, Structural)]
pub enum OptimizationRecommendation {
    MaintainCurrentProfile,
    ReduceInputResolution,
    LowerVlmSoftMemoryGate,
    ReduceSourceRate,
    IncreasePoolSlots,
    InvestigateRuntimeBackend,
    ApplyJetsonHardening,
}

/// The text that names a recommendation in reports.
pub open spec fn recommendation_text(r: OptimizationRecommendation) -> Seq<char> {
    match r {
        OptimizationRecommendation::MaintainCurrentProfile => "maintain_current_profile"@,
        OptimizationRecommendation::ReduceInputResolution => "reduce_input_resolution"@,
        OptimizationRecommendation::LowerVlmSoftMemoryGate => "lower_vlm_soft_memory_gate"@,
        OptimizationRecommendation::ReduceSourceRate => "reduce_source_rate"@,
        OptimizationRecommendation::IncreasePoolSlots => "increase_pool_slots"@,
        OptimizationRecommendation::InvestigateRuntimeBackend => "investigate_runtime_backend"@,
        OptimizationRecommendation::ApplyJetsonHardening => "apply_jetson_hardening"@,
    }
}

impl OptimizationRecommendation {
    /// The recommendation's name in reports.
    pub fn as_str(self) -> (text: &'static str)
        ensures
            text@ == recommendation_text(self),
    {
        match self {
            OptimizationRecommendation::MaintainCurrentProfile => "maintain_current_profile",
            OptimizationRecommendation::ReduceInputResolution => "reduce_input_resolution",
            OptimizationRecommendation::LowerVlmSoftMemoryGate => "lower_vlm_soft_memory_gate",
            OptimizationRecommendation::ReduceSourceRate => "reduce_source_rate",
            OptimizationRecommendation::IncreasePoolSlots => "increase_pool_slots",
            OptimizationRecommendation::InvestigateRuntimeBackend => "investigate_runtime_backend",
            OptimizationRecommendation::ApplyJetsonHardening => "apply_jetson_hardening",
        }
    }
}

/// What the recommender reads of a run's metrics: the outcome of each
/// comparison of a rate or reading with the profile's limits, and the
/// latency figures it compares itself.
#[derive(Clone, Copy, Debug, PartialEq, Eq, Structural)]
pub struct OptimizationSignals {
    /// The peak temperature is at or above the profile's maximum.
    pub temperature_at_or_above_max: bool,
    /// The peak memory usage is at or above the profile's maximum.
    pub memory_at_or_above_max: bool,
    /// The defer rate is strictly above the profile's maximum.
    pub defer_rate_above_max: bool,
    /// The reject rate is strictly above the profile's maximum.
    pub reject_rate_above_max: bool,
    /// The throughput is strictly below the profile's minimum.
    pub throughput_below_min: bool,
    pub tasks: usize,
    pub execution_p95_ms: u64,
    pub target_execution_p95_ms: u64,
    pub runtime_p95_ms: u64,
    pub target_runtime_p95_ms: u64,
}

/// `acc` followed by `items` when `raised` holds, `acc` alone otherwise.
pub open spec fn raise_if(
    acc: Seq<OptimizationRecommendation>,
    raised: bool,
    items: Seq<OptimizationRecommendation>,
) -> Seq<OptimizationRecommendation> {
    if raised {
        acc + items
    } else {
        acc
    }
}

/// The recommendations each signal raises, in the order they are checked,
/// repeats included.
pub open spec fn raised_recommendations(s: OptimizationSignals) -> Seq<OptimizationRecommendation> {
    let r1 = raise_if(Seq::empty(), s.temperature_at_or_above_max, seq![OptimizationRecommendation::ApplyJetsonHardening]);
    let r2 = raise_if(r1, s.memory_at_or_above_max, seq![
        OptimizationRecommendation::LowerVlmSoftMemoryGate,
        OptimizationRecommendation::ReduceInputResolution,
    ]);
    let r3 = raise_if(r2, s.execution_p95_ms > s.target_execution_p95_ms, seq![OptimizationRecommendation::ReduceInputResolution]);
    let r4 = raise_if(r3, s.runtime_p95_ms > s.target_runtime_p95_ms, seq![OptimizationRecommendation::InvestigateRuntimeBackend]);
    let r5 = raise_if(r4, s.defer_rate_above_max, seq![
        OptimizationRecommendation::IncreasePoolSlots,
        OptimizationRecommendation::ReduceSourceRate,
    ]);
    let r6 = raise_if(r5, s.reject_rate_above_max, seq![OptimizationRecommendation::LowerVlmSoftMemoryGate]);
    raise_if(r6, s.throughput_below_min && s.tasks > 0, seq![OptimizationRecommendation::ReduceSourceRate])
}

/// `items` with every repeat after the first occurrence removed.
pub open spec fn first_occurrences(items: Seq<OptimizationRecommendation>) -> Seq<OptimizationRecommendation>
    decreases items.len(),
{
    if items.len() == 0 {
        Seq::empty()
    } else {
        let kept = first_occurrences(items.drop_last());
        if kept.contains(items.last()) {
            kept
        } else {
            kept.push(items.last())
        }
    }
}

/// The recommendations for a run: the raised ones without repeats, or
/// MaintainCurrentProfile alone when none is raised.
pub open spec fn recommendations_for(s: OptimizationSignals) -> Seq<OptimizationRecommendation> {
    let raised = first_occurrences(raised_recommendations(s));
    if raised.len() == 0 {
        seq![OptimizationRecommendation::MaintainCurrentProfile]
    } else {
        raised
    }
}

fn contains_recommendation(items: &Vec<OptimizationRecommendation>, item: OptimizationRecommendation) -> (found: bool)
    ensures
        found == items@.contains(item),
{
    let mut i: usize = 0;
    while i < items.len()
        invariant
            i <= items@.len(),
            forall|k: int| 0 <= k < i ==> items@[k] != item,
        decreases items@.len() - i,
    {
        if items[i] == item {
            return true;
        }
        i = i + 1;
    }
    false
}

proof fn lemma_take_last<A>(items: Seq<A>, i: int)
    requires
        0 <= i < items.len(),
    ensures
        items.take(i + 1).drop_last() == items.take(i),
        items.take(i + 1).last() == items[i],
{
    assert(items.take(i + 1).drop_last() =~= items.take(i));
}

/// Removes repeated recommendations, keeping the first occurrence of each.
pub fn dedupe_recommendations(recommendations: &mut Vec<OptimizationRecommendation>)
    ensures
        final(recommendations)@ == first_occurrences(old(recommendations)@),
{
    let mut deduped: Vec<OptimizationRecommendation> = Vec::new();
    let n = recommendations.len();
    let mut i: usize = 0;
    while i < n
        invariant
            n == recommendations@.len(),
            i <= n,
            deduped@ == first_occurrences(recommendations@.take(i as int)),
        decreases n - i,
    {
        let item = recommendations[i];
        proof {
            lemma_take_last(recommendations@, i as int);
        }
        if !contains_recommendation(&deduped, item) {
            deduped.push(item);
        }
        i = i + 1;
    }
    proof {
        assert(recommendations@.take(n as int) =~= recommendations@);
    }
    *recommendations = deduped;
}

/// The tuning steps for a run whose metrics gave `signals`.
pub fn recommend(signals: &OptimizationSignals) -> (recommendations: Vec<OptimizationRecommendation>)
    ensures
        recommendations@ == recommendations_for(*signals),
{
    let mut recommendations: Vec<OptimizationRecommendation> = Vec::new();
    raise_one(&mut recommendations, signals.temperature_at_or_above_max,
        OptimizationRecommendation::ApplyJetsonHardening);
    raise_two(&mut recommendations, signals.memory_at_or_above_max,
        OptimizationRecommendation::LowerVlmSoftMemoryGate,
        OptimizationRecommendation::ReduceInputResolution);
    raise_one(&mut recommendations, signals.execution_p95_ms > signals.target_execution_p95_ms,
        OptimizationRecommendation::ReduceInputResolution);
    raise_one(&mut recommendations, signals.runtime_p95_ms > signals.target_runtime_p95_ms,
        OptimizationRecommendation::InvestigateRuntimeBackend);
    raise_two(&mut recommendations, signals.defer_rate_above_max,
        OptimizationRecommendation::IncreasePoolSlots,
        OptimizationRecommendation::ReduceSourceRate);
    raise_one(&mut recommendations, signals.reject_rate_above_max,
        OptimizationRecommendation::LowerVlmSoftMemoryGate);
    raise_one(&mut recommendations, signals.throughput_below_min && signals.tasks > 0,
        OptimizationRecommendation::ReduceSourceRate);
    dedupe_recommendations(&mut recommendations);
    if recommendations.len() == 0 {
        recommendations.push(OptimizationRecommendation::MaintainCurrentProfile);
        assert(recommendations@ =~= seq![OptimizationRecommendation::MaintainCurrentProfile]);
    }
    recommendations
}

fn raise_one(recommendations: &mut Vec<OptimizationRecommendation>, raised: bool, item: OptimizationRecommendation)
    ensures
        final(recommendations)@ == raise_if(old(recommendations)@, raised, seq![item]),
{
    if raised {
        recommendations.push(item);
    }
    assert(final(recommendations)@ =~= raise_if(old(recommendations)@, raised, seq![item]));
}

fn raise_two(
    recommendations: &mut Vec<OptimizationRecommendation>,
    raised: bool,
    first: OptimizationRecommendation,
    second: OptimizationRecommendation,
)
    ensures
        final(recommendations)@ == raise_if(old(recommendations)@, raised, seq![first, second]),
{
    if raised {
        recommendations.push(first);
        recommendations.push(second);
    }
    assert(final(recommendations)@ =~= raise_if(old(recommendations)@, raised, seq![first, second]));
}

/// Removing repeats keeps exactly the items that occur, each once.
pub proof fn lemma_first_occurrences_keeps_each_item_once(items: Seq<OptimizationRecommendation>)
    ensures
        forall|x: OptimizationRecommendation| first_occurrences(items).contains(x) <==> items.contains(x),
        first_occurrences(items).no_duplicates(),
    decreases items.len(),
{
    if items.len() > 0 {
        lemma_first_occurrences_keeps_each_item_once(items.drop_last());
        let kept = first_occurrences(items.drop_last());
        assert forall|x: OptimizationRecommendation| first_occurrences(items).contains(x) <==> items.contains(x) by {
            if items.contains(x) && x != items.last() {
                let k = choose|k: int| 0 <= k < items.len() && items[k] == x;
                assert(items.drop_last()[k] == x);
            }
            if items.drop_last().contains(x) {
                let k = choose|k: int| 0 <= k < items.drop_last().len() && items.drop_last()[k] == x;
                assert(items[k] == x);
            }
            if kept.push(items.last()).contains(x) && x != items.last() {
                let k = choose|k: int| 0 <= k < kept.push(items.last()).len() && kept.push(items.last())[k] == x;
                assert(kept[k] == x);
            }
            if kept.contains(x) {
                let k = choose|k: int| 0 <= k < kept.len() && kept[k] == x;
                assert(kept.push(items.last())[k] == x);
            }
            assert(items[items.len() - 1] == items.last());
            assert(kept.push(items.last())[kept.len() as int] == items.last());
        }
    }
}

proof fn lemma_first_occurrences_empty(items: Seq<OptimizationRecommendation>)
    ensures
        first_occurrences(items).len() == 0 <==> items.len() == 0,
    decreases items.len(),
{
    if items.len() > 0 {
        let kept = first_occurrences(items.drop_last());
        if kept.contains(items.last()) {
            assert(kept.len() > 0);
        }
    }
}

proof fn lemma_raise_if_avoids(
    acc: Seq<OptimizationRecommendation>,
    raised: bool,
    items: Seq<OptimizationRecommendation>,
    x: OptimizationRecommendation,
)
    requires
        !acc.contains(x),
        !items.contains(x),
    ensures
        !raise_if(acc, raised, items).contains(x),
{
    if raised {
        assert forall|k: int| 0 <= k < (acc + items).len() implies (acc + items)[k] != x by {
            if k < acc.len() {
                assert((acc + items)[k] == acc[k]);
            } else {
                assert((acc + items)[k] == items[k - acc.len()]);
            }
        }
    }
}

proof fn lemma_raised_never_maintains(s: OptimizationSignals)
    ensures
        !raised_recommendations(s).contains(OptimizationRecommendation::MaintainCurrentProfile),
{
    let m = OptimizationRecommendation::MaintainCurrentProfile;
    let r1 = raise_if(Seq::empty(), s.temperature_at_or_above_max, seq![OptimizationRecommendation::ApplyJetsonHardening]);
    let i2 = seq![
        OptimizationRecommendation::LowerVlmSoftMemoryGate,
        OptimizationRecommendation::ReduceInputResolution,
    ];
    let r2 = raise_if(r1, s.memory_at_or_above_max, i2);
    let i3 = seq![OptimizationRecommendation::ReduceInputResolution];
    let r3 = raise_if(r2, s.execution_p95_ms > s.target_execution_p95_ms, i3);
    let i4 = seq![OptimizationRecommendation::InvestigateRuntimeBackend];
    let r4 = raise_if(r3, s.runtime_p95_ms > s.target_runtime_p95_ms, i4);
    let i5 = seq![
        OptimizationRecommendation::IncreasePoolSlots,
        OptimizationRecommendation::ReduceSourceRate,
    ];
    let r5 = raise_if(r4, s.defer_rate_above_max, i5);
    let i6 = seq![OptimizationRecommendation::LowerVlmSoftMemoryGate];
    let r6 = raise_if(r5, s.reject_rate_above_max, i6);
    let i7 = seq![OptimizationRecommendation::ReduceSourceRate];
    let i1 = seq![OptimizationRecommendation::ApplyJetsonHardening];
    assert(!i1.contains(m));
    assert(!i2.contains(m));
    assert(!i3.contains(m));
    assert(!i4.contains(m));
    assert(!i5.contains(m));
    assert(!i6.contains(m));
    assert(!i7.contains(m));
    lemma_raise_if_avoids(Seq::empty(), s.temperature_at_or_above_max, i1, m);
    lemma_raise_if_avoids(r1, s.memory_at_or_above_max, i2, m);
    lemma_raise_if_avoids(r2, s.execution_p95_ms > s.target_execution_p95_ms, i3, m);
    lemma_raise_if_avoids(r3, s.runtime_p95_ms > s.target_runtime_p95_ms, i4, m);
    lemma_raise_if_avoids(r4, s.defer_rate_above_max, i5, m);
    lemma_raise_if_avoids(r5, s.reject_rate_above_max, i6, m);
    lemma_raise_if_avoids(r6, s.throughput_below_min && s.tasks > 0, i7, m);
}

/// A run always gets at least one recommendation, never the same one twice,
/// and MaintainCurrentProfile exactly when no signal raises anything.
pub proof fn lemma_recommendations_nonempty_and_distinct(s: OptimizationSignals)
    ensures
        recommendations_for(s).len() > 0,
        recommendations_for(s).no_duplicates(),
        recommendations_for(s).contains(OptimizationRecommendation::MaintainCurrentProfile)
            <==> raised_recommendations(s).len() == 0,
{
    let raised = raised_recommendations(s);
    let m = OptimizationRecommendation::MaintainCurrentProfile;
    lemma_first_occurrences_keeps_each_item_once(raised);
    lemma_first_occurrences_empty(raised);
    lemma_raised_never_maintains(s);
    if raised.len() == 0 {
        assert(recommendations_for(s)[0] == m);
    } else {
        assert(!first_occurrences(raised).contains(m));
    }
}

proof fn lemma_raise_if_contains(
    acc: Seq<OptimizationRecommendation>,
    raised: bool,
    items: Seq<OptimizationRecommendation>,
    x: OptimizationRecommendation,
)
    ensures
        raise_if(acc, raised, items).contains(x) <==> acc.contains(x) || (raised && items.contains(x)),
{
    if raised {
        let all = acc + items;
        if all.contains(x) {
            let k = choose|k: int| 0 <= k < all.len() && all[k] == x;
            if k < acc.len() {
                assert(acc[k] == x);
            } else {
                assert(items[k - acc.len()] == x);
            }
        }
        if acc.contains(x) {
            let k = choose|k: int| 0 <= k < acc.len() && acc[k] == x;
            assert(all[k] == x);
        }
        if items.contains(x) {
            let k = choose|k: int| 0 <= k < items.len() && items[k] == x;
            assert(all[acc.len() + k] == x);
        }
    }
}

proof fn lemma_one_contains(a: OptimizationRecommendation, x: OptimizationRecommendation)
    ensures
        seq![a].contains(x) <==> x == a,
{
    if x == a {
        assert(seq![a][0] == x);
    }
}

proof fn lemma_two_contains(a: OptimizationRecommendation, b: OptimizationRecommendation, x: OptimizationRecommendation)
    ensures
        seq![a, b].contains(x) <==> x == a || x == b,
{
    if x == a {
        assert(seq![a, b][0] == x);
    }
    if x == b {
        assert(seq![a, b][1] == x);
    }
}

/// Which signals raise recommendation `x`, read per recommendation.
proof fn lemma_raised_contains(s: OptimizationSignals, x: OptimizationRecommendation)
    ensures
        raised_recommendations(s).contains(x) <==> match x {
            OptimizationRecommendation::ApplyJetsonHardening => s.temperature_at_or_above_max,
            OptimizationRecommendation::LowerVlmSoftMemoryGate => s.memory_at_or_above_max || s.reject_rate_above_max,
            OptimizationRecommendation::ReduceInputResolution => s.memory_at_or_above_max || s.execution_p95_ms
                > s.target_execution_p95_ms,
            OptimizationRecommendation::InvestigateRuntimeBackend => s.runtime_p95_ms > s.target_runtime_p95_ms,
            OptimizationRecommendation::IncreasePoolSlots => s.defer_rate_above_max,
            OptimizationRecommendation::ReduceSourceRate => s.defer_rate_above_max || (s.throughput_below_min
                && s.tasks > 0),
            OptimizationRecommendation::MaintainCurrentProfile => false,
        },
{
    let e = Seq::<OptimizationRecommendation>::empty();
    let i1 = seq![OptimizationRecommendation::ApplyJetsonHardening];
    let i2 = seq![
        OptimizationRecommendation::LowerVlmSoftMemoryGate,
        OptimizationRecommendation::ReduceInputResolution,
    ];
    let i3 = seq![OptimizationRecommendation::ReduceInputResolution];
    let i4 = seq![OptimizationRecommendation::InvestigateRuntimeBackend];
    let i5 = seq![
        OptimizationRecommendation::IncreasePoolSlots,
        OptimizationRecommendation::ReduceSourceRate,
    ];
    let i6 = seq![OptimizationRecommendation::LowerVlmSoftMemoryGate];
    let i7 = seq![OptimizationRecommendation::ReduceSourceRate];
    let b3 = s.execution_p95_ms > s.target_execution_p95_ms;
    let b4 = s.runtime_p95_ms > s.target_runtime_p95_ms;
    let b7 = s.throughput_below_min && s.tasks > 0;
    let r1 = raise_if(e, s.temperature_at_or_above_max, i1);
    let r2 = raise_if(r1, s.memory_at_or_above_max, i2);
    let r3 = raise_if(r2, b3, i3);
    let r4 = raise_if(r3, b4, i4);
    let r5 = raise_if(r4, s.defer_rate_above_max, i5);
    let r6 = raise_if(r5, s.reject_rate_above_max, i6);
    assert(!e.contains(x));
    lemma_one_contains(OptimizationRecommendation::ApplyJetsonHardening, x);
    lemma_two_contains(OptimizationRecommendation::LowerVlmSoftMemoryGate, OptimizationRecommendation::ReduceInputResolution, x);
    lemma_one_contains(OptimizationRecommendation::ReduceInputResolution, x);
    lemma_one_contains(OptimizationRecommendation::InvestigateRuntimeBackend, x);
    lemma_two_contains(OptimizationRecommendation::IncreasePoolSlots, OptimizationRecommendation::ReduceSourceRate, x);
    lemma_one_contains(OptimizationRecommendation::LowerVlmSoftMemoryGate, x);
    lemma_one_contains(OptimizationRecommendation::ReduceSourceRate, x);
    lemma_raise_if_contains(e, s.temperature_at_or_above_max, i1, x);
    lemma_raise_if_contains(r1, s.memory_at_or_above_max, i2, x);
    lemma_raise_if_contains(r2, b3, i3, x);
    lemma_raise_if_contains(r3, b4, i4, x);
    lemma_raise_if_contains(r4, s.defer_rate_above_max, i5, x);
    lemma_raise_if_contains(r5, s.reject_rate_above_max, i6, x);
    lemma_raise_if_contains(r6, b7, i7, x);
}

/// Each recommendation is given exactly when a signal that calls for it is
/// raised: hardening for heat; a lower VLM soft memory gate for memory or
/// rejections; a lower input resolution for memory or a slow execution p95;
/// a runtime investigation for a slow runtime p95; more pool slots for
/// deferrals; a lower source rate for deferrals or low throughput on a run
/// with tasks; and keeping the current profile exactly when nothing is raised.
pub proof fn lemma_recommendations_follow_signals(s: OptimizationSignals)
    ensures
        recommendations_for(s).contains(OptimizationRecommendation::ApplyJetsonHardening)
            <==> s.temperature_at_or_above_max,
        recommendations_for(s).contains(OptimizationRecommendation::LowerVlmSoftMemoryGate)
            <==> s.memory_at_or_above_max || s.reject_rate_above_max,
        recommendations_for(s).contains(OptimizationRecommendation::ReduceInputResolution)
            <==> s.memory_at_or_above_max || s.execution_p95_ms > s.target_execution_p95_ms,
        recommendations_for(s).contains(OptimizationRecommendation::InvestigateRuntimeBackend)
            <==> s.runtime_p95_ms > s.target_runtime_p95_ms,
        recommendations_for(s).contains(OptimizationRecommendation::IncreasePoolSlots)
            <==> s.defer_rate_above_max,
        recommendations_for(s).contains(OptimizationRecommendation::ReduceSourceRate)
            <==> s.defer_rate_above_max || (s.throughput_below_min && s.tasks > 0),
        recommendations_for(s).contains(OptimizationRecommendation::MaintainCurrentProfile) <==> !(
        s.temperature_at_or_above_max || s.memory_at_or_above_max || s.execution_p95_ms
            > s.target_execution_p95_ms || s.runtime_p95_ms > s.target_runtime_p95_ms
            || s.defer_rate_above_max || s.reject_rate_above_max || (s.throughput_below_min && s.tasks > 0)),
{
    let raised = raised_recommendations(s);
    let m = OptimizationRecommendation::MaintainCurrentProfile;
    lemma_first_occurrences_keeps_each_item_once(raised);
    lemma_first_occurrences_empty(raised);
    lemma_recommendations_nonempty_and_distinct(s);
    assert forall|x: OptimizationRecommendation| #![auto] recommendations_for(s).contains(x) && x != m
        <==> raised.contains(x) by {
        lemma_raised_contains(s, x);
        if raised.len() == 0 {
            lemma_one_contains(m, x);
        }
    }
    lemma_raised_contains(s, OptimizationRecommendation::ApplyJetsonHardening);
    lemma_raised_contains(s, OptimizationRecommendation::LowerVlmSoftMemoryGate);
    lemma_raised_contains(s, OptimizationRecommendation::ReduceInputResolution);
    lemma_raised_contains(s, OptimizationRecommendation::InvestigateRuntimeBackend);
    lemma_raised_contains(s, OptimizationRecommendation::IncreasePoolSlots);
    lemma_raised_contains(s, OptimizationRecommendation::ReduceSourceRate);
    if raised.len() > 0 {
        let x = raised[0];
        assert(raised.contains(x));
        lemma_raised_contains(s, x);
    }
}

/// The ordering that `percentile_u64` sorts by.
pub open spec fn u64_leq() -> spec_fn(u64, u64) -> bool {
    |a: u64, b: u64| a <= b
}

/// The position that the `percentile`-th percentile takes in a sorted
/// sequence of `len` values: `(len - 1) * percentile / 100`.
pub open spec fn percentile_index(len: nat, percentile: nat) -> int {
    ((len - 1) * percentile) / 100
}

/// The `percentile`-th percentile of `values` by the nearest-rank-below rule:
/// 0 for no values, else the value at `percentile_index` in sorted order.
pub open spec fn percentile_of(values: Seq<u64>, percentile: nat) -> u64 {
    if values.len() == 0 {
        0
    } else {
        values.sort_by(u64_leq())[percentile_index(values.len(), percentile)]
    }
}

/// Whether `percentile_u64` can index the sorted values without overflow or
/// running past their end.
pub open spec fn percentile_in_range(len: nat, percentile: nat) -> bool {
    len == 0 || ((len - 1) * percentile <= usize::MAX && percentile_index(len, percentile) < len)
}

proof fn lemma_u64_leq_total()
    ensures
        total_ordering(u64_leq()),
{
}

fn insertion_point(sorted: &Vec<u64>, x: u64) -> (pos: usize)
    requires
        sorted_by(sorted@, u64_leq()),
    ensures
        pos <= sorted@.len(),
        forall|k: int| 0 <= k < pos ==> sorted@[k] <= x,
        forall|k: int| pos <= k < sorted@.len() ==> sorted@[k] > x,
{
    let mut pos: usize = 0;
    while pos < sorted.len() && sorted[pos] <= x
        invariant
            pos <= sorted@.len(),
            forall|k: int| 0 <= k < pos ==> sorted@[k] <= x,
        decreases sorted@.len() - pos,
    {
        pos = pos + 1;
    }
    assert forall|k: int| pos <= k < sorted@.len() implies sorted@[k] > x by {
        assert(u64_leq()(sorted@[pos as int], sorted@[k]) || pos == k);
    }
    pos
}

fn sorted_copy(values: &[u64]) -> (sorted: Vec<u64>)
    ensures
        sorted@ == values@.sort_by(u64_leq()),
{
    broadcast use vstd::seq_lib::group_to_multiset_ensures;
    let mut sorted: Vec<u64> = Vec::new();
    let n = values.len();
    let mut i: usize = 0;
    while i < n
        invariant
            n == values@.len(),
            i <= n,
            sorted_by(sorted@, u64_leq()),
            sorted@.to_multiset() == values@.take(i as int).to_multiset(),
        decreases n - i,
    {
        let x = values[i];
        let pos = insertion_point(&sorted, x);
        let ghost before = sorted@;
        sorted.insert(pos, x);
        assert(sorted_by(sorted@, u64_leq())) by {
            assert forall|a: int, b: int| 0 <= a < b < sorted@.len() implies #[trigger] u64_leq()(sorted@[a], sorted@[b]) by {
                if b < pos {
                    assert(u64_leq()(before[a], before[b]));
                } else if b == pos {
                } else if a < pos {
                } else if a == pos {
                } else {
                    assert(u64_leq()(before[a - 1], before[b - 1]));
                }
            }
        }
        assert(values@.take(i + 1) =~= values@.take(i as int).push(x));
        proof {
            vstd::seq_lib::to_multiset_insert(before, pos as int, x);
            vstd::seq_lib::to_multiset_build(values@.take(i as int), x);
        }
        i = i + 1;
    }
    proof {
        assert(values@.take(n as int) =~= values@);
        lemma_u64_leq_total();
        values@.lemma_sort_by_ensures(u64_leq());
        vstd::seq_lib::lemma_sorted_unique(sorted@, values@.sort_by(u64_leq()), u64_leq());
    }
    sorted
}

/// The `percentile`-th percentile of `values`: the value at position
/// `(len - 1) * percentile / 100` once sorted, or 0 when there are none.
pub fn percentile_u64(values: &[u64], percentile: usize) -> (p: u64)
    requires
        percentile_in_range(values@.len(), percentile as nat),
    ensures
        p == percentile_of(values@, percentile as nat),
{
    if values.len() == 0 {
        return 0;
    }
    let sorted = sorted_copy(values);
    proof {
        lemma_u64_leq_total();
        values@.lemma_sort_by_ensures(u64_leq());
        assert(sorted@.to_multiset().len() == values@.to_multiset().len());
        vstd::seq_lib::to_multiset_len(sorted@);
        vstd::seq_lib::to_multiset_len(values@);
    }
    let index = ((sorted.len() - 1) * percentile) / 100;
    sorted[index]
}

/// A percentile of some values is one of those values.
pub proof fn lemma_percentile_is_one_of_the_values(values: Seq<u64>, percentile: nat)
    requires
        values.len() > 0,
        percentile_in_range(values.len(), percentile),
    ensures
        values.contains(percentile_of(values, percentile)),
{
    broadcast use vstd::seq_lib::group_to_multiset_ensures;
    lemma_u64_leq_total();
    values.lemma_sort_by_ensures(u64_leq());
    let sorted = values.sort_by(u64_leq());
    let i = percentile_index(values.len(), percentile);
    vstd::seq_lib::to_multiset_len(sorted);
    vstd::seq_lib::to_multiset_len(values);
    assert(sorted.contains(sorted[i]));
    assert(sorted.to_multiset().contains(sorted[i]));
}

/// A higher percentile is never a smaller value.
pub proof fn lemma_percentile_monotone(values: Seq<u64>, low: nat, high: nat)
    requires
        low <= high,
        percentile_in_range(values.len(), low),
        percentile_in_range(values.len(), high),
    ensures
        percentile_of(values, low) <= percentile_of(values, high),
{
    if values.len() > 0 {
        lemma_u64_leq_total();
        values.lemma_sort_by_ensures(u64_leq());
        let n = values.len();
        assert(percentile_index(n, low) <= percentile_index(n, high)) by (nonlinear_arith)
            requires
                low <= high,
                n >= 1,
        {
            assert((n - 1) * low <= (n - 1) * high);
        }
        let sorted = values.sort_by(u64_leq());
        vstd::seq_lib::to_multiset_len(sorted);
        vstd::seq_lib::to_multiset_len(values);
        assert(sorted.len() == n);
        assert(0 <= percentile_index(n, low)) by (nonlinear_arith)
            requires
                n >= 1,
        {
        }
        if percentile_index(n, low) < percentile_index(n, high) {
            assert(u64_leq()(sorted[percentile_index(n, low)], sorted[percentile_index(n, high)]));
        }
    }
}

} // verus!
