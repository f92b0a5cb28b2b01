use vstd::prelude::*;

verus! {

/// What the change detector reads of a comparison between two embeddings:
/// whether the checksums differ, and how the distance compares with the
/// detector's two thresholds.
#[derive(Clone, Copy, Debug, PartialEq, Eq, Structural)]
pub struct ChangeSignals {
    pub checksum_changed: bool,
    /// The distance is at or above the high-confidence threshold.
    pub score_at_or_above_high_confidence: bool,
    /// The distance is at or above the change threshold.
    pub score_at_or_above_change: bool,
}

/// Whether a frame counts as changed: its distance reaches the
/// high-confidence threshold, or its checksum changed and its distance
/// reaches the change threshold.
pub open spec fn is_change(s: ChangeSignals) -> bool {
    s.score_at_or_above_high_confidence || (s.checksum_changed && s.score_at_or_above_change)
}

/// Decides whether a frame counts as changed against the previous one.
pub fn change_detected(signals: &ChangeSignals) -> (changed: bool)
    ensures
        changed == is_change(*signals),
{
    signals.score_at_or_above_high_confidence || (signals.checksum_changed && signals.score_at_or_above_change)
}

/// Below the high-confidence threshold a change needs a new checksum, and
/// below the change threshold nothing is a change.
pub proof fn lemma_change_needs_checksum_or_high_confidence(s: ChangeSignals)
    ensures
        is_change(s) && !s.score_at_or_above_high_confidence ==> s.checksum_changed,
        !s.score_at_or_above_change && !s.score_at_or_above_high_confidence ==> !is_change(s),
{
}

/// The last embedding seen, against which the next one is compared.
#[derive(Clone, Debug)]
pub struct EmbeddingBaseline<T> {
    previous: Option<T>,
}

impl<T> View for EmbeddingBaseline<T> {
    type V = Option<T>;

    closed spec fn view(&self) -> Option<T> {
        self.previous
    }
}

impl<T> EmbeddingBaseline<T> {
    /// A baseline with nothing seen yet.
    pub fn new() -> (baseline: Self)
        ensures
            baseline@ is None,
    {
        EmbeddingBaseline { previous: None }
    }

    /// Records `embedding` as the new baseline and gives back the one it
    /// replaces, if any: the first embedding only sets the baseline.
    pub fn observe(&mut self, embedding: T) -> (previous: Option<T>)
        ensures
            previous == old(self)@,
            final(self)@ == Some(embedding),
    {
        let previous = self.previous.take();
        self.previous = Some(embedding);
        previous
    }
}

} // verus!
