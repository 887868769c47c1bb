use vstd::prelude::*;

use crate::utils::fraction::Fraction;

verus! {

/// The desired detection configuration.
#[derive(Debug, Clone, Copy, PartialEq, Eq, Structural)]
pub struct DetectionOptions {
    /// A hard cap on how many candidates of the detector's output are
    /// examined, and so on how many boxes can be returned.
    pub max_hands: usize,
    /// A candidate is kept only when its score is strictly greater than
    /// this threshold.
    pub score_threshold: Fraction,
}

impl DetectionOptions {
    /// Creates a new `DetectionOptions` from provided preferences.
    pub fn new(max_hands: usize, score_threshold: Fraction) -> (o: DetectionOptions)
        ensures
            o.max_hands == max_hands,
            o.score_threshold == score_threshold,
    {
        DetectionOptions { max_hands, score_threshold }
    }
}

} // verus!
