//! Easing curves: maps from linear progress to eased progress.
use vstd::prelude::*;

verus! {

/// Progress at the end of a keyframe; progress runs from `0` to this value.
pub const FULL_PROGRESS: u64 = 1_000_000;

/// The interpolation curve of a keyframe.
#[derive(Clone, Copy, Debug, PartialEq, Eq, Structural)]
pub enum Easing {
    Linear,
    /// Named for a slow start and end; it is evaluated on the linear curve.
    EaseInOut,
}

/// Progress held to the closed range `[0, FULL_PROGRESS]`.
pub open spec fn clamped_progress(progress: int) -> int {
    if progress < 0 {
        0
    } else if progress > FULL_PROGRESS {
        FULL_PROGRESS as int
    } else {
        progress
    }
}

/// The eased progress that `easing` gives for linear `progress`.
pub open spec fn eased(easing: Easing, progress: int) -> int {
    match easing {
        Easing::Linear => clamped_progress(progress),
        Easing::EaseInOut => clamped_progress(progress),
    }
}

/// Every curve starts at `0` and ends at `FULL_PROGRESS`.
pub proof fn lemma_easing_endpoints(easing: Easing)
    ensures
        eased(easing, 0) == 0,
        eased(easing, FULL_PROGRESS as int) == FULL_PROGRESS,
{
}

/// Every curve stays within `[0, FULL_PROGRESS]`, whatever the progress it is given.
pub proof fn lemma_eased_in_range(easing: Easing, progress: int)
    ensures
        0 <= eased(easing, progress) <= FULL_PROGRESS,
{
}

/// Evaluates the eased progress for a given `easing` and linear `progress`;
/// progress beyond `FULL_PROGRESS` is clamped.
pub fn evaluate_easing_progress(easing: Easing, progress: u64) -> (r: u64)
    ensures
        r == eased(easing, progress as int),
        r <= FULL_PROGRESS,
{
    let p = if progress > FULL_PROGRESS {
        FULL_PROGRESS
    } else {
        progress
    };
    match easing {
        Easing::Linear => p,
        Easing::EaseInOut => p,
    }
}

} // verus!
