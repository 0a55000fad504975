//! Keyframes: scheduled transitions of one property from a start value to an
//! end value over a time window.
use vstd::prelude::*;
use vstd::arithmetic::div_mod::lemma_div_is_ordered;
use vstd::arithmetic::div_mod::lemma_div_multiples_vanish;
use vstd::arithmetic::div_mod::lemma_multiply_divide_lt;
use vstd::arithmetic::mul::lemma_mul_inequality;

use crate::easing::eased;
use crate::easing::evaluate_easing_progress;
use crate::easing::Easing;
use crate::easing::FULL_PROGRESS;
use crate::element::Arrow;
use crate::element::Property;

verus! {

/// The value `progress` (out of `FULL_PROGRESS`) of the way from `from` to `to`,
/// rounded towards `from`.
pub open spec fn interpolate(from: int, to: int, progress: int) -> int {
    if from <= to {
        from + (to - from) * progress / (FULL_PROGRESS as int)
    } else {
        from - (from - to) * progress / (FULL_PROGRESS as int)
    }
}

/// An interpolated value lies between its two ends.
pub proof fn lemma_interpolate_between(from: int, to: int, progress: int)
    requires
        0 <= progress <= FULL_PROGRESS,
    ensures
        from <= to ==> from <= interpolate(from, to, progress) <= to,
        to < from ==> to <= interpolate(from, to, progress) <= from,
        interpolate(from, to, 0) == from,
        interpolate(from, to, FULL_PROGRESS as int) == to,
{
    let full = FULL_PROGRESS as int;
    let d = if from <= to { to - from } else { from - to };
    lemma_mul_inequality(progress, full, d);
    assert(d * progress == progress * d) by (nonlinear_arith);
    assert(d * full == full * d) by (nonlinear_arith);
    lemma_div_is_ordered(d * progress, d * full, full);
    lemma_div_multiples_vanish(d, full);
    assert(full * d / full == d * full / full);
    assert(0 <= d * progress) by (nonlinear_arith)
        requires
            0 <= d,
            0 <= progress,
    ;
    lemma_div_is_ordered(0, d * progress, full);
    assert(d * 0 == 0);
}

/// A scheduled, typed mutation of one property of an element.
#[derive(Clone, Copy, Debug, PartialEq, Eq, Structural)]
pub struct Keyframe {
    /// The property that the keyframe sets.
    pub property: Property,
    pub start_value: i64,
    pub end_value: i64,
    /// Microseconds since the start of the animation.
    pub start_time: u64,
    /// Microseconds; a zero duration is a jump to `end_value` at `start_time`.
    pub duration: u64,
    pub easing: Easing,
}

impl Keyframe {
    /// Whether the keyframe acts at time `t`: `start_time <= t <= start_time + duration`.
    pub open spec fn active_at(self, t: int) -> bool {
        self.start_time <= t <= self.start_time + self.duration
    }

    /// Linear progress at time `t`, held to `[0, FULL_PROGRESS]` and rounded down.
    pub open spec fn progress_at(self, t: int) -> int {
        if t < self.start_time {
            0
        } else if t - self.start_time >= self.duration {
            FULL_PROGRESS as int
        } else {
            (t - self.start_time) * (FULL_PROGRESS as int) / (self.duration as int)
        }
    }

    /// The value that the keyframe gives its property at time `t`.
    pub open spec fn value_at(self, t: int) -> int {
        interpolate(
            self.start_value as int,
            self.end_value as int,
            eased(self.easing, self.progress_at(t)),
        )
    }

    /// Linear progress stays within `[0, FULL_PROGRESS]`.
    pub proof fn lemma_progress_in_range(self, t: int)
        ensures
            0 <= self.progress_at(t) <= FULL_PROGRESS,
    {
        if self.start_time <= t && t - self.start_time < self.duration {
            let full = FULL_PROGRESS as int;
            let e = t - self.start_time;
            let d = self.duration as int;
            assert(e * full < d * full) by (nonlinear_arith)
                requires
                    0 <= e < d,
                    full > 0,
            ;
            lemma_multiply_divide_lt(e * full, d, full);
            assert(0 <= e * full) by (nonlinear_arith)
                requires
                    0 <= e,
                    full > 0,
            ;
            lemma_div_is_ordered(0, e * full, d);
        }
    }

    /// A keyframe's value lies between its start and end values.
    pub proof fn lemma_value_between(self, t: int)
        ensures
            self.start_value <= self.end_value ==> self.start_value <= self.value_at(t)
                <= self.end_value,
            self.end_value < self.start_value ==> self.end_value <= self.value_at(t)
                <= self.start_value,
    {
        self.lemma_progress_in_range(t);
        crate::easing::lemma_eased_in_range(self.easing, self.progress_at(t));
        lemma_interpolate_between(
            self.start_value as int,
            self.end_value as int,
            eased(self.easing, self.progress_at(t)),
        );
    }

    /// Determines whether the keyframe is active at `time_since_start`
    /// (both ends of its window included).
    pub fn is_active(&self, time_since_start: u64) -> (r: bool)
        ensures
            r == (self.start_time <= time_since_start <= self.start_time + self.duration),
            r == self.active_at(time_since_start as int),
    {
        time_since_start >= self.start_time && time_since_start - self.start_time <= self.duration
    }

    /// Linear progress of the keyframe at `time_since_start`.
    pub fn progress(&self, time_since_start: u64) -> (r: u64)
        ensures
            r == self.progress_at(time_since_start as int),
            r <= FULL_PROGRESS,
    {
        proof {
            self.lemma_progress_in_range(time_since_start as int);
        }
        if time_since_start < self.start_time {
            0
        } else {
            let elapsed = time_since_start - self.start_time;
            if elapsed >= self.duration {
                FULL_PROGRESS
            } else {
                assert((elapsed as int) * (FULL_PROGRESS as int) <= 0x1_0000_0000_0000_0000 * (
                FULL_PROGRESS as int)) by (nonlinear_arith)
                    requires
                        elapsed < 0x1_0000_0000_0000_0000int,
                ;
                let scaled: u128 = (elapsed as u128) * (FULL_PROGRESS as u128);
                (scaled / (self.duration as u128)) as u64
            }
        }
    }

    /// Eased progress for linear `progress`, by the keyframe's curve.
    fn get_progress_with_easing(&self, progress: u64) -> (r: u64)
        ensures
            r == eased(self.easing, progress as int),
            r <= FULL_PROGRESS,
    {
        evaluate_easing_progress(self.easing, progress)
    }

    /// The value that the keyframe gives its property at `time_since_start`.
    pub fn value_at_time(&self, time_since_start: u64) -> (r: i64)
        ensures
            r == self.value_at(time_since_start as int),
    {
        let progress = self.progress(time_since_start);
        let q = self.get_progress_with_easing(progress);
        proof {
            self.lemma_value_between(time_since_start as int);
        }
        let full: u128 = FULL_PROGRESS as u128;
        if self.start_value <= self.end_value {
            let diff: u128 = (self.end_value as i128 - self.start_value as i128) as u128;
            assert(diff * q <= 0x1_0000_0000_0000_0000 * (FULL_PROGRESS as int)) by (nonlinear_arith)
                requires
                    diff < 0x1_0000_0000_0000_0000int,
                    q <= FULL_PROGRESS,
            ;
            let step: u128 = diff * (q as u128) / full;
            (self.start_value as i128 + step as i128) as i64
        } else {
            let diff: u128 = (self.start_value as i128 - self.end_value as i128) as u128;
            assert(diff * q <= 0x1_0000_0000_0000_0000 * (FULL_PROGRESS as int)) by (nonlinear_arith)
                requires
                    diff < 0x1_0000_0000_0000_0000int,
                    q <= FULL_PROGRESS,
            ;
            let step: u128 = diff * (q as u128) / full;
            (self.start_value as i128 - step as i128) as i64
        }
    }

    /// Sets the keyframe's property on `element` to the keyframe's value at
    /// `time_since_start`.
    pub fn update_keyframe_data(&self, element: &mut Arrow, time_since_start: u64)
        ensures
            final(element)@ == old(element)@.with_property(
                self.property,
                self.value_at(time_since_start as int),
            ),
    {
        let value = self.value_at_time(time_since_start);
        element.set_property(self.property, value);
    }
}

/// At the start of its window a keyframe gives exactly its start value, and at
/// the end exactly its end value, whatever its easing.
pub proof fn lemma_keyframe_endpoints(keyframe: Keyframe)
    requires
        keyframe.duration > 0,
    ensures
        keyframe.value_at(keyframe.start_time as int) == keyframe.start_value,
        keyframe.value_at(keyframe.start_time + keyframe.duration) == keyframe.end_value,
{
    crate::easing::lemma_easing_endpoints(keyframe.easing);
    lemma_interpolate_between(keyframe.start_value as int, keyframe.end_value as int, 0);
}

/// A keyframe of zero duration jumps to its end value at its start time.
pub proof fn lemma_zero_duration_jumps(keyframe: Keyframe)
    requires
        keyframe.duration == 0,
    ensures
        keyframe.active_at(keyframe.start_time as int),
        keyframe.value_at(keyframe.start_time as int) == keyframe.end_value,
{
    crate::easing::lemma_easing_endpoints(keyframe.easing);
    lemma_interpolate_between(keyframe.start_value as int, keyframe.end_value as int, 0);
}

} // verus!
