//! Fixed constants of the memory model and the fixed-point scales.
//!
//! Stability is measured in milli-days, difficulty in milli-points on the
//! `[1, 10]` scale, and probabilities (retrievability, desired retention) in
//! per-mille. The forgetting curve is the power law
//! `R = (1 + F * elapsed / stability) ^ (-1)` with the fixed factor
//! `F = FORGET_NUM / FORGET_DEN`; the decay exponent is pinned to one so that
//! the curve, its inverse, and their error bounds are exact rational
//! arithmetic.

use vstd::prelude::*;

verus! {

/// One thousand: the common denominator of the fixed-point scales.
pub const PERMILLE: u64 = 1000;

/// Numerator of the forgetting-curve factor `F`.
pub const FORGET_NUM: u64 = 19;

/// Denominator of the forgetting-curve factor `F`.
pub const FORGET_DEN: u64 = 81;

/// Smallest stability the model ever produces: 0.01 days, in milli-days.
pub const STABILITY_MIN: u64 = 10;

/// Largest stability the model ever produces: 100 years, in milli-days.
pub const STABILITY_MAX: u64 = 36_500_000;

/// Lower clamp bound of difficulty: 1.0, in milli-points.
pub const DIFFICULTY_MIN: u64 = 1000;

/// Upper clamp bound of difficulty: 10.0, in milli-points.
pub const DIFFICULTY_MAX: u64 = 10_000;

/// Number of parameters a weight set must hold.
pub const WEIGHT_COUNT: usize = 17;

/// Seconds in one day.
pub const SECONDS_PER_DAY: u64 = 86_400;

/// Due-date offset of a card that stays in a learning phase, in seconds.
pub const LEARNING_STEP_SECONDS: u64 = 600;

/// Half-width of the fuzzing band, in per-mille of the planned interval.
pub const FUZZ_BAND_PERMILLE: u64 = 50;

/// Largest review interval the planner accepts as a cap: 100 years, in days.
pub const INTERVAL_CAP: u64 = 36_500;

/// Largest timestamp the engine accepts, in seconds (about 8.9 million years).
pub const TIMESTAMP_LIMIT: u64 = 0x1_0000_0000_0000;

/// Clamps `x` into `[lo, hi]`.
pub open spec fn clamp_spec(x: int, lo: int, hi: int) -> int {
    if x < lo {
        lo
    } else if x > hi {
        hi
    } else {
        x
    }
}

/// Clamps a value into an inclusive range of `u64`s.
pub fn clamp_u64(x: u64, lo: u64, hi: u64) -> (r: u64)
    requires
        lo <= hi,
    ensures
        r == clamp_spec(x as int, lo as int, hi as int),
        lo <= r <= hi,
{
    if x < lo {
        lo
    } else if x > hi {
        hi
    } else {
        x
    }
}

} // verus!
