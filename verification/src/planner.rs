//! The interval planner: from stability and a desired retention to the next
//! review interval in whole days.
//!
//! The planner inverts the forgetting curve: it solves
//! `R(s, t) = desired_retention` for `t`, rounds to the nearest whole day, and
//! clamps the result into `[1, cap]`. Optional fuzzing perturbs the planned
//! interval inside a small symmetric band, deterministically from the card id
//! and the review time, without ever leaving `[1, cap]`.

use vstd::prelude::*;
use vstd::arithmetic::div_mod::{
    lemma_div_by_multiple,
    lemma_div_is_ordered,
    lemma_div_pos_is_pos,
    lemma_fundamental_div_mod,
};
use crate::params::{
    clamp_spec,
    clamp_u64,
    FORGET_DEN,
    FORGET_NUM,
    FUZZ_BAND_PERMILLE,
    INTERVAL_CAP,
    PERMILLE,
    STABILITY_MAX,
    STABILITY_MIN,
};
use crate::retention::{retention_den, retention_num};

verus! {

/// Exact solution of `R(s, t) = r` for `t`, floored, in milli-days:
/// `t = FORGET_DEN * s * (PERMILLE - r) / (FORGET_NUM * r)`.
pub open spec fn ideal_interval_milli(s: int, r: int) -> int {
    FORGET_DEN * s * (PERMILLE - r) / (FORGET_NUM * r)
}

/// The ideal interval rounded to the nearest whole day.
pub open spec fn rounded_interval_days(s: int, r: int) -> int {
    (ideal_interval_milli(s, r) + 500) / (PERMILLE as int)
}

/// The planned interval: the rounded ideal interval clamped into `[1, cap]`.
pub open spec fn next_interval_spec(s: int, r: int, cap: int) -> int {
    clamp_spec(rounded_interval_days(s, r), 1, cap)
}

/// Cross-multiplied gap between the desired retention `r` and the recall
/// probability reached after `d` days: `r / PERMILLE - num / den`, scaled by
/// the positive factor `PERMILLE * den`. Zero means the interval hits the
/// desired retention exactly.
pub open spec fn retention_gap(s: int, r: int, d: int) -> int {
    r * retention_den(s, d) - PERMILLE * retention_num(s)
}

/// Next review interval in whole days for a memory of stability `s`
/// milli-days, aiming at the per-mille retention `r`, capped at `cap` days.
pub fn next_interval(s: u64, r: u64, cap: u64) -> (d: u64)
    requires
        STABILITY_MIN <= s <= STABILITY_MAX,
        1 <= r < PERMILLE,
        1 <= cap <= INTERVAL_CAP,
    ensures
        d == next_interval_spec(s as int, r as int, cap as int),
        1 <= d <= cap,
{
    proof {
        assert(1 <= FORGET_NUM * r <= 18_981 && 0 <= FORGET_DEN * s * (PERMILLE - r)
            <= 2_953_543_500_000) by (nonlinear_arith)
            requires
                FORGET_NUM == 19,
                FORGET_DEN == 81,
                PERMILLE == 1000,
                1 <= s <= 36_500_000,
                1 <= r <= 999,
        ;
    }
    let x: u64 = FORGET_DEN * s * (PERMILLE - r);
    let y: u64 = FORGET_NUM * r;
    let ideal: u64 = x / y;
    proof {
        lemma_div_pos_is_pos(x as int, y as int);
        lemma_div_is_ordered_bridge(x as int, y as int);
    }
    let days: u64 = (ideal + 500) / PERMILLE;
    clamp_u64(days, 1, cap)
}

/// A quotient never exceeds its dividend when the divisor is at least one.
proof fn lemma_div_is_ordered_bridge(x: int, y: int)
    requires
        0 <= x,
        1 <= y,
    ensures
        x / y <= x,
{
    vstd::arithmetic::div_mod::lemma_div_is_ordered_by_denominator(x, 1, y);
    lemma_div_by_multiple(x, 1);
}

/// The planned interval lands on the desired retention, up to the rounding of
/// whole days: when the clamp does not bind, the cross-multiplied gap between
/// the desired retention and the recall probability reached at the returned
/// interval is at most half a day of decay,
/// `|retention_gap| <= FORGET_NUM * r * 500`.
pub proof fn lemma_interval_matches_retention(s: int, r: int, cap: int)
    requires
        STABILITY_MIN <= s <= STABILITY_MAX,
        1 <= r < PERMILLE,
        1 <= cap <= INTERVAL_CAP,
        1 <= rounded_interval_days(s, r) <= cap,
    ensures
        next_interval_spec(s, r, cap) == rounded_interval_days(s, r),
        -(FORGET_NUM * r * 500) <= retention_gap(s, r, next_interval_spec(s, r, cap)),
        retention_gap(s, r, next_interval_spec(s, r, cap)) <= FORGET_NUM * r * 500,
{
    assert(1 <= FORGET_NUM * r && 0 <= FORGET_DEN * s * (PERMILLE - r)) by (nonlinear_arith)
        requires
            FORGET_NUM == 19,
            FORGET_DEN == 81,
            PERMILLE == 1000,
            1 <= s,
            1 <= r <= 999,
    ;
    let x = FORGET_DEN * s * (PERMILLE - r);
    let y = FORGET_NUM * r;
    let i = x / y;
    let d = rounded_interval_days(s, r);
    lemma_fundamental_div_mod(x, y);
    let xr = x % y;
    lemma_div_pos_is_pos(x, y);
    lemma_fundamental_div_mod(i + 500, PERMILLE as int);
    let r2 = (i + 500) % (PERMILLE as int);
    assert(-(y * 500) <= y * PERMILLE * d - x <= y * 500) by (nonlinear_arith)
        requires
            PERMILLE == 1000,
            1 <= y,
            x == y * i + xr,
            0 <= xr < y,
            i + 500 == 1000 * d + r2,
            0 <= r2 < 1000,
    ;
    assert(r * (FORGET_DEN * s + FORGET_NUM * PERMILLE * d) - PERMILLE * (FORGET_DEN * s)
        == (FORGET_NUM * r) * PERMILLE * d - FORGET_DEN * s * (PERMILLE - r))
        by (nonlinear_arith);
}

/// Deterministic fuzzing of a planned interval: a perturbation drawn from the
/// card id and the review time, symmetric around the plan, never leaving
/// `[1, cap]`. The band half-width is `FUZZ_BAND_PERMILLE` per-mille of the
/// plan, so a plan of under twenty days is never moved.
/// Half-width of the fuzzing band for a plan of `d` days.
pub open spec fn fuzz_band_spec(d: int) -> int {
    d * FUZZ_BAND_PERMILLE / (PERMILLE as int)
}

pub open spec fn fuzzed_interval_spec(d: int, card_id: u64, at: u64, cap: int) -> int {
    let band = fuzz_band_spec(d);
    let off = ((card_id ^ at) as int) % (2 * band + 1);
    clamp_spec(d - band + off, 1, cap)
}

/// Applies the deterministic fuzz to a planned interval of `d` days.
pub fn fuzzed_interval(d: u64, card_id: u64, at: u64, cap: u64) -> (f: u64)
    requires
        1 <= d <= cap,
        cap <= INTERVAL_CAP,
    ensures
        f == fuzzed_interval_spec(d as int, card_id, at, cap as int),
        1 <= f <= cap,
        d - fuzz_band_spec(d as int) <= f <= d + fuzz_band_spec(d as int),
{
    proof {
        assert(d * FUZZ_BAND_PERMILLE == d * 50 && d * 50 <= 1_825_000 && d * 50 <= d * 1000
            && d * 1000 == PERMILLE * d) by (nonlinear_arith)
            requires
                FUZZ_BAND_PERMILLE == 50,
                PERMILLE == 1000,
                1 <= d <= 36_500,
        ;
        lemma_div_is_ordered(d * 50, d * 1000, PERMILLE as int);
        lemma_div_is_ordered(d * 50, 1_825_000, PERMILLE as int);
        lemma_div_by_multiple(d as int, PERMILLE as int);
        lemma_div_pos_is_pos(d * 50, PERMILLE as int);
    }
    let band: u64 = d * FUZZ_BAND_PERMILLE / PERMILLE;
    let span: u64 = 2 * band + 1;
    let off: u64 = (card_id ^ at) % span;
    proof {
        vstd::arithmetic::div_mod::lemma_mod_bound((card_id ^ at) as int, span as int);
    }
    clamp_u64(d - band + off, 1, cap)
}

} // verus!
