//! The memory state model: how one review moves stability and difficulty.
//!
//! A first review initializes both values from the weight table. Later
//! reviews clamp difficulty into `[DIFFICULTY_MIN, DIFFICULTY_MAX]` after a
//! rating-driven shift with mean reversion, and move stability up on a
//! success (Hard, Good, Easy) or down on a lapse (Again), never below
//! `STABILITY_MIN` nor above `STABILITY_MAX`.

use vstd::prelude::*;
use vstd::arithmetic::div_mod::{
    lemma_div_by_multiple,
    lemma_div_is_ordered,
    lemma_div_is_ordered_by_denominator,
    lemma_div_pos_is_pos,
};
use crate::cards::Rating;
use crate::params::{
    clamp_spec,
    clamp_u64,
    DIFFICULTY_MAX,
    DIFFICULTY_MIN,
    PERMILLE,
    STABILITY_MAX,
    STABILITY_MIN,
};
use crate::weights::weights_in_domain;

verus! {

/// Stability after the first review: a direct lookup into the weight table
/// by rating.
pub open spec fn init_stability_spec(w: Seq<u64>, g: int) -> int {
    w[g - 1] as int
}

/// Difficulty after the first review: the Good baseline shifted by the
/// initial-difficulty slope per rating step, clamped into the difficulty
/// range.
pub open spec fn init_difficulty_spec(w: Seq<u64>, g: int) -> int {
    clamp_spec(w[4] + w[5] * (3 - g), DIFFICULTY_MIN as int, DIFFICULTY_MAX as int)
}

/// Difficulty after a later review: a rating-driven linear shift (down for
/// Easy, up for Again), clamped, then pulled toward the mean-reversion
/// target, clamped again.
pub open spec fn next_difficulty_spec(w: Seq<u64>, d: int, g: int) -> int {
    let lin = clamp_spec(d + w[6] * (3 - g), DIFFICULTY_MIN as int, DIFFICULTY_MAX as int);
    clamp_spec(
        (w[7] * w[16] + (PERMILLE - w[7]) * lin) / (PERMILLE as int),
        DIFFICULTY_MIN as int,
        DIFFICULTY_MAX as int,
    )
}

/// The per-mille factor a successful rating applies to stability growth:
/// the Hard penalty, the Good unit, or the Easy bonus.
pub open spec fn rating_growth_factor_spec(w: Seq<u64>, g: int) -> int {
    if g == 2 {
        w[10] as int
    } else if g == 3 {
        1000
    } else {
        w[11] as int
    }
}

/// Stability after a successful review (grade 2, 3 or 4): the old stability
/// plus a growth term. Growth scales with the growth coefficient, the
/// easiness `11 - difficulty`, the forgetting already suffered `1 - r`, the
/// rating's penalty or bonus, and the stability itself, and is dampened as
/// stability grows; the gain is never below the minimum-gain weight, and the
/// result is capped at `STABILITY_MAX`.
pub open spec fn success_stability_spec(w: Seq<u64>, s: int, d: int, r: int, g: int) -> int {
    let pb = rating_growth_factor_spec(w, g);
    let damp = 1000 + w[9] * s / 1_000_000;
    let growth = w[8] * (11_000 - d) * (1000 - r) * pb * s * 1000 / (1_000_000_000_000 * damp);
    let gain = if growth >= w[15] {
        growth
    } else {
        w[15] as int
    };
    if s + gain > STABILITY_MAX {
        STABILITY_MAX as int
    } else {
        s + gain
    }
}

/// Everything that multiplies the stability in the growth term, gathered in
/// one coefficient; the exact rational growth of a success is then
/// `coefficient * s / (1_000_000_000_000 * damp)` with
/// `damp = (1_000_000_000 + w9 * s) / 1_000_000` before rounding.
pub open spec fn growth_coefficient_spec(w: Seq<u64>, d: int, r: int, g: int) -> int {
    w[8] * (11_000 - d) * (1000 - r) * rating_growth_factor_spec(w, g) * 1000
}

/// Stability after a lapse (grade 1): the old stability shrunk by the lapse
/// multiplier, by a difficulty penalty, and by a retrievability term, floored
/// at `STABILITY_MIN` and never above the old stability.
pub open spec fn lapse_stability_spec(w: Seq<u64>, s: int, d: int, r: int) -> int {
    let ret = (1_000_000 - w[14] * (1000 - r)) / 1000;
    let df = (10_000_000 - w[13] * (d - 1000)) / 10_000;
    let raw = w[12] * s * ret * df / 1_000_000_000;
    if raw < STABILITY_MIN {
        STABILITY_MIN as int
    } else {
        raw
    }
}

/// Stability after the first review of a card.
pub fn init_stability(w: &Vec<u64>, rating: Rating) -> (s: u64)
    requires
        weights_in_domain(w@),
    ensures
        s == init_stability_spec(w@, rating.grade_spec()),
        STABILITY_MIN <= s <= STABILITY_MAX,
{
    let g = rating.grade();
    w[(g - 1) as usize]
}

/// Difficulty after the first review of a card.
pub fn init_difficulty(w: &Vec<u64>, rating: Rating) -> (d: u64)
    requires
        weights_in_domain(w@),
    ensures
        d == init_difficulty_spec(w@, rating.grade_spec()),
        DIFFICULTY_MIN <= d <= DIFFICULTY_MAX,
{
    let g = rating.grade();
    proof {
        assert(w@[5] * (3 - rating.grade_spec()) <= 6000 && w@[5] * (3 - rating.grade_spec())
            >= -3000) by (nonlinear_arith)
            requires
                0 <= w@[5] <= 3000,
                1 <= rating.grade_spec() <= 4,
        ;
    }
    let shifted: i64 = w[4] as i64 + (w[5] as i64) * (3 - g as i64);
    let clamped: u64 = if shifted < DIFFICULTY_MIN as i64 {
        DIFFICULTY_MIN
    } else if shifted > DIFFICULTY_MAX as i64 {
        DIFFICULTY_MAX
    } else {
        shifted as u64
    };
    clamped
}

/// Difficulty after a later review of a card.
pub fn next_difficulty(w: &Vec<u64>, d: u64, rating: Rating) -> (d2: u64)
    requires
        weights_in_domain(w@),
        DIFFICULTY_MIN <= d <= DIFFICULTY_MAX,
    ensures
        d2 == next_difficulty_spec(w@, d as int, rating.grade_spec()),
        DIFFICULTY_MIN <= d2 <= DIFFICULTY_MAX,
{
    let g = rating.grade();
    proof {
        assert(w@[6] * (3 - rating.grade_spec()) <= 6000 && w@[6] * (3 - rating.grade_spec())
            >= -3000) by (nonlinear_arith)
            requires
                0 <= w@[6] <= 3000,
                1 <= rating.grade_spec() <= 4,
        ;
    }
    let shifted: i64 = d as i64 + (w[6] as i64) * (3 - g as i64);
    let lin: u64 = if shifted < DIFFICULTY_MIN as i64 {
        DIFFICULTY_MIN
    } else if shifted > DIFFICULTY_MAX as i64 {
        DIFFICULTY_MAX
    } else {
        shifted as u64
    };
    proof {
        assert(w@[7] * w@[16] <= 10_000_000 && (PERMILLE - w@[7]) * lin <= 10_000_000 && 0
            <= (PERMILLE - w@[7]) * lin) by (nonlinear_arith)
            requires
                PERMILLE == 1000,
                0 <= w@[7] <= 1000,
                1000 <= w@[16] <= 10_000,
                1000 <= lin <= 10_000,
        ;
    }
    let blended: u64 = (w[7] * w[16] + (PERMILLE - w[7]) * lin) / PERMILLE;
    clamp_u64(blended, DIFFICULTY_MIN, DIFFICULTY_MAX)
}

/// The exact growth rate of a success is non-decreasing in stability.
///
/// Before any rounding, a success grows stability by
/// `c * s / (k0 + w9 * s)` (up to constant scaling), with `c` the
/// nonnegative growth coefficient and `w9` the nonnegative dampening weight.
/// That rational is non-decreasing in `s`; stated here cross-multiplied over
/// the exact denominators `1_000_000_000 + w9 * s`. The fixed-point
/// evaluation then adds a nonnegative gain to the old stability, so the
/// scheduled stability also never falls on a success.
pub proof fn lemma_success_growth_monotone(
    w: Seq<u64>,
    d: int,
    r: int,
    g: int,
    s1: int,
    s2: int,
)
    requires
        weights_in_domain(w),
        DIFFICULTY_MIN <= d <= DIFFICULTY_MAX,
        0 <= r <= PERMILLE,
        2 <= g <= 4,
        0 <= s1 <= s2,
    ensures
        growth_coefficient_spec(w, d, r, g) * s1 * (1_000_000_000 + w[9] * s2)
            <= growth_coefficient_spec(w, d, r, g) * s2 * (1_000_000_000 + w[9] * s1),
{
    assert(0 <= w[8] * (11_000 - d) * (1000 - r) * rating_growth_factor_spec(w, g) * 1000)
        by (nonlinear_arith)
        requires
            0 <= w[8],
            1000 <= d <= 10_000,
            0 <= r <= 1000,
            0 <= rating_growth_factor_spec(w, g),
    ;
    lemma_scaled_growth_monotone(
        growth_coefficient_spec(w, d, r, g),
        w[9] as int,
        s1,
        s2,
    );
}

/// A nonnegative multiple of `s / (1_000_000_000 + k * s)` is non-decreasing
/// in `s`, cross-multiplied.
proof fn lemma_scaled_growth_monotone(c: int, k: int, s1: int, s2: int) by (nonlinear_arith)
    requires
        0 <= c,
        0 <= k,
        0 <= s1 <= s2,
    ensures
        c * s1 * (1_000_000_000 + k * s2) <= c * s2 * (1_000_000_000 + k * s1),
{
}

/// Stability after a successful later review of a card.
pub fn success_stability(w: &Vec<u64>, s: u64, d: u64, r: u64, rating: Rating) -> (s2: u64)
    requires
        weights_in_domain(w@),
        STABILITY_MIN <= s <= STABILITY_MAX,
        DIFFICULTY_MIN <= d <= DIFFICULTY_MAX,
        r <= PERMILLE,
        rating != Rating::Again,
    ensures
        s2 == success_stability_spec(w@, s as int, d as int, r as int, rating.grade_spec()),
        s <= s2 <= STABILITY_MAX,
{
    let g = rating.grade();
    let pb: u64 = if g == 2 {
        w[10]
    } else if g == 3 {
        1000
    } else {
        w[11]
    };
    proof {
        assert(0 <= w@[9] * s <= 730_000_000_000) by (nonlinear_arith)
            requires
                0 <= w@[9] <= 20_000,
                0 <= s <= 36_500_000,
        ;
        lemma_div_pos_is_pos(w@[9] * s, 1_000_000);
        lemma_div_is_ordered(w@[9] * s, 730_000_000_000, 1_000_000);
    }
    let damp: u64 = 1000 + (w[9] * s) / 1_000_000;
    proof {
        let w8 = w@[8] as int;
        let dd = 11_000 - d as int;
        let rr = 1000 - r as int;
        let pbi = pb as int;
        let si = s as int;
        assert(0 <= w8 * dd <= 200_000_000 && 0 <= w8 * dd * rr <= 200_000_000_000 && 0 <= w8
            * dd * rr * pbi <= 4_000_000_000_000_000 && 0 <= w8 * dd * rr * pbi * si
            <= 146_000_000_000_000_000_000_000 && 0 <= w8 * dd * rr * pbi * si * 1000
            <= 146_000_000_000_000_000_000_000_000) by (nonlinear_arith)
            requires
                0 <= w8 <= 20_000,
                1000 <= dd <= 10_000,
                0 <= rr <= 1000,
                0 <= pbi <= 20_000,
                0 <= si <= 36_500_000,
        ;
        lemma_div_pos_is_pos(w8 * dd * rr * pbi * si * 1000, 1_000_000_000_000 * damp as int);
        lemma_div_is_ordered_by_denominator(
            w8 * dd * rr * pbi * si * 1000,
            1_000_000_000_000_000,
            1_000_000_000_000 * damp as int,
        );
        lemma_div_is_ordered(
            w8 * dd * rr * pbi * si * 1000,
            146_000_000_000_000_000_000_000_000,
            1_000_000_000_000_000,
        );
    }
    let gnum: u128 = (w[8] as u128) * ((11_000 - d) as u128) * ((1000 - r) as u128) * (
    pb as u128) * (s as u128) * 1000;
    let gden: u128 = 1_000_000_000_000u128 * (damp as u128);
    let growth: u64 = (gnum / gden) as u64;
    let gain: u64 = if growth >= w[15] {
        growth
    } else {
        w[15]
    };
    if s + gain > STABILITY_MAX {
        STABILITY_MAX
    } else {
        s + gain
    }
}

/// Stability after a lapsed later review of a card.
pub fn lapse_stability(w: &Vec<u64>, s: u64, d: u64, r: u64) -> (s2: u64)
    requires
        weights_in_domain(w@),
        STABILITY_MIN <= s <= STABILITY_MAX,
        DIFFICULTY_MIN <= d <= DIFFICULTY_MAX,
        r <= PERMILLE,
    ensures
        s2 == lapse_stability_spec(w@, s as int, d as int, r as int),
        STABILITY_MIN <= s2 <= s,
{
    proof {
        assert(0 <= w@[14] * (1000 - r as int) <= 1_000_000 && 0 <= w@[13] * (d as int - 1000)
            <= 9_000_000) by (nonlinear_arith)
            requires
                0 <= w@[14] <= 1000,
                0 <= w@[13] <= 1000,
                0 <= r <= 1000,
                1000 <= d <= 10_000,
        ;
        lemma_div_pos_is_pos(1_000_000 - w@[14] * (1000 - r as int), 1000);
        lemma_div_is_ordered(1_000_000 - w@[14] * (1000 - r as int), 1_000_000, 1000);
        lemma_div_pos_is_pos(10_000_000 - w@[13] * (d as int - 1000), 10_000);
        lemma_div_is_ordered(10_000_000 - w@[13] * (d as int - 1000), 10_000_000, 10_000);
    }
    let ret: u64 = (1_000_000 - w[14] * (1000 - r)) / 1000;
    let df: u64 = (10_000_000 - w[13] * (d - 1000)) / 10_000;
    proof {
        let w12 = w@[12] as int;
        let si = s as int;
        let reti = ret as int;
        let dfi = df as int;
        assert(0 <= w12 * si <= 36_500_000_000 && 0 <= w12 * si * reti <= 36_500_000_000_000
            && 0 <= w12 * si * reti * dfi <= 36_500_000_000_000_000 && w12 * si * reti * dfi
            <= si * 1_000_000_000) by (nonlinear_arith)
            requires
                0 <= w12 <= 1000,
                0 <= si <= 36_500_000,
                0 <= reti <= 1000,
                0 <= dfi <= 1000,
        ;
        lemma_div_pos_is_pos(w12 * si * reti * dfi, 1_000_000_000);
        lemma_div_is_ordered(w12 * si * reti * dfi, si * 1_000_000_000, 1_000_000_000);
        lemma_div_by_multiple(si, 1_000_000_000);
    }
    let raw: u64 = w[12] * s * ret * df / 1_000_000_000;
    if raw < STABILITY_MIN {
        STABILITY_MIN
    } else {
        raw
    }
}

} // verus!
