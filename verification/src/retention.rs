//! The forgetting curve: probability of recall after an interval.
//!
//! With the decay exponent pinned to one, the curve is the exact rational
//! `R(s, e) = num / den` with `num = FORGET_DEN * s` and
//! `den = FORGET_DEN * s + FORGET_NUM * PERMILLE * e` (stability `s` in
//! milli-days, elapsed time `e` in whole days; `PERMILLE * e` converts days to
//! milli-days). The executable function returns the per-mille floor of that
//! rational.

use vstd::prelude::*;
use vstd::arithmetic::div_mod::{
    lemma_div_by_multiple,
    lemma_div_is_ordered_by_denominator,
    lemma_div_pos_is_pos,
};
use crate::params::{FORGET_DEN, FORGET_NUM, PERMILLE, STABILITY_MAX, STABILITY_MIN};

verus! {

/// Largest elapsed-day count the curve accepts (every timestamp the engine
/// accepts yields at most this many days).
pub const ELAPSED_LIMIT: u64 = 4_000_000_000;

/// Numerator of the recall probability, as a mathematical rational.
pub open spec fn retention_num(s: int) -> int {
    FORGET_DEN * s
}

/// Denominator of the recall probability, as a mathematical rational.
pub open spec fn retention_den(s: int, e: int) -> int {
    FORGET_DEN * s + FORGET_NUM * PERMILLE * e
}

/// Per-mille floor of the recall probability `retention_num / retention_den`.
pub open spec fn retrievability_spec(s: int, e: int) -> int {
    PERMILLE * retention_num(s) / retention_den(s, e)
}

/// Bounds of the curve's terms on the accepted input ranges, used to rule out
/// overflow and division by zero.
proof fn lemma_retention_term_bounds(s: int, e: int)
    requires
        1 <= s <= STABILITY_MAX,
        0 <= e <= ELAPSED_LIMIT,
    ensures
        FORGET_NUM * PERMILLE == 19_000,
        81 <= FORGET_DEN * s <= 2_956_500_000,
        0 <= FORGET_NUM * PERMILLE * e <= 76_000_000_000_000,
        81 <= retention_den(s, e) <= 76_000_002_956_500_000,
        81 <= PERMILLE * retention_num(s) <= 2_956_500_000_000,
{
    assert(FORGET_NUM * PERMILLE == 19_000 && 81 <= FORGET_DEN * s <= 2_956_500_000
        && 0 <= FORGET_NUM * PERMILLE * e <= 76_000_000_000_000 && 81 <= PERMILLE * (FORGET_DEN
        * s) <= 2_956_500_000_000) by (nonlinear_arith)
        requires
            FORGET_NUM == 19,
            FORGET_DEN == 81,
            PERMILLE == 1000,
            1 <= s <= 36_500_000,
            0 <= e <= 4_000_000_000,
    ;
}

/// Probability of recall, in per-mille, for a memory of stability `s`
/// milli-days after `e` whole days.
pub fn retrievability(s: u64, e: u64) -> (r: u64)
    requires
        STABILITY_MIN <= s <= STABILITY_MAX,
        e <= ELAPSED_LIMIT,
    ensures
        r == retrievability_spec(s as int, e as int),
        r <= PERMILLE,
        e == 0 ==> r == PERMILLE,
{
    proof {
        lemma_retention_term_bounds(s as int, e as int);
        lemma_retrievability_in_unit_range(s as int, e as int);
        if e == 0 {
            lemma_retrievability_unit_at_zero(s as int);
        }
    }
    let num: u64 = PERMILLE * (FORGET_DEN * s);
    let den: u64 = FORGET_DEN * s + FORGET_NUM * PERMILLE * e;
    num / den
}

/// The recall probability is a number in `(0, 1]`: its numerator is positive
/// and no larger than its denominator, so the per-mille floor lies in
/// `[0, 1000]`.
pub proof fn lemma_retrievability_in_unit_range(s: int, e: int)
    requires
        s >= 1,
        e >= 0,
    ensures
        0 < retention_num(s) <= retention_den(s, e),
        0 <= retrievability_spec(s, e) <= PERMILLE,
{
    assert(FORGET_NUM * PERMILLE * e >= 0 && FORGET_DEN * s >= 81) by (nonlinear_arith)
        requires
            FORGET_NUM == 19,
            FORGET_DEN == 81,
            PERMILLE == 1000,
            s >= 1,
            e >= 0,
    ;
    let num = retention_num(s);
    let den = retention_den(s, e);
    lemma_div_pos_is_pos(PERMILLE * num, den);
    lemma_div_is_ordered_by_denominator(PERMILLE * num, num, den);
    lemma_div_by_multiple(PERMILLE as int, num);
    assert(PERMILLE * num / num == PERMILLE);
}

/// At an elapsed time of zero the recall probability is exactly one.
pub proof fn lemma_retrievability_unit_at_zero(s: int)
    requires
        s >= 1,
    ensures
        retrievability_spec(s, 0) == PERMILLE,
{
    assert(FORGET_DEN * s >= 81 && FORGET_NUM * PERMILLE * 0 == 0) by (nonlinear_arith)
        requires
            FORGET_DEN == 81,
            s >= 1,
    ;
    let num = retention_num(s);
    assert(retention_den(s, 0) == num);
    lemma_div_by_multiple(PERMILLE as int, num);
}

/// The recall probability falls strictly as days pass: for a fixed stability,
/// a longer elapsed time gives a strictly smaller rational probability
/// (`num / den(e1) > num / den(e2)`, stated by cross-multiplication as
/// `num * den(e2) > num * den(e1)`), and the per-mille floor never rises.
pub proof fn lemma_retrievability_strictly_decreasing(s: int, e1: int, e2: int)
    requires
        s >= 1,
        0 <= e1 < e2,
    ensures
        retention_den(s, e1) < retention_den(s, e2),
        retention_num(s) * retention_den(s, e2) > retention_num(s) * retention_den(s, e1),
        retrievability_spec(s, e2) <= retrievability_spec(s, e1),
{
    lemma_retrievability_in_unit_range(s, e1);
    assert(FORGET_NUM * PERMILLE * e1 < FORGET_NUM * PERMILLE * e2) by (nonlinear_arith)
        requires
            FORGET_NUM == 19,
            PERMILLE == 1000,
            0 <= e1 < e2,
    ;
    let num = retention_num(s);
    let d1 = retention_den(s, e1);
    let d2 = retention_den(s, e2);
    assert(num * d2 > num * d1) by (nonlinear_arith)
        requires
            num > 0,
            d1 < d2,
    ;
    lemma_div_is_ordered_by_denominator(PERMILLE * num, d1, d2);
}

} // verus!
