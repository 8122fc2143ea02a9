//! The weight set: seventeen tunable parameters of the memory model.
//!
//! A weight set is an ordered sequence of fixed-point values, immutable for
//! the lifetime of a configuration. The engine only applies weights, it never
//! fits them. Each position has a documented domain; a set whose arity is
//! right but whose values leave their domains would drive the model out of
//! its arithmetic range and is rejected as a configuration defect.
//!
//! Positions (stability weights in milli-days, difficulty weights in
//! milli-points, rate-like weights in per-mille):
//! - 0..=3: initial stability after a first review rated Again, Hard, Good,
//!   Easy; each in `[STABILITY_MIN, STABILITY_MAX]`.
//! - 4: initial difficulty for a first review rated Good, in
//!   `[DIFFICULTY_MIN, DIFFICULTY_MAX]`.
//! - 5: initial-difficulty slope per rating step, in `[0, 3000]`.
//! - 6: difficulty shift per rating step on later reviews, in `[0, 3000]`.
//! - 7: difficulty mean-reversion rate, in `[0, 1000]`.
//! - 8: stability growth coefficient on success, in `[0, 20000]`.
//! - 9: growth dampening per milli-day of stability, in `[0, 20000]`.
//! - 10: growth penalty for a Hard rating, in `[0, 1000]`.
//! - 11: growth bonus for an Easy rating, in `[1000, 20000]`.
//! - 12: post-lapse stability multiplier, in `[0, 1000]`.
//! - 13: post-lapse difficulty penalty, in `[0, 1000]`.
//! - 14: post-lapse retrievability coefficient, in `[0, 1000]`.
//! - 15: smallest stability gain on success in milli-days, in `[0, 10000]`.
//! - 16: difficulty mean-reversion target, in
//!   `[DIFFICULTY_MIN, DIFFICULTY_MAX]`.

use vstd::prelude::*;
use crate::params::{
    DIFFICULTY_MAX,
    DIFFICULTY_MIN,
    STABILITY_MAX,
    STABILITY_MIN,
    WEIGHT_COUNT,
};

verus! {

/// True when the sequence has the right arity and every weight lies in the
/// domain of its position.
pub open spec fn weights_in_domain(w: Seq<u64>) -> bool {
    &&& w.len() == WEIGHT_COUNT
    &&& STABILITY_MIN <= w[0] <= STABILITY_MAX
    &&& STABILITY_MIN <= w[1] <= STABILITY_MAX
    &&& STABILITY_MIN <= w[2] <= STABILITY_MAX
    &&& STABILITY_MIN <= w[3] <= STABILITY_MAX
    &&& DIFFICULTY_MIN <= w[4] <= DIFFICULTY_MAX
    &&& w[5] <= 3000
    &&& w[6] <= 3000
    &&& w[7] <= 1000
    &&& w[8] <= 20_000
    &&& w[9] <= 20_000
    &&& w[10] <= 1000
    &&& 1000 <= w[11] <= 20_000
    &&& w[12] <= 1000
    &&& w[13] <= 1000
    &&& w[14] <= 1000
    &&& w[15] <= 10_000
    &&& DIFFICULTY_MIN <= w[16] <= DIFFICULTY_MAX
}

/// Decides whether a supplied weight vector has the right arity and stays in
/// every positional domain.
pub fn weights_in_domain_check(w: &Vec<u64>) -> (ok: bool)
    ensures
        ok == weights_in_domain(w@),
{
    if w.len() != WEIGHT_COUNT {
        return false;
    }
    STABILITY_MIN <= w[0] && w[0] <= STABILITY_MAX && STABILITY_MIN <= w[1] && w[1]
        <= STABILITY_MAX && STABILITY_MIN <= w[2] && w[2] <= STABILITY_MAX && STABILITY_MIN
        <= w[3] && w[3] <= STABILITY_MAX && DIFFICULTY_MIN <= w[4] && w[4] <= DIFFICULTY_MAX
        && w[5] <= 3000 && w[6] <= 3000 && w[7] <= 1000 && w[8] <= 20_000 && w[9] <= 20_000
        && w[10] <= 1000 && 1000 <= w[11] && w[11] <= 20_000 && w[12] <= 1000 && w[13] <= 1000
        && w[14] <= 1000 && w[15] <= 10_000 && DIFFICULTY_MIN <= w[16] && w[16]
        <= DIFFICULTY_MAX
}

/// The shipped default weight table.
pub open spec fn default_weights_seq() -> Seq<u64> {
    seq![
        400u64,
        600u64,
        2400u64,
        5800u64,
        5000u64,
        800u64,
        700u64,
        50u64,
        3000u64,
        100u64,
        800u64,
        1300u64,
        500u64,
        300u64,
        600u64,
        100u64,
        4000u64,
    ]
}

/// Builds the shipped default weight table.
pub fn default_weights() -> (w: Vec<u64>)
    ensures
        w@ == default_weights_seq(),
        weights_in_domain(w@),
{
    let mut w: Vec<u64> = Vec::new();
    w.push(400);
    w.push(600);
    w.push(2400);
    w.push(5800);
    w.push(5000);
    w.push(800);
    w.push(700);
    w.push(50);
    w.push(3000);
    w.push(100);
    w.push(800);
    w.push(1300);
    w.push(500);
    w.push(300);
    w.push(600);
    w.push(100);
    w.push(4000);
    proof {
        assert(w@ =~= default_weights_seq());
    }
    w
}

} // verus!
