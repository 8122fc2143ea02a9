//! The scheduler: one review takes a card, a rating, a time, and a
//! configuration, and returns the updated card and a log entry.
//!
//! The scheduler is a pure function: it reads its arguments, allocates fresh
//! outputs, and touches no hidden state, so identical inputs always give
//! identical outputs — fuzzing included, since the fuzz is drawn from the
//! card id and the review time. Failures are detected synchronously and
//! returned as a tagged error; nothing is retried or degraded.

use vstd::prelude::*;
use vstd::arithmetic::div_mod::lemma_div_is_ordered;
use crate::cards::{Card, FsrsError, Rating, ReviewLog, SchedulerConfig, State};
use crate::memory::{
    init_difficulty,
    init_difficulty_spec,
    init_stability,
    init_stability_spec,
    lapse_stability,
    lapse_stability_spec,
    next_difficulty,
    next_difficulty_spec,
    success_stability,
    success_stability_spec,
};
use crate::params::{
    DIFFICULTY_MAX,
    DIFFICULTY_MIN,
    LEARNING_STEP_SECONDS,
    SECONDS_PER_DAY,
    STABILITY_MAX,
    STABILITY_MIN,
    TIMESTAMP_LIMIT,
    WEIGHT_COUNT,
};
use crate::planner::{fuzzed_interval, fuzzed_interval_spec, next_interval, next_interval_spec};
use crate::retention::{retrievability, retrievability_spec, ELAPSED_LIMIT};
use crate::weights::{weights_in_domain, weights_in_domain_check};

verus! {

/// The deterministic transition table of the card state machine.
///
/// A New card enters Learning, except that Easy graduates it to Review at
/// once. The learning phase is configured with one successful step: Good or
/// Easy graduates, Again or Hard repeats the phase. A lapsed Review card
/// drops to Relearning; any success there returns it to Review.
pub open spec fn next_state_spec(st: State, rating: Rating) -> State {
    match st {
        State::New => if rating == Rating::Easy {
            State::Review
        } else {
            State::Learning
        },
        State::Learning => match rating {
            Rating::Again => State::Learning,
            Rating::Hard => State::Learning,
            Rating::Good => State::Review,
            Rating::Easy => State::Review,
        },
        State::Review => if rating == Rating::Again {
            State::Relearning
        } else {
            State::Review
        },
        State::Relearning => if rating == Rating::Again {
            State::Relearning
        } else {
            State::Review
        },
    }
}

/// Applies the state transition table.
pub fn next_state(st: State, rating: Rating) -> (n: State)
    ensures
        n == next_state_spec(st, rating),
{
    match st {
        State::New => if rating == Rating::Easy {
            State::Review
        } else {
            State::Learning
        },
        State::Learning => match rating {
            Rating::Again => State::Learning,
            Rating::Hard => State::Learning,
            Rating::Good => State::Review,
            Rating::Easy => State::Review,
        },
        State::Review => if rating == Rating::Again {
            State::Relearning
        } else {
            State::Review
        },
        State::Relearning => if rating == Rating::Again {
            State::Relearning
        } else {
            State::Review
        },
    }
}

/// A lapse is a failed review of a card in the Review state; it is what
/// increments the lapse counter.
pub open spec fn is_lapse_spec(st: State, rating: Rating) -> bool {
    st == State::Review && rating == Rating::Again
}

/// From New, Easy always graduates straight to Review, never to Learning;
/// every other rating sends a New card to Learning.
pub proof fn lemma_new_easy_graduates()
    ensures
        next_state_spec(State::New, Rating::Easy) == State::Review,
        next_state_spec(State::New, Rating::Easy) != State::Learning,
        forall|rating: Rating|
            rating != Rating::Easy ==> next_state_spec(State::New, rating) == State::Learning,
{
}

/// Whatever the transition, a reviewed card is never in the New state.
pub proof fn lemma_review_leaves_new()
    ensures
        forall|st: State, rating: Rating| next_state_spec(st, rating) != State::New,
{
}

/// Whole days from a reference time to `now`, clamped at zero when the
/// reference lies in the future.
pub open spec fn elapsed_days_spec(reference: int, now: int) -> int {
    if now > reference {
        (now - reference) / (SECONDS_PER_DAY as int)
    } else {
        0
    }
}

/// Computes the whole days elapsed from `reference` to `now`.
pub fn elapsed_days(reference: u64, now: u64) -> (e: u64)
    requires
        now <= TIMESTAMP_LIMIT,
    ensures
        e == elapsed_days_spec(reference as int, now as int),
        e <= ELAPSED_LIMIT,
{
    if now > reference {
        proof {
            lemma_div_is_ordered(
                now - reference,
                281_474_976_710_656,
                SECONDS_PER_DAY as int,
            );
            vstd::arithmetic::div_mod::lemma_div_pos_is_pos(
                now - reference,
                SECONDS_PER_DAY as int,
            );
        }
        (now - reference) / SECONDS_PER_DAY
    } else {
        0
    }
}

/// The inputs on which a review fails with `InvalidInput`: a wrong-arity
/// weight set, an out-of-range retention target or interval cap, an
/// ill-formed card, a review time beyond the supported range, or a review
/// time that precedes the card's last review.
pub open spec fn invalid_input_spec(card: Card, now: u64, cfg: SchedulerConfig) -> bool {
    ||| cfg.weights@.len() != WEIGHT_COUNT
    ||| !cfg.bounds_ok_spec()
    ||| !card.valid_spec()
    ||| now > TIMESTAMP_LIMIT
    ||| match card.last_review {
        Option::Some(l) => now < l,
        Option::None => false,
    }
}

/// The card and log a successful review produces.
pub open spec fn review_ok_spec(card: Card, rating: Rating, now: u64, cfg: SchedulerConfig) -> (
    Card,
    ReviewLog,
) {
    let w = cfg.weights@;
    let g = rating.grade_spec();
    let reference: int = match card.last_review {
        Option::Some(l) => l as int,
        Option::None => card.due as int,
    };
    let e = elapsed_days_spec(reference, now as int);
    let s2 = if card.state == State::New {
        init_stability_spec(w, g)
    } else {
        let r = retrievability_spec(card.stability as int, e);
        if rating == Rating::Again {
            lapse_stability_spec(w, card.stability as int, card.difficulty as int, r)
        } else {
            success_stability_spec(w, card.stability as int, card.difficulty as int, r, g)
        }
    };
    let d2 = if card.state == State::New {
        init_difficulty_spec(w, g)
    } else {
        next_difficulty_spec(w, card.difficulty as int, g)
    };
    let st2 = next_state_spec(card.state, rating);
    let due2: int = if st2 == State::Learning {
        now + LEARNING_STEP_SECONDS
    } else {
        let ivl = next_interval_spec(
            s2,
            cfg.desired_retention as int,
            cfg.maximum_interval as int,
        );
        let planned = if cfg.enable_fuzzing {
            fuzzed_interval_spec(ivl, card.id, now, cfg.maximum_interval as int)
        } else {
            ivl
        };
        now + planned * SECONDS_PER_DAY
    };
    let updated = Card {
        id: card.id,
        state: st2,
        stability: s2 as u64,
        difficulty: d2 as u64,
        due: due2 as u64,
        last_review: Option::Some(now),
        reps: (card.reps + 1) as u64,
        lapses: if is_lapse_spec(card.state, rating) {
            (card.lapses + 1) as u64
        } else {
            card.lapses
        },
    };
    let entry = ReviewLog {
        card_id: card.id,
        rating,
        reviewed_at: now,
        previous_due: card.due,
        elapsed_days: e as u64,
        stability: s2 as u64,
        difficulty: d2 as u64,
    };
    (updated, entry)
}

/// What one review returns, as a function of its inputs alone. Identical
/// inputs always give identical outputs.
pub open spec fn review_spec(card: Card, rating: Rating, now: u64, cfg: SchedulerConfig) -> Result<
    (Card, ReviewLog),
    FsrsError,
> {
    if invalid_input_spec(card, now, cfg) {
        Result::Err(FsrsError::InvalidInput)
    } else if !weights_in_domain(cfg.weights@) {
        Result::Err(FsrsError::ArithmeticDomainError)
    } else {
        Result::Ok(review_ok_spec(card, rating, now, cfg))
    }
}

/// Reviews one card: computes the elapsed days, moves the memory state, runs
/// the state machine, and plans the next due date. The caller's card is only
/// read; a fresh card and an immutable log entry come back.
///
/// The result equals `review_spec` of the inputs, so two calls with the same
/// card, rating, time and configuration return the same outputs.
pub fn review(card: &Card, rating: Rating, now: u64, cfg: &SchedulerConfig) -> (res: Result<
    (Card, ReviewLog),
    FsrsError,
>)
    ensures
        res == review_spec(*card, rating, now, *cfg),
        res == Result::<(Card, ReviewLog), FsrsError>::Err(FsrsError::InvalidInput)
            <==> invalid_input_spec(*card, now, *cfg),
        res == Result::<(Card, ReviewLog), FsrsError>::Err(FsrsError::ArithmeticDomainError)
            <==> (!invalid_input_spec(*card, now, *cfg) && !weights_in_domain(cfg.weights@)),
        res is Ok <==> (!invalid_input_spec(*card, now, *cfg) && weights_in_domain(
            cfg.weights@,
        )),
        match res {
            Result::Ok(pair) => {
                &&& STABILITY_MIN <= pair.0.stability <= STABILITY_MAX
                &&& DIFFICULTY_MIN <= pair.0.difficulty <= DIFFICULTY_MAX
                &&& pair.0.state == next_state_spec(card.state, rating)
                &&& pair.0.state != State::New
                &&& pair.0.due >= now
                &&& pair.0.last_review == Option::Some(now)
                &&& pair.0.reps == card.reps + 1
                &&& pair.0.lapses == card.lapses + if is_lapse_spec(card.state, rating) {
                    1int
                } else {
                    0int
                }
            },
            Result::Err(_) => true,
        },
{
    if cfg.weights.len() != WEIGHT_COUNT || !cfg.bounds_ok() || !card.is_valid() || now
        > TIMESTAMP_LIMIT {
        return Result::Err(FsrsError::InvalidInput);
    }
    match card.last_review {
        Option::Some(l) => {
            if now < l {
                return Result::Err(FsrsError::InvalidInput);
            }
        },
        Option::None => {},
    }
    if !weights_in_domain_check(&cfg.weights) {
        return Result::Err(FsrsError::ArithmeticDomainError);
    }
    let reference: u64 = match card.last_review {
        Option::Some(l) => l,
        Option::None => card.due,
    };
    let e = elapsed_days(reference, now);
    let is_new = card.state == State::New;
    let s2: u64 = if is_new {
        init_stability(&cfg.weights, rating)
    } else {
        let r = retrievability(card.stability, e);
        if rating == Rating::Again {
            lapse_stability(&cfg.weights, card.stability, card.difficulty, r)
        } else {
            success_stability(&cfg.weights, card.stability, card.difficulty, r, rating)
        }
    };
    let d2: u64 = if is_new {
        init_difficulty(&cfg.weights, rating)
    } else {
        next_difficulty(&cfg.weights, card.difficulty, rating)
    };
    let st2 = next_state(card.state, rating);
    let due2: u64 = if st2 == State::Learning {
        now + LEARNING_STEP_SECONDS
    } else {
        let ivl = next_interval(s2, cfg.desired_retention, cfg.maximum_interval);
        let planned = if cfg.enable_fuzzing {
            fuzzed_interval(ivl, card.id, now, cfg.maximum_interval)
        } else {
            ivl
        };
        proof {
            assert(planned * SECONDS_PER_DAY <= 3_153_600_000_000) by (nonlinear_arith)
                requires
                    SECONDS_PER_DAY == 86_400,
                    0 <= planned <= 36_500,
            ;
        }
        now + planned * SECONDS_PER_DAY
    };
    let lapsed = if rating == Rating::Again {
        card.state == State::Review
    } else {
        false
    };
    let updated = Card {
        id: card.id,
        state: st2,
        stability: s2,
        difficulty: d2,
        due: due2,
        last_review: Option::Some(now),
        reps: card.reps + 1,
        lapses: if lapsed {
            card.lapses + 1
        } else {
            card.lapses
        },
    };
    let entry = ReviewLog {
        card_id: card.id,
        rating,
        reviewed_at: now,
        previous_due: card.due,
        elapsed_days: e,
        stability: s2,
        difficulty: d2,
    };
    Result::Ok((updated, entry))
}

} // verus!
