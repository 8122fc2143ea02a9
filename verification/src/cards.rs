//! The plain data the engine works on: cards, ratings, review logs,
//! configuration, and the engine's error type.

use vstd::prelude::*;
use crate::params::{
    DIFFICULTY_MAX,
    DIFFICULTY_MIN,
    INTERVAL_CAP,
    PERMILLE,
    STABILITY_MAX,
    STABILITY_MIN,
};

verus! {

/// A learner's self-reported recall outcome. Input only.
#[derive(Clone, Copy, PartialEq, Eq, Structural, Debug)]
pub enum Rating {
    Again,
    Hard,
    Good,
    Easy,
}

impl Rating {
    /// The rating's position on the four-step scale, `1` (Again) to `4`
    /// (Easy).
    pub open spec fn grade_spec(self) -> int {
        match self {
            Rating::Again => 1,
            Rating::Hard => 2,
            Rating::Good => 3,
            Rating::Easy => 4,
        }
    }

    /// Returns the rating's position on the four-step scale.
    pub fn grade(self) -> (g: u64)
        ensures
            g == self.grade_spec(),
            1 <= g <= 4,
    {
        match self {
            Rating::Again => 1,
            Rating::Hard => 2,
            Rating::Good => 3,
            Rating::Easy => 4,
        }
    }
}

/// The scheduling phase a card is in.
#[derive(Clone, Copy, PartialEq, Eq, Structural, Debug)]
pub enum State {
    New,
    Learning,
    Review,
    Relearning,
}

/// One learnable item. The engine never mutates a card in place: a review
/// reads one card and returns a fresh one.
///
/// `stability` is in milli-days and `difficulty` in milli-points on the
/// `[1, 10]` scale; both are meaningful only once the card has left the New
/// state, when the first review initializes them from the weight table.
/// `due` and `last_review` are timestamps in seconds.
#[derive(Clone, Copy, Debug)]
pub struct Card {
    pub id: u64,
    pub state: State,
    pub stability: u64,
    pub difficulty: u64,
    pub due: u64,
    pub last_review: Option<u64>,
    pub reps: u64,
    pub lapses: u64,
}

impl Card {
    /// A card is well formed when a card past its first review carries a
    /// memory state inside the model's ranges and a last-review time, a New
    /// card carries neither, and the counters can still be incremented.
    pub open spec fn valid_spec(self) -> bool {
        &&& self.state == State::New ==> self.last_review is None
        &&& self.state != State::New ==> {
            &&& self.last_review is Some
            &&& STABILITY_MIN <= self.stability <= STABILITY_MAX
            &&& DIFFICULTY_MIN <= self.difficulty <= DIFFICULTY_MAX
        }
        &&& self.reps < u64::MAX
        &&& self.lapses < u64::MAX
    }

    /// Decides well-formedness of a supplied card.
    pub fn is_valid(&self) -> (ok: bool)
        ensures
            ok == self.valid_spec(),
    {
        let memory_ok = match self.last_review {
            Option::Some(_) => matches!(self.state, State::New) == false && STABILITY_MIN
                <= self.stability && self.stability <= STABILITY_MAX && DIFFICULTY_MIN
                <= self.difficulty && self.difficulty <= DIFFICULTY_MAX,
            Option::None => matches!(self.state, State::New),
        };
        memory_ok && self.reps < u64::MAX && self.lapses < u64::MAX
    }

    /// A fresh card, never reviewed, due at its creation time.
    pub fn new(id: u64, created: u64) -> (c: Card)
        ensures
            c.id == id,
            c.state == State::New,
            c.due == created,
            c.last_review is None,
            c.reps == 0,
            c.lapses == 0,
            c.valid_spec(),
    {
        Card {
            id,
            state: State::New,
            stability: 0,
            difficulty: 0,
            due: created,
            last_review: Option::None,
            reps: 0,
            lapses: 0,
        }
    }
}

/// One immutable record of a review event: the inputs the engine saw and the
/// memory state it produced.
#[derive(Clone, Copy, Debug)]
pub struct ReviewLog {
    pub card_id: u64,
    pub rating: Rating,
    pub reviewed_at: u64,
    pub previous_due: u64,
    pub elapsed_days: u64,
    pub stability: u64,
    pub difficulty: u64,
}

/// Immutable per-scheduler configuration: the retention the planner aims at
/// (per-mille, in `(0, 1)`), the interval cap in days, the weight table, and
/// whether planned intervals are fuzzed.
#[derive(Clone, Debug)]
pub struct SchedulerConfig {
    pub desired_retention: u64,
    pub maximum_interval: u64,
    pub weights: Vec<u64>,
    pub enable_fuzzing: bool,
}

impl SchedulerConfig {
    /// The retention target must be a probability strictly between zero and
    /// one, and the interval cap a positive day count the planner supports.
    pub open spec fn bounds_ok_spec(self) -> bool {
        &&& 1 <= self.desired_retention < PERMILLE
        &&& 1 <= self.maximum_interval <= INTERVAL_CAP
    }

    /// Decides whether retention target and interval cap are in range.
    pub fn bounds_ok(&self) -> (ok: bool)
        ensures
            ok == self.bounds_ok_spec(),
    {
        1 <= self.desired_retention && self.desired_retention < PERMILLE
            && 1 <= self.maximum_interval && self.maximum_interval <= INTERVAL_CAP
    }
}

/// A tagged failure, surfaced to the caller synchronously; the engine never
/// retries and never degrades silently.
#[derive(Clone, Copy, PartialEq, Eq, Structural, Debug)]
pub enum FsrsError {
    /// A malformed input: a wrong-arity weight set, an out-of-range retention
    /// target or interval cap, an ill-formed card, or a review time that
    /// precedes the card's last review.
    InvalidInput,
    /// A weight set of the right arity whose values leave their documented
    /// domains and would drive the model out of its arithmetic range.
    ArithmeticDomainError,
}

} // verus!
