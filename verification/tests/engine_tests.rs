use fsrs_engine::cards::{Card, FsrsError, Rating, SchedulerConfig, State};
use fsrs_engine::planner::{fuzzed_interval, next_interval};
use fsrs_engine::retention::retrievability;
use fsrs_engine::scheduler::review;
use fsrs_engine::weights::{default_weights, weights_in_domain_check};

fn default_config() -> SchedulerConfig {
    SchedulerConfig {
        desired_retention: 900,
        maximum_interval: 36_500,
        weights: default_weights(),
        enable_fuzzing: false,
    }
}

fn review_card(stability: u64, difficulty: u64, last_review: u64) -> Card {
    Card {
        id: 2,
        state: State::Review,
        stability,
        difficulty,
        due: last_review,
        last_review: Some(last_review),
        reps: 3,
        lapses: 0,
    }
}

#[test]
fn default_weights_are_in_domain() {
    let w = default_weights();
    assert_eq!(w.len(), 17);
    assert!(weights_in_domain_check(&w));
}

#[test]
fn retrievability_is_one_at_zero_elapsed() {
    assert_eq!(retrievability(10_000, 0), 1000);
    assert_eq!(retrievability(10, 0), 1000);
    assert_eq!(retrievability(36_500_000, 0), 1000);
}

#[test]
fn retrievability_exact_value_after_ten_days() {
    // 1000 * 81 * 10000 / (81 * 10000 + 19000 * 10) = 810000000 / 1000000.
    assert_eq!(retrievability(10_000, 10), 810);
}

#[test]
fn retrievability_decreases_day_by_day() {
    let mut previous = retrievability(10_000, 0);
    for e in 1..30u64 {
        let current = retrievability(10_000, e);
        assert!(current < previous, "not strictly below at day {}", e);
        previous = current;
    }
}

#[test]
fn next_interval_exact_value() {
    // ideal = 81 * 10000 * 100 / (19 * 900) = 4736 milli-days, rounds to 5.
    assert_eq!(next_interval(10_000, 900, 36_500), 5);
}

#[test]
fn next_interval_recovers_desired_retention() {
    let d = next_interval(10_000, 900, 36_500);
    let reached = retrievability(10_000, d);
    // One whole-day rounding step away from the 900 per-mille target.
    assert_eq!(reached, 895);
    assert!(reached >= 880 && reached <= 920);
}

#[test]
fn next_interval_clamps_to_maximum() {
    // The ideal interval is 200 days; the cap of 30 wins.
    assert_eq!(next_interval(422_222, 900, 36_500), 200);
    assert_eq!(next_interval(422_222, 900, 30), 30);
}

#[test]
fn next_interval_is_at_least_one_day() {
    assert_eq!(next_interval(10, 900, 36_500), 1);
}

#[test]
fn fuzzed_interval_stays_in_band_and_bounds() {
    let d = 400u64;
    let band = d * 50 / 1000;
    for seed in 0..50u64 {
        let f = fuzzed_interval(d, seed, 7777, 36_500);
        assert!(f >= d - band && f <= d + band);
        assert!(f >= 1 && f <= 36_500);
        assert_eq!(f, fuzzed_interval(d, seed, 7777, 36_500));
    }
}

#[test]
fn new_card_good_enters_learning() {
    let card = Card::new(1, 1000);
    let (updated, entry) = review(&card, Rating::Good, 1000, &default_config()).unwrap();
    assert_eq!(updated.state, State::Learning);
    assert_eq!(updated.stability, 2400);
    assert_eq!(updated.difficulty, 5000);
    assert_eq!(updated.due, 1600);
    assert_eq!(updated.last_review, Some(1000));
    assert_eq!(updated.reps, 1);
    assert_eq!(updated.lapses, 0);
    assert_eq!(entry.card_id, 1);
    assert_eq!(entry.elapsed_days, 0);
    assert_eq!(entry.previous_due, 1000);
    assert_eq!(entry.stability, 2400);
    assert_eq!(entry.difficulty, 5000);
}

#[test]
fn new_card_easy_graduates_to_review() {
    let card = Card::new(1, 1000);
    let (updated, _) = review(&card, Rating::Easy, 1000, &default_config()).unwrap();
    assert_eq!(updated.state, State::Review);
    assert_ne!(updated.state, State::Learning);
    assert_eq!(updated.stability, 5800);
    assert_eq!(updated.difficulty, 4200);
    // Planned interval for stability 5800 at retention 0.9 is 3 days.
    assert_eq!(updated.due, 1000 + 3 * 86_400);
}

#[test]
fn review_lapse_drops_to_relearning() {
    let t0 = 86_400u64;
    let card = review_card(10_000, 5000, t0);
    let now = t0 + 10 * 86_400;
    let (updated, entry) = review(&card, Rating::Again, now, &default_config()).unwrap();
    assert_eq!(updated.state, State::Relearning);
    assert_eq!(updated.lapses, 1);
    assert!(updated.stability < 10_000);
    assert_eq!(updated.stability, 3898);
    assert_eq!(updated.difficulty, 6280);
    assert_eq!(updated.reps, 4);
    assert_eq!(updated.due, now + 2 * 86_400);
    assert_eq!(entry.elapsed_days, 10);
}

#[test]
fn review_interval_is_clamped_by_configuration() {
    let t0 = 86_400u64;
    let card = review_card(36_500_000, 5000, t0);
    let now = t0 + 86_400;
    let mut cfg = default_config();
    cfg.maximum_interval = 30;
    let (updated, _) = review(&card, Rating::Good, now, &cfg).unwrap();
    assert_eq!(updated.stability, 36_500_000);
    assert_eq!(updated.due, now + 30 * 86_400);
}

#[test]
fn review_before_last_review_is_invalid_input() {
    let card = review_card(10_000, 5000, 1000);
    let res = review(&card, Rating::Good, 999, &default_config());
    assert!(matches!(res, Err(FsrsError::InvalidInput)));
}

#[test]
fn wrong_arity_weights_are_invalid_input() {
    let mut cfg = default_config();
    cfg.weights.pop();
    let card = Card::new(1, 0);
    assert!(matches!(review(&card, Rating::Good, 0, &cfg), Err(FsrsError::InvalidInput)));
}

#[test]
fn out_of_domain_weight_is_arithmetic_domain_error() {
    let mut cfg = default_config();
    cfg.weights[4] = 0;
    let card = Card::new(1, 0);
    assert!(matches!(
        review(&card, Rating::Good, 0, &cfg),
        Err(FsrsError::ArithmeticDomainError)
    ));
}

#[test]
fn out_of_range_retention_is_invalid_input() {
    let card = Card::new(1, 0);
    let mut cfg = default_config();
    cfg.desired_retention = 0;
    assert!(matches!(review(&card, Rating::Good, 0, &cfg), Err(FsrsError::InvalidInput)));
    cfg.desired_retention = 1000;
    assert!(matches!(review(&card, Rating::Good, 0, &cfg), Err(FsrsError::InvalidInput)));
    cfg.desired_retention = 900;
    cfg.maximum_interval = 0;
    assert!(matches!(review(&card, Rating::Good, 0, &cfg), Err(FsrsError::InvalidInput)));
}

#[test]
fn ill_formed_card_is_invalid_input() {
    let mut card = review_card(10_000, 5000, 1000);
    card.stability = 0;
    assert!(matches!(
        review(&card, Rating::Good, 2000, &default_config()),
        Err(FsrsError::InvalidInput)
    ));
}

fn assert_same_outcome(a: &Card, b: &Card) {
    assert_eq!(a.id, b.id);
    assert_eq!(a.state, b.state);
    assert_eq!(a.stability, b.stability);
    assert_eq!(a.difficulty, b.difficulty);
    assert_eq!(a.due, b.due);
    assert_eq!(a.last_review, b.last_review);
    assert_eq!(a.reps, b.reps);
    assert_eq!(a.lapses, b.lapses);
}

#[test]
fn review_is_deterministic() {
    let t0 = 86_400u64;
    let card = review_card(10_000, 5000, t0);
    let now = t0 + 4 * 86_400;
    let cfg = default_config();
    let (c1, l1) = review(&card, Rating::Hard, now, &cfg).unwrap();
    let (c2, l2) = review(&card, Rating::Hard, now, &cfg).unwrap();
    assert_same_outcome(&c1, &c2);
    assert_eq!(l1.elapsed_days, l2.elapsed_days);
    assert_eq!(l1.stability, l2.stability);
    assert_eq!(l1.difficulty, l2.difficulty);
}

#[test]
fn review_is_deterministic_with_fuzzing() {
    let t0 = 86_400u64;
    let card = review_card(10_000_000, 5000, t0);
    let now = t0 + 100 * 86_400;
    let mut cfg = default_config();
    cfg.enable_fuzzing = true;
    let (c1, _) = review(&card, Rating::Good, now, &cfg).unwrap();
    let (c2, _) = review(&card, Rating::Good, now, &cfg).unwrap();
    assert_same_outcome(&c1, &c2);

    // The fuzzed due date stays inside the symmetric band around the plan.
    cfg.enable_fuzzing = false;
    let (plain, _) = review(&card, Rating::Good, now, &cfg).unwrap();
    let planned_days = (plain.due - now) / 86_400;
    let fuzzed_days = (c1.due - now) / 86_400;
    let band = planned_days * 50 / 1000;
    assert!(fuzzed_days >= planned_days - band);
    assert!(fuzzed_days <= planned_days + band);
}

#[test]
fn learning_again_repeats_the_step() {
    let t0 = 86_400u64;
    let card = Card {
        id: 5,
        state: State::Learning,
        stability: 2400,
        difficulty: 5000,
        due: t0 + 600,
        last_review: Some(t0),
        reps: 1,
        lapses: 0,
    };
    let now = t0 + 600;
    let (updated, _) = review(&card, Rating::Again, now, &default_config()).unwrap();
    assert_eq!(updated.state, State::Learning);
    assert_eq!(updated.due, now + 600);
    // A failed learning step is not a lapse.
    assert_eq!(updated.lapses, 0);
    assert_eq!(updated.stability, 1056);
}

#[test]
fn learning_good_graduates_to_review() {
    let t0 = 86_400u64;
    let card = Card {
        id: 5,
        state: State::Learning,
        stability: 2400,
        difficulty: 5000,
        due: t0 + 600,
        last_review: Some(t0),
        reps: 1,
        lapses: 0,
    };
    let now = t0 + 600;
    let (updated, _) = review(&card, Rating::Good, now, &default_config()).unwrap();
    assert_eq!(updated.state, State::Review);
    // Zero elapsed days: full recall, so only the minimum gain applies.
    assert_eq!(updated.stability, 2500);
    assert_eq!(updated.due, now + 86_400);
}

#[test]
fn relearning_hard_returns_to_review() {
    let t0 = 86_400u64;
    let card = Card {
        id: 6,
        state: State::Relearning,
        stability: 1056,
        difficulty: 6280,
        due: t0 + 2 * 86_400,
        last_review: Some(t0),
        reps: 4,
        lapses: 1,
    };
    let now = t0 + 86_400;
    let (updated, _) = review(&card, Rating::Hard, now, &default_config()).unwrap();
    assert_eq!(updated.state, State::Review);
    assert_eq!(updated.stability, 3233);
    assert_eq!(updated.difficulty, 6831);
    assert_eq!(updated.lapses, 1);
    assert_eq!(updated.due, now + 2 * 86_400);
}

#[test]
fn future_due_new_card_clamps_elapsed_to_zero() {
    let card = Card::new(9, 10_000);
    // Reviewed before it was due: allowed for a New card, elapsed clamps to 0.
    let (updated, entry) = review(&card, Rating::Good, 5_000, &default_config()).unwrap();
    assert_eq!(entry.elapsed_days, 0);
    assert_eq!(updated.state, State::Learning);
}
