use fsrs_engine::cards::Rating;
use fsrs_engine::memory::{
    init_difficulty, init_stability, lapse_stability, next_difficulty, success_stability,
};
use fsrs_engine::weights::default_weights;

#[test]
fn initial_memory_state_is_a_table_lookup() {
    let w = default_weights();
    assert_eq!(init_stability(&w, Rating::Again), 400);
    assert_eq!(init_stability(&w, Rating::Hard), 600);
    assert_eq!(init_stability(&w, Rating::Good), 2400);
    assert_eq!(init_stability(&w, Rating::Easy), 5800);
    assert_eq!(init_difficulty(&w, Rating::Again), 6600);
    assert_eq!(init_difficulty(&w, Rating::Hard), 5800);
    assert_eq!(init_difficulty(&w, Rating::Good), 5000);
    assert_eq!(init_difficulty(&w, Rating::Easy), 4200);
}

#[test]
fn difficulty_stays_clamped_for_every_rating() {
    let w = default_weights();
    let ratings = [Rating::Again, Rating::Hard, Rating::Good, Rating::Easy];
    for &rating in &ratings {
        for &d in &[1000u64, 5000, 10_000] {
            let d2 = next_difficulty(&w, d, rating);
            assert!(d2 >= 1000 && d2 <= 10_000);
        }
        let d0 = init_difficulty(&w, rating);
        assert!(d0 >= 1000 && d0 <= 10_000);
    }
}

#[test]
fn difficulty_moves_up_on_again_and_down_on_easy() {
    let w = default_weights();
    let again = next_difficulty(&w, 5000, Rating::Again);
    let good = next_difficulty(&w, 5000, Rating::Good);
    let easy = next_difficulty(&w, 5000, Rating::Easy);
    assert!(again > good);
    assert!(easy < good);
    // Mean reversion pulls the unchanged Good case toward the target of 4.0.
    assert_eq!(good, 4950);
    assert_eq!(again, 6280);
    assert_eq!(easy, 4285);
}

#[test]
fn difficulty_saturates_at_the_bounds() {
    let w = default_weights();
    // At the upper clamp an Again rating cannot push difficulty past 10.
    assert_eq!(next_difficulty(&w, 10_000, Rating::Again), 9700);
    // At the lower clamp an Easy rating cannot push difficulty below 1.
    assert_eq!(next_difficulty(&w, 1000, Rating::Easy), 1150);
}

#[test]
fn lapse_shrinks_stability_but_respects_the_floor() {
    let w = default_weights();
    let shrunk = lapse_stability(&w, 10_000, 5000, 810);
    assert_eq!(shrunk, 3898);
    assert!(shrunk < 10_000);
    // A lapse on an already minimal memory stays at the floor of 0.01 days.
    assert_eq!(lapse_stability(&w, 10, 10_000, 0), 10);
}

#[test]
fn success_never_shrinks_stability() {
    let w = default_weights();
    for &rating in &[Rating::Hard, Rating::Good, Rating::Easy] {
        for &s in &[10u64, 2400, 10_000, 1_000_000, 36_500_000] {
            let s2 = success_stability(&w, s, 5000, 810, rating);
            assert!(s2 >= s);
            assert!(s2 <= 36_500_000);
        }
    }
}

#[test]
fn success_growth_is_monotone_in_stability() {
    let w = default_weights();
    let mut previous = 0u64;
    for &s in &[10u64, 100, 1000, 10_000, 100_000, 1_000_000, 10_000_000] {
        let s2 = success_stability(&w, s, 5000, 500, Rating::Good);
        assert!(s2 > previous);
        previous = s2;
    }
}

#[test]
fn easy_outgrows_good_outgrows_hard() {
    let w = default_weights();
    let hard = success_stability(&w, 10_000, 5000, 810, Rating::Hard);
    let good = success_stability(&w, 10_000, 5000, 810, Rating::Good);
    let easy = success_stability(&w, 10_000, 5000, 810, Rating::Easy);
    assert!(hard < good);
    assert!(good < easy);
}

#[test]
fn full_recall_success_still_gains_the_minimum() {
    let w = default_weights();
    // At retrievability 1.0 the growth term vanishes; the minimum gain
    // weight still moves the memory forward.
    assert_eq!(success_stability(&w, 2400, 5000, 1000, Rating::Good), 2500);
}

#[test]
fn success_growth_exact_value() {
    let w = default_weights();
    // 3000 * (11000-6280) * (1000-818) * 800 * 1056 * 1000
    //   / (10^12 * 1000) = 2177.
    assert_eq!(success_stability(&w, 1056, 6280, 818, Rating::Hard), 3233);
}
