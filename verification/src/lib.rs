//! A spaced-repetition scheduling engine.
//!
//! The engine decides when a learner should next review a piece of material,
//! based on a memory model with two state variables per card: stability (how
//! long a memory lasts) and difficulty (how hard the material is). All
//! arithmetic is fixed-point over unsigned integers: stability and difficulty
//! are kept in thousandths (milli-units), probabilities in thousandths
//! (per-mille). The engine is a pure function of its inputs: it never reads a
//! clock, never mutates its arguments, and never panics.
//!
//! - [`cards`] holds the plain data: cards, ratings, logs, configuration.
//! - [`params`] pins the model's fixed constants and scales.
//! - [`weights`] defines the tunable weight table and its domains.
//! - [`retention`] computes the forgetting curve.
//! - [`memory`] moves stability and difficulty on a review.
//! - [`planner`] turns stability and a retention target into an interval.
//! - [`scheduler`] orchestrates one review end to end.

pub mod cards;
pub mod memory;
pub mod params;
pub mod planner;
pub mod retention;
pub mod scheduler;
pub mod weights;
