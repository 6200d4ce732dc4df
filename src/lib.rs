//! Gameplay rules of a small farming game: a player walks the field, buys
//! pigs, and each pig drifts away until its lifetime runs out and it is sold.
//!
//! All quantities are exact integers. Time is counted in nanoseconds and
//! distance in nano-units (a billionth of a world unit), so that a speed in
//! units per second times a frame time in nanoseconds is a distance with no
//! rounding. A coordinate is held as `axial + diagonal / sqrt(2)`, which makes
//! unit-length diagonal steps exact as well.

mod geometry;
mod lifetime;
mod world;

pub use geometry::{
    lemma_direction_at_most_unit, saturate, twice_squared_length, unit_diagonal, Coord, Direction,
    HeldKeys, Position, UnitStep,
};
pub use lifetime::{lemma_tick_progress, Countdown};
pub use world::{
    drifted_frames, lemma_drift_frames, lemma_drift_independent, lemma_lifetime_frame,
    lemma_spend_exact_price, lemma_spend_short, sold_count, survivors, Money, Pig, Player, World,
    WorldView, DRIFT_SPEED, PIG_LIFETIME, PIG_PAYOUT, PIG_PRICE, PLAYER_SPEED, STARTING_BALANCE,
};
