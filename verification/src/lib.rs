//! Fixed-point core of a small sprite game: keyboard-driven motion of one
//! player, its sprite animation, and pick-up of collectibles by overlap.
//!
//! Every length is a whole number of steps, [`units::UNIT`] of them to one
//! world unit, and every time span a whole number of nanoseconds, so that
//! each rule of the game is exact integer arithmetic.

pub mod units;
pub mod geometry;
pub mod motion;
pub mod animation;
pub mod collision;
pub mod scene;
