//! Timing, scheduling and scoring engine of a four-lane rhythm game, and the
//! recorder that turns live lane presses into a new chart.
//!
//! Time is counted in whole microseconds and screen positions in
//! micro-pixels, so that every rule of the game is exact integer arithmetic.
pub mod consts;
pub mod lane;
pub mod chart;
pub mod score;
pub mod motion;
pub mod session;
pub mod laws;
pub mod menu;
pub mod plugins;
