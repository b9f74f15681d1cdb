//! A single circular body that moves inside a fixed rectangle and bounces off
//! its walls without loss of speed.
//!
//! All quantities are integers, so a time step is exact: lengths are counted
//! in length units, durations in ticks and velocities in length units per tick
//! (see [`units`]). What the window shows and what the frame clock says is
//! converted by the caller.
//!
//! - [`model`] says over the mathematical integers what a body is and what one
//!   time step does to it.
//! - [`ball`] holds the body as it is stored, [`ball::Ball`], whose
//!   [`ball::Ball::update`] is that time step.
//! - [`laws`] proves what holds of every time step and of every sequence of
//!   them: a step of no duration changes nothing, free flight is exact, each
//!   wall turns the body round, the body stays inside, the speed stays the
//!   same.
//! - [`geometry`] and [`units`] hold the plain data and the constants.

pub mod ball;
pub mod geometry;
pub mod laws;
pub mod model;
pub mod units;
