//! Units of measurement and the limits of what a body can store.
//!
//! Lengths are whole numbers of length units and durations whole numbers of
//! ticks. A display unit (one pixel) holds [`UNITS_PER_PIXEL`] length units and
//! a second holds [`TICKS_PER_SECOND`] ticks. A velocity is a number of length
//! units per tick; because the two subdivisions are equal, that number is also
//! the velocity in display units per second.

use vstd::prelude::*;

verus! {

/// Length units in one display unit.
pub const UNITS_PER_PIXEL: i64 = 1_000_000;

/// Ticks in one second.
pub const TICKS_PER_SECOND: u64 = 1_000_000;

/// Largest magnitude of a stored length, coordinate or velocity component.
pub const MAX_MAGNITUDE: i64 = 1_000_000_000_000_000_000;

/// Whether `v` is a magnitude that a body can store.
pub open spec fn in_range(v: int) -> bool {
    -MAX_MAGNITUDE <= v <= MAX_MAGNITUDE
}

/// `v`, moved to the nearest storable magnitude.
pub open spec fn clamp(v: int) -> int {
    if v < -MAX_MAGNITUDE {
        -MAX_MAGNITUDE as int
    } else if v > MAX_MAGNITUDE {
        MAX_MAGNITUDE as int
    } else {
        v
    }
}

} // verus!
