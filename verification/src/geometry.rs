//! Plain data that goes in and out of a body: a pair of coordinates and the
//! sides of the rectangle.

use vstd::prelude::*;

verus! {

/// A point or a velocity in the plane, in length units or length units per
/// tick.
#[derive(Clone, Copy, Debug, PartialEq, Eq, Structural)]
pub struct Vec2 {
    pub x: i64,
    pub y: i64,
}

/// The rectangle from `(0, 0)` to `(width, height)`, in length units.
#[derive(Clone, Copy, Debug, PartialEq, Eq, Structural)]
pub struct Boundary {
    pub width: i64,
    pub height: i64,
}

} // verus!
