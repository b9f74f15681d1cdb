//! The body itself: what is stored, and the time step on it.

use crate::geometry::Boundary;
use crate::geometry::Vec2;
use crate::model::State;
use crate::units::clamp;
use crate::units::in_range;
use crate::units::MAX_MAGNITUDE;
use crate::units::UNITS_PER_PIXEL;
use vstd::prelude::*;

verus! {

/// Width of the rectangle of the default body, in display units.
pub const WINDOW_WIDTH: i64 = 1366;

/// Height of the rectangle of the default body, in display units.
pub const WINDOW_HEIGHT: i64 = 768;

/// Radius of the default body, in display units.
pub const DEFAULT_RADIUS: i64 = 30;

/// Speed of the default body along each axis, in display units per second,
/// which is also its speed in length units per tick.
pub const DEFAULT_SPEED: i64 = 500;

/// The state that a body made from these parts has.
pub open spec fn state_of(boundary: Boundary, radius: i64, position: Vec2, velocity: Vec2) -> State {
    State {
        radius: radius as int,
        x: position.x as int,
        y: position.y as int,
        vx: velocity.x as int,
        vy: velocity.y as int,
        width: boundary.width as int,
        height: boundary.height as int,
    }
}

/// Whether `v` is a storable magnitude.
fn is_in_range(v: i64) -> (ok: bool)
    ensures
        ok == in_range(v as int),
{
    -MAX_MAGNITUDE <= v && v <= MAX_MAGNITUDE
}

/// Where a coordinate gets in `delta` ticks of free motion, kept within the
/// storable magnitude.
fn advance_coordinate(position: i64, velocity: i64, delta: u64) -> (moved: i64)
    requires
        in_range(position as int),
        in_range(velocity as int),
    ensures
        moved == clamp(position + velocity * delta),
{
    assert(-MAX_MAGNITUDE * 0xffff_ffff_ffff_ffff <= velocity * delta <= MAX_MAGNITUDE
        * 0xffff_ffff_ffff_ffff) by (nonlinear_arith)
        requires
            -MAX_MAGNITUDE <= velocity <= MAX_MAGNITUDE,
            0 <= delta <= 0xffff_ffff_ffff_ffff,
    ;
    let travelled: i128 = (velocity as i128) * (delta as i128);
    let target: i128 = position as i128 + travelled;
    if target < -(MAX_MAGNITUDE as i128) {
        -MAX_MAGNITUDE
    } else if target > MAX_MAGNITUDE as i128 {
        MAX_MAGNITUDE
    } else {
        target as i64
    }
}

/// A circular body inside a rectangle. The rectangle is fixed when the body is
/// made; position and velocity change only through [`Ball::update`] and
/// [`Ball::handle_wall_collisions`]; the radius may be set at any time.
#[derive(Clone, Copy, Debug, PartialEq, Eq)]
pub struct Ball {
    radius: i64,
    position: Vec2,
    velocity: Vec2,
    boundary: Boundary,
}

impl View for Ball {
    type V = State;

    closed spec fn view(&self) -> State {
        State {
            radius: self.radius as int,
            x: self.position.x as int,
            y: self.position.y as int,
            vx: self.velocity.x as int,
            vy: self.velocity.y as int,
            width: self.boundary.width as int,
            height: self.boundary.height as int,
        }
    }
}

impl Ball {
    #[verifier::type_invariant]
    spec fn well_formed(&self) -> bool {
        self@.storable()
    }

    /// A body of the given radius at `position`, moving at `velocity`, inside
    /// `boundary`. There is one exactly when the radius is positive, the sides
    /// of the rectangle are not negative, every number is within
    /// [`MAX_MAGNITUDE`], and the body lies inside the rectangle.
    pub fn new(boundary: Boundary, radius: i64, position: Vec2, velocity: Vec2) -> (made: Option<Ball>)
        ensures
            made is Some <==> state_of(boundary, radius, position, velocity).storable()
                && state_of(boundary, radius, position, velocity).contained(),
            made matches Some(ball) ==> ball@ == state_of(boundary, radius, position, velocity),
    {
        let sizes_storable: bool = 0 < radius && radius <= MAX_MAGNITUDE
            && 0 <= boundary.width && boundary.width <= MAX_MAGNITUDE
            && 0 <= boundary.height && boundary.height <= MAX_MAGNITUDE;
        let motion_storable: bool = is_in_range(position.x) && is_in_range(position.y)
            && is_in_range(velocity.x) && is_in_range(velocity.y);
        if !sizes_storable || !motion_storable {
            return None;
        }
        let contained: bool = 0 <= position.x - radius && position.x + radius <= boundary.width
            && 0 <= position.y - radius && position.y + radius <= boundary.height;
        if !contained {
            return None;
        }
        Some(Ball { radius, position, velocity, boundary })
    }

    /// The radius, in length units.
    pub fn radius(&self) -> (radius: i64)
        ensures
            radius == self@.radius,
            0 < radius <= MAX_MAGNITUDE,
    {
        proof {
            use_type_invariant(self);
        }
        self.radius
    }

    /// The centre of the body.
    pub fn position(&self) -> (position: Vec2)
        ensures
            position.x == self@.x,
            position.y == self@.y,
            in_range(position.x as int),
            in_range(position.y as int),
    {
        proof {
            use_type_invariant(self);
        }
        self.position
    }

    /// The velocity of the body.
    pub fn velocity(&self) -> (velocity: Vec2)
        ensures
            velocity.x == self@.vx,
            velocity.y == self@.vy,
            in_range(velocity.x as int),
            in_range(velocity.y as int),
    {
        proof {
            use_type_invariant(self);
        }
        self.velocity
    }

    /// The rectangle that holds the body.
    pub fn boundary(&self) -> (boundary: Boundary)
        ensures
            boundary.width == self@.width,
            boundary.height == self@.height,
            0 <= boundary.width <= MAX_MAGNITUDE,
            0 <= boundary.height <= MAX_MAGNITUDE,
    {
        proof {
            use_type_invariant(self);
        }
        self.boundary
    }

    /// Gives the body another radius, and says whether it did. A radius that
    /// is not positive or beyond [`MAX_MAGNITUDE`] is refused and changes
    /// nothing. The body is not moved: where the new radius makes it reach
    /// past a wall, the next time step puts it back.
    pub fn set_radius(&mut self, radius: i64) -> (accepted: bool)
        ensures
            accepted <==> 0 < radius <= MAX_MAGNITUDE,
            accepted ==> final(self)@ == (State { radius: radius as int, ..old(self)@ }),
            !accepted ==> final(self)@ == old(self)@,
            final(self)@.storable(),
    {
        proof {
            use_type_invariant(&*self);
        }
        if 0 < radius && radius <= MAX_MAGNITUDE {
            self.radius = radius;
            true
        } else {
            false
        }
    }

    /// Advances the body by `delta` ticks: the centre moves by velocity times
    /// `delta`, then [`Ball::handle_wall_collisions`] puts the body back
    /// inside and turns its velocity round wherever it ran into a wall. There
    /// is no duration for which this fails, and none of zero length moves a
    /// body that lies inside its rectangle.
    pub fn update(&mut self, delta: u64)
        ensures
            final(self)@ == old(self)@.step(delta as nat),
            final(self)@.storable(),
            old(self)@.fits() ==> final(self)@.contained(),
    {
        proof {
            use_type_invariant(&*self);
        }
        // A coordinate that would leave the storable range stops at its end.
        // A body stopped there reaches past the same wall as it would at the
        // exact coordinate, so collision handling puts it in the same place.
        self.position = Vec2 {
            x: advance_coordinate(self.position.x, self.velocity.x, delta),
            y: advance_coordinate(self.position.y, self.velocity.y, delta),
        };
        self.handle_wall_collisions();
    }

    /// The x coordinate of the leftmost point of the body.
    pub fn left(&self) -> (edge: i64)
        ensures
            edge == self@.left(),
    {
        proof {
            use_type_invariant(self);
        }
        self.position.x - self.radius
    }

    /// The x coordinate of the rightmost point of the body.
    pub fn right(&self) -> (edge: i64)
        ensures
            edge == self@.right(),
    {
        proof {
            use_type_invariant(self);
        }
        self.position.x + self.radius
    }

    /// The y coordinate of the topmost point of the body.
    pub fn top(&self) -> (edge: i64)
        ensures
            edge == self@.top(),
    {
        proof {
            use_type_invariant(self);
        }
        self.position.y - self.radius
    }

    /// The y coordinate of the lowest point of the body.
    pub fn bottom(&self) -> (edge: i64)
        ensures
            edge == self@.bottom(),
    {
        proof {
            use_type_invariant(self);
        }
        self.position.y + self.radius
    }

    /// Whether no part of the body's bounding box lies outside the rectangle.
    pub fn is_contained(&self) -> (inside: bool)
        ensures
            inside == self@.contained(),
    {
        0 <= self.left() && self.right() <= self.boundary.width && 0 <= self.top() && self.bottom()
            <= self.boundary.height
    }

    /// Whether the radius is at most half of the smaller side of the
    /// rectangle. Only then is the body inside after every time step.
    pub fn fits(&self) -> (small_enough: bool)
        ensures
            small_enough == self@.fits(),
    {
        proof {
            use_type_invariant(self);
        }
        2 * self.radius <= self.boundary.width && 2 * self.radius <= self.boundary.height
    }

    /// Puts a body that reaches past a wall back inside, and turns its
    /// velocity round on that axis. Each axis is treated on its own, and on
    /// each the wall at the origin is looked at first.
    pub fn handle_wall_collisions(&mut self)
        ensures
            final(self)@ == old(self)@.resolve(),
            final(self)@.storable(),
            old(self)@.fits() ==> final(self)@.contained(),
    {
        proof {
            use_type_invariant(&*self);
        }
        if self.left() < 0 {
            // shift the ball back into the rectangle if it has slipped out
            let left_overlap: i64 = 0 - self.left();
            self.position.x = self.position.x + left_overlap;
            self.velocity.x = -self.velocity.x;
        } else if self.right() > self.boundary.width {
            let right_overlap: i64 = self.right() - self.boundary.width;
            self.position.x = self.position.x - right_overlap;
            self.velocity.x = -self.velocity.x;
        }
        if self.top() < 0 {
            let top_overlap: i64 = 0 - self.top();
            self.position.y = self.position.y + top_overlap;
            self.velocity.y = -self.velocity.y;
        } else if self.bottom() > self.boundary.height {
            let bottom_overlap: i64 = self.bottom() - self.boundary.height;
            self.position.y = self.position.y - bottom_overlap;
            self.velocity.y = -self.velocity.y;
        }
    }
}

impl Default for Ball {
    /// The body at the centre of the default rectangle, with the default
    /// radius, moving up and to the right.
    fn default() -> (ball: Ball)
        ensures
            ball@ == (State {
                radius: 30_000_000,
                x: 683_000_000,
                y: 384_000_000,
                vx: 500,
                vy: -500,
                width: 1_366_000_000,
                height: 768_000_000,
            }),
    {
        Ball {
            radius: DEFAULT_RADIUS * UNITS_PER_PIXEL,
            position: Vec2 {
                x: WINDOW_WIDTH * UNITS_PER_PIXEL / 2,
                y: WINDOW_HEIGHT * UNITS_PER_PIXEL / 2,
            },
            velocity: Vec2 { x: DEFAULT_SPEED, y: -DEFAULT_SPEED },
            boundary: Boundary {
                width: WINDOW_WIDTH * UNITS_PER_PIXEL,
                height: WINDOW_HEIGHT * UNITS_PER_PIXEL,
            },
        }
    }
}

} // verus!
