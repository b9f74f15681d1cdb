//! The mathematical model: a body and its rectangle over the integers, and
//! what one time step does to them.
//!
//! The two axes never influence each other, so everything is first said of one
//! [`Axis`] and then put together in [`State`].

use crate::units::in_range;
use crate::units::MAX_MAGNITUDE;
use vstd::prelude::*;

verus! {

/// The body along one axis: the coordinate of its centre and its velocity.
pub struct Axis {
    pub position: int,
    pub velocity: int,
}

impl Axis {
    /// The edge of the body that faces the origin.
    pub open spec fn near(self, radius: int) -> int {
        self.position - radius
    }

    /// The edge of the body that faces away from the origin.
    pub open spec fn far(self, radius: int) -> int {
        self.position + radius
    }

    /// Free motion for `dt` ticks: one explicit Euler step.
    pub open spec fn drift(self, dt: nat) -> Axis {
        Axis { position: self.position + self.velocity * dt, velocity: self.velocity }
    }

    /// Wall contact. A body past the wall at `0` is put back so that it
    /// touches that wall, and its velocity changes sign. Otherwise a body past
    /// the wall at `limit` is put back to touch that one, and its velocity
    /// changes sign. Otherwise nothing changes. The wall at `0` is looked at
    /// first, and at most one wall acts.
    pub open spec fn reflect(self, radius: int, limit: int) -> Axis {
        if self.near(radius) < 0 {
            Axis { position: radius, velocity: -self.velocity }
        } else if self.far(radius) > limit {
            Axis { position: limit - radius, velocity: -self.velocity }
        } else {
            self
        }
    }
}

/// A body and the rectangle `[0, width] x [0, height]` that holds it. The
/// origin is the top left corner, `x` grows to the right and `y` downwards.
pub struct State {
    pub radius: int,
    pub x: int,
    pub y: int,
    pub vx: int,
    pub vy: int,
    pub width: int,
    pub height: int,
}

impl State {
    /// The x coordinate of the leftmost point of the body.
    pub open spec fn left(self) -> int {
        self.x - self.radius
    }

    /// The x coordinate of the rightmost point of the body.
    pub open spec fn right(self) -> int {
        self.x + self.radius
    }

    /// The y coordinate of the topmost point of the body.
    pub open spec fn top(self) -> int {
        self.y - self.radius
    }

    /// The y coordinate of the lowest point of the body.
    pub open spec fn bottom(self) -> int {
        self.y + self.radius
    }

    /// The motion along the x axis.
    pub open spec fn horizontal(self) -> Axis {
        Axis { position: self.x, velocity: self.vx }
    }

    /// The motion along the y axis.
    pub open spec fn vertical(self) -> Axis {
        Axis { position: self.y, velocity: self.vy }
    }

    /// The same body and rectangle with other motion along the two axes.
    pub open spec fn with_axes(self, horizontal: Axis, vertical: Axis) -> State {
        State {
            x: horizontal.position,
            vx: horizontal.velocity,
            y: vertical.position,
            vy: vertical.velocity,
            ..self
        }
    }

    /// No part of the body's bounding box lies outside the rectangle.
    pub open spec fn contained(self) -> bool {
        &&& 0 <= self.left()
        &&& self.right() <= self.width
        &&& 0 <= self.top()
        &&& self.bottom() <= self.height
    }

    /// The body is small enough to lie inside the rectangle at all: its
    /// radius is at most half of the smaller side.
    pub open spec fn fits(self) -> bool {
        2 * self.radius <= self.width && 2 * self.radius <= self.height
    }

    /// What every stored body satisfies: a positive radius, a rectangle with
    /// non-negative sides, and every number within the storable magnitude.
    pub open spec fn storable(self) -> bool {
        &&& 0 < self.radius <= MAX_MAGNITUDE
        &&& 0 <= self.width <= MAX_MAGNITUDE
        &&& 0 <= self.height <= MAX_MAGNITUDE
        &&& in_range(self.x)
        &&& in_range(self.y)
        &&& in_range(self.vx)
        &&& in_range(self.vy)
    }

    /// The square of the speed, which is twice the kinetic energy of a body
    /// of unit mass.
    pub open spec fn speed_squared(self) -> int {
        self.vx * self.vx + self.vy * self.vy
    }

    /// Integration: the centre moves by velocity times `dt`, walls ignored.
    pub open spec fn integrate(self, dt: nat) -> State {
        self.with_axes(self.horizontal().drift(dt), self.vertical().drift(dt))
    }

    /// Collision resolution on both axes, each against its own pair of walls.
    pub open spec fn resolve(self) -> State {
        self.with_axes(
            self.horizontal().reflect(self.radius, self.width),
            self.vertical().reflect(self.radius, self.height),
        )
    }

    /// One time step of `dt` ticks: integration, then collision resolution.
    pub open spec fn step(self, dt: nat) -> State {
        self.integrate(dt).resolve()
    }
}

/// The state after one time step for each entry of `dts`, in order.
pub open spec fn run(start: State, dts: Seq<nat>) -> State
    decreases dts.len(),
{
    if dts.len() == 0 {
        start
    } else {
        run(start, dts.drop_last()).step(dts.last())
    }
}

} // verus!
