//! What holds of every time step and of every sequence of time steps.

use crate::model::run;
use crate::model::State;
use vstd::math::abs;
use vstd::prelude::*;

verus! {

/// A time step of no duration leaves a body that lies inside its rectangle
/// exactly as it was: same position, same velocity.
pub proof fn zero_step_changes_nothing(s: State)
    requires
        s.contained(),
    ensures
        s.step(0) == s,
{
}

/// Free flight: where the body after integration lies inside its rectangle,
/// touching a wall or not, the time step is integration and nothing else. The
/// centre has moved by velocity times duration exactly, and the velocity is
/// the same.
pub proof fn free_flight_is_exact(s: State, dt: nat)
    requires
        s.integrate(dt).contained(),
    ensures
        s.step(dt) == s.integrate(dt),
        s.step(dt).x == s.x + s.vx * dt,
        s.step(dt).y == s.y + s.vy * dt,
        s.step(dt).vx == s.vx,
        s.step(dt).vy == s.vy,
{
}

/// Left wall: a body that integration carries past the left wall ends the
/// time step touching that wall from inside, with its horizontal velocity
/// negated, so that a body that moved to the left now moves to the right.
pub proof fn left_wall_bounce(s: State, dt: nat)
    requires
        s.integrate(dt).left() < 0,
    ensures
        s.step(dt).left() == 0,
        s.step(dt).x == s.radius,
        s.step(dt).vx == -s.vx,
        s.vx < 0 ==> s.step(dt).vx > 0,
{
}

/// Right wall: a body that integration carries past the right wall, and not
/// past the left one, ends the time step touching the right wall from inside,
/// with its horizontal velocity negated, so that a body that moved to the
/// right now moves to the left.
pub proof fn right_wall_bounce(s: State, dt: nat)
    requires
        s.integrate(dt).left() >= 0,
        s.integrate(dt).right() > s.width,
    ensures
        s.step(dt).right() == s.width,
        s.step(dt).x == s.width - s.radius,
        s.step(dt).vx == -s.vx,
        s.vx > 0 ==> s.step(dt).vx < 0,
{
}

/// Top wall: a body that integration carries past the top wall ends the time
/// step touching that wall from inside, with its vertical velocity negated.
pub proof fn top_wall_bounce(s: State, dt: nat)
    requires
        s.integrate(dt).top() < 0,
    ensures
        s.step(dt).top() == 0,
        s.step(dt).y == s.radius,
        s.step(dt).vy == -s.vy,
        s.vy < 0 ==> s.step(dt).vy > 0,
{
}

/// Bottom wall: a body that integration carries past the bottom wall, and not
/// past the top one, ends the time step touching the bottom wall from inside,
/// with its vertical velocity negated.
pub proof fn bottom_wall_bounce(s: State, dt: nat)
    requires
        s.integrate(dt).top() >= 0,
        s.integrate(dt).bottom() > s.height,
    ensures
        s.step(dt).bottom() == s.height,
        s.step(dt).y == s.height - s.radius,
        s.step(dt).vy == -s.vy,
        s.vy > 0 ==> s.step(dt).vy < 0,
{
}

/// No sequence of time steps changes the radius or the rectangle.
pub proof fn run_keeps_frame(start: State, dts: Seq<nat>)
    ensures
        run(start, dts).radius == start.radius,
        run(start, dts).width == start.width,
        run(start, dts).height == start.height,
    decreases dts.len(),
{
    if dts.len() > 0 {
        run_keeps_frame(start, dts.drop_last());
    }
}

/// Containment after one step: a body whose radius is at most half of the
/// smaller side of its rectangle lies inside the rectangle after a time step
/// of any duration, wherever it was before.
pub proof fn step_ends_contained(s: State, dt: nat)
    requires
        s.fits(),
    ensures
        s.step(dt).contained(),
{
}

/// Containment invariant: with a radius of at most half of the smaller side
/// of the rectangle, the body lies inside the rectangle after every time step
/// of every sequence of time steps, whatever their durations.
pub proof fn run_stays_contained(start: State, dts: Seq<nat>)
    requires
        start.fits(),
    ensures
        forall|n: int| 0 < n <= dts.len() ==> #[trigger] run(start, dts.take(n)).contained(),
        dts.len() > 0 ==> run(start, dts).contained(),
{
    assert forall|steps: Seq<nat>| steps.len() > 0 implies #[trigger] run(
        start,
        steps,
    ).contained() by {
        run_keeps_frame(start, steps.drop_last());
        step_ends_contained(run(start, steps.drop_last()), steps.last());
    }
}

/// A time step changes at most the sign of each velocity component, so the
/// speed is the same after it.
pub proof fn step_conserves_speed(s: State, dt: nat)
    ensures
        abs(s.step(dt).vx) == abs(s.vx),
        abs(s.step(dt).vy) == abs(s.vy),
        s.step(dt).speed_squared() == s.speed_squared(),
{
    assert((-s.vx) * (-s.vx) == s.vx * s.vx) by (nonlinear_arith);
    assert((-s.vy) * (-s.vy) == s.vy * s.vy) by (nonlinear_arith);
}

/// Energy conservation: after any number of time steps each velocity
/// component has the magnitude it started with, and so has the velocity.
pub proof fn run_conserves_speed(start: State, dts: Seq<nat>)
    ensures
        abs(run(start, dts).vx) == abs(start.vx),
        abs(run(start, dts).vy) == abs(start.vy),
        run(start, dts).speed_squared() == start.speed_squared(),
    decreases dts.len(),
{
    if dts.len() > 0 {
        run_conserves_speed(start, dts.drop_last());
        step_conserves_speed(run(start, dts.drop_last()), dts.last());
    }
}

} // verus!
