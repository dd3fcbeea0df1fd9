//! What a boid does on its own once the steering rules have run: it turns
//! back from the edges, has its speed rescaled, and moves.
use vstd::prelude::*;
use crate::fixed::{lemma_isqrt_below, lemma_isqrt_exists, Fixed};
use crate::flock::{Boid, Bounds, FlockParameters};
use crate::vector::Vec2;

verus! {

/// One velocity component after edge steering along its axis: it gains the
/// turn factor where the coordinate is below the margin, and then loses it
/// where the coordinate is beyond the extent less the margin.
pub open spec fn nudged(
    coordinate: Fixed,
    speed: Fixed,
    extent: Fixed,
    margin: Fixed,
    turn_factor: Fixed,
) -> Fixed {
    let inward = if coordinate@ < margin@ {
        speed.spec_add(turn_factor)
    } else {
        speed
    };
    if coordinate@ > extent.spec_sub(margin)@ {
        inward.spec_sub(turn_factor)
    } else {
        inward
    }
}

/// The boid after edge steering. Only the velocity changes: the nudge is
/// soft, and a boid may still leave the area for a while.
pub open spec fn steered(boid: Boid, params: FlockParameters, bounds: Bounds) -> Boid {
    Boid {
        position: boid.position,
        velocity: Vec2 {
            x: nudged(
                boid.position.x,
                boid.velocity.x,
                bounds.width,
                params.margin,
                params.turn_factor,
            ),
            y: nudged(
                boid.position.y,
                boid.velocity.y,
                bounds.height,
                params.margin,
                params.turn_factor,
            ),
        },
    }
}

/// Whether a velocity is rescaled: its speed is not zero and lies above the
/// maximum or below the minimum.
pub open spec fn needs_rescale(velocity: Vec2, min_speed: Fixed, max_speed: Fixed) -> bool {
    let speed = velocity.spec_length();
    speed@ != 0 && (speed@ > max_speed@ || speed@ < min_speed@)
}

/// The rescaled velocity: each component is divided by the speed; the
/// horizontal one is then multiplied by the maximum speed and the vertical
/// one by the minimum speed. The two axes are deliberately treated
/// differently, so the result is not a vector of a clamped length.
pub open spec fn rescaled(velocity: Vec2, min_speed: Fixed, max_speed: Fixed) -> Vec2 {
    let speed = velocity.spec_length();
    Vec2 {
        x: velocity.x.spec_div(speed).spec_mul(max_speed),
        y: velocity.y.spec_div(speed).spec_mul(min_speed),
    }
}

/// The velocity after speed normalization: rescaled where its speed is out of
/// range, and left alone where it is in range or zero.
pub open spec fn clamped(velocity: Vec2, min_speed: Fixed, max_speed: Fixed) -> Vec2 {
    if needs_rescale(velocity, min_speed, max_speed) {
        rescaled(velocity, min_speed, max_speed)
    } else {
        velocity
    }
}

/// The boid after it has moved with its velocity for `elapsed` seconds.
pub open spec fn moved(boid: Boid, elapsed: Fixed) -> Boid {
    Boid {
        position: boid.position.spec_add(boid.velocity.spec_scale(elapsed)),
        velocity: boid.velocity,
    }
}

/// The boid after edge steering, speed normalization and movement, in that
/// order.
pub open spec fn advanced(
    boid: Boid,
    params: FlockParameters,
    bounds: Bounds,
    elapsed: Fixed,
) -> Boid {
    let turned = steered(boid, params, bounds);
    let paced = Boid {
        position: turned.position,
        velocity: clamped(turned.velocity, params.min_speed, params.max_speed),
    };
    moved(paced, elapsed)
}

/// Steers one velocity component back from the two edges of its axis.
pub fn nudge(
    coordinate: Fixed,
    speed: Fixed,
    extent: Fixed,
    margin: Fixed,
    turn_factor: Fixed,
) -> (r: Fixed)
    ensures
        r == nudged(coordinate, speed, extent, margin, turn_factor),
{
    let mut result = speed;
    if coordinate.less_than(margin) {
        result = result.add(turn_factor);
    }
    if coordinate.greater_than(extent.sub(margin)) {
        result = result.sub(turn_factor);
    }
    result
}

/// Steers a boid back from the edges of the area.
pub fn steer_from_edges(boid: Boid, params: &FlockParameters, bounds: Bounds) -> (r: Boid)
    ensures
        r == steered(boid, *params, bounds),
{
    Boid {
        position: boid.position,
        velocity: Vec2 {
            x: nudge(
                boid.position.x,
                boid.velocity.x,
                bounds.width,
                params.margin,
                params.turn_factor,
            ),
            y: nudge(
                boid.position.y,
                boid.velocity.y,
                bounds.height,
                params.margin,
                params.turn_factor,
            ),
        },
    }
}

/// Rescales a velocity whose speed is out of range. A velocity of zero has
/// no direction to rescale along and is returned as it is.
pub fn clamp_speed(velocity: Vec2, min_speed: Fixed, max_speed: Fixed) -> (r: Vec2)
    ensures
        r == clamped(velocity, min_speed, max_speed),
        velocity == Vec2::spec_zero() ==> r == velocity,
{
    let speed = velocity.length();
    proof {
        lemma_zero_has_no_speed(velocity);
    }
    if speed.bits == 0 {
        velocity
    } else if speed.greater_than(max_speed) || speed.less_than(min_speed) {
        Vec2 { x: velocity.x.div(speed).mul(max_speed), y: velocity.y.div(speed).mul(min_speed) }
    } else {
        velocity
    }
}

/// Moves a boid along its velocity for `elapsed` seconds.
pub fn integrate(boid: Boid, elapsed: Fixed) -> (r: Boid)
    ensures
        r == moved(boid, elapsed),
{
    Boid { position: boid.position.add(boid.velocity.scale(elapsed)), velocity: boid.velocity }
}

/// Steers a boid from the edges, normalizes its speed and moves it.
pub fn advance(boid: Boid, params: &FlockParameters, bounds: Bounds, elapsed: Fixed) -> (r: Boid)
    ensures
        r == advanced(boid, *params, bounds, elapsed),
{
    let turned = steer_from_edges(boid, params, bounds);
    let paced = Boid {
        position: turned.position,
        velocity: clamp_speed(turned.velocity, params.min_speed, params.max_speed),
    };
    integrate(paced, elapsed)
}

/// The speed is zero exactly for the zero vector.
pub proof fn lemma_zero_has_no_speed(velocity: Vec2)
    ensures
        velocity.spec_length()@ == 0 <==> velocity == Vec2::spec_zero(),
{
    let q = velocity.length_squared();
    let x = velocity.x@;
    let y = velocity.y@;
    lemma_isqrt_exists(q);
    assert(x * x >= 0 && y * y >= 0 && (x != 0 ==> x * x >= 1) && (y != 0 ==> y * y >= 1) && (x == 0
        ==> x * x == 0) && (y == 0 ==> y * y == 0)) by (nonlinear_arith);
    lemma_isqrt_below(q, 1);
    assert(1nat * 1nat == 1) by (nonlinear_arith);
}

} // verus!
