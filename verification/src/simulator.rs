//! The tick that advances a flock, and the ways boids come into being.
use vstd::prelude::*;
use crate::fixed::{scale, trunc_div, Fixed};
use crate::flock::{Boid, Bounds, Flock, FlockParameters, FlockState};
use crate::motion::{advance, advanced};
use crate::random::{random_between, random_bits};
use crate::rules::{
    alignment, alignment_pass, cohesion, cohesion_pass, separation, separation_pass,
};
use crate::vector::Vec2;

verus! {

/// Every boid of `boids` steered from the edges, normalized in speed and
/// moved.
pub open spec fn advanced_all(
    boids: Seq<Boid>,
    params: FlockParameters,
    bounds: Bounds,
    elapsed: Fixed,
) -> Seq<Boid> {
    Seq::new(boids.len(), |i: int| advanced(boids[i], params, bounds, elapsed))
}

/// The boids one tick later. Separation runs over the whole flock first,
/// alignment then reads what separation wrote, cohesion reads what alignment
/// wrote, and at last every boid is advanced on its own.
pub open spec fn ticked(
    boids: Seq<Boid>,
    params: FlockParameters,
    bounds: Bounds,
    elapsed: Fixed,
) -> Seq<Boid> {
    advanced_all(
        cohesion(alignment(separation(boids, params), params), params),
        params,
        bounds,
        elapsed,
    )
}

/// The flock one tick of `elapsed` seconds later. Parameters and bounds are
/// read, never written.
pub open spec fn tick(flock: Flock, elapsed: Fixed) -> Flock {
    Flock {
        boids: ticked(flock.boids, flock.params, flock.bounds, elapsed),
        params: flock.params,
        bounds: flock.bounds,
    }
}

/// Advances every boid on its own: edge steering, speed normalization,
/// movement.
pub fn advance_all(
    flock: &Vec<Boid>,
    params: &FlockParameters,
    bounds: Bounds,
    elapsed: Fixed,
) -> (next: Vec<Boid>)
    ensures
        next@ == advanced_all(flock@, *params, bounds, elapsed),
{
    let n: usize = flock.len();
    let mut next: Vec<Boid> = Vec::with_capacity(n);
    let mut i: usize = 0;
    while i < n
        invariant
            i <= n,
            n == flock@.len(),
            next@.len() == i,
            forall|k: int| 0 <= k < i ==> next@[k] == advanced(flock@[k], *params, bounds, elapsed),
        decreases n - i,
    {
        next.push(advance(flock[i], params, bounds, elapsed));
        i = i + 1;
    }
    assert(next@ =~= advanced_all(flock@, *params, bounds, elapsed));
    next
}

/// Advances the flock by one tick of `elapsed_seconds`.
///
/// The outcome depends on nothing but the state and the elapsed time: the
/// same flock stepped twice by the same time gives the same flock.
pub fn step(state: &mut FlockState, elapsed_seconds: Fixed)
    ensures
        final(state)@ == tick(old(state)@, elapsed_seconds),
{
    let apart = separation_pass(&state.boids, &state.params);
    let matched = alignment_pass(&apart, &state.params);
    let gathered = cohesion_pass(&matched, &state.params);
    let next = advance_all(&gathered, &state.params, state.bounds, elapsed_seconds);
    state.boids = next;
}

/// The fraction in `[0, 1)` that a 32-bit draw stands for: the draw divided
/// by `2^32`.
pub open spec fn fraction(draw: u32) -> Fixed {
    Fixed { bits: draw as i64 }
}

/// The boid that four draws spawn: each coordinate of the position is a
/// fraction of the matching extent of `bounds`, each velocity component a
/// fraction of twenty times `max_speed`.
pub open spec fn spawned(
    bounds: Bounds,
    max_speed: Fixed,
    at_x: u32,
    at_y: u32,
    speed_x: u32,
    speed_y: u32,
) -> Boid {
    Boid {
        position: Vec2 {
            x: fraction(at_x).spec_mul(bounds.width),
            y: fraction(at_y).spec_mul(bounds.height),
        },
        velocity: Vec2 {
            x: fraction(speed_x).spec_mul(max_speed).spec_mul(Fixed::whole(20)),
            y: fraction(speed_y).spec_mul(max_speed).spec_mul(Fixed::whole(20)),
        },
    }
}

/// Whether `value` lies between zero and `limit`: from zero up to but not
/// including a positive limit, from zero down to but not including a
/// negative one.
pub open spec fn short_of(value: int, limit: int) -> bool {
    if limit > 0 {
        0 <= value < limit
    } else if limit < 0 {
        limit < value <= 0
    } else {
        value == 0
    }
}

/// A fraction of a number lies between zero and that number.
pub proof fn lemma_fraction_short_of(draw: u32, whole: Fixed)
    ensures
        short_of(fraction(draw).spec_mul(whole)@, whole@),
{
    let d = draw as int;
    let w = whole@;
    let s = scale();
    if w >= 0 {
        assert(0 <= d * w && (w > 0 ==> d * w < s * w) && (w == 0 ==> d * w == 0))
            by (nonlinear_arith)
            requires
                0 <= d < s,
                w >= 0,
        ;
        assert(0 <= (d * w) / s && (w > 0 ==> (d * w) / s < w) && (w == 0 ==> (d * w) / s == 0))
            by (nonlinear_arith)
            requires
                0 <= d * w,
                w > 0 ==> d * w < s * w,
                w == 0 ==> d * w == 0,
                s > 0,
        ;
    } else {
        let m = -(d * w);
        assert(0 <= m && m < s * (-w) && (d == 0 ==> m == 0)) by (nonlinear_arith)
            requires
                0 <= d < s,
                w < 0,
                m == -(d * w),
        ;
        assert(0 <= m / s && m / s < -w) by (nonlinear_arith)
            requires
                0 <= m,
                m < s * (-w),
                s > 0,
        ;
        assert(trunc_div(d * w, s) == -(m / s) || (d * w == 0 && trunc_div(d * w, s) == 0)) by {
            if d * w >= 0 {
                assert(d * w == 0);
            }
        }
    }
}

/// Twenty times a number short of a limit is short of twenty times the
/// limit.
pub proof fn lemma_twentyfold_short_of(value: Fixed, limit: int)
    requires
        short_of(value@, limit),
    ensures
        short_of(value.spec_mul(Fixed::whole(20))@, 20 * limit),
{
    let v = value@;
    let s = scale();
    assert(Fixed::whole(20)@ == 20 * s);
    let p = v * (20 * s);
    assert(p == (20 * v) * s) by (nonlinear_arith)
        requires
            p == v * (20 * s),
    ;
    if v >= 0 {
        assert(((20 * v) * s) / s == 20 * v) by (nonlinear_arith)
            requires
                s > 0,
        ;
    } else {
        assert(-p == (-(20 * v)) * s) by (nonlinear_arith)
            requires
                p == (20 * v) * s,
        ;
        assert(((-(20 * v)) * s) / s == -(20 * v)) by (nonlinear_arith)
            requires
                s > 0,
        ;
    }
    assert(trunc_div(p, s) == 20 * v);
}

/// Appends the boid that the four draws spawn, and returns it.
///
/// Whatever the draws, the boid lies inside bounds of positive extent, and
/// each velocity component lies between zero and twenty times `max_speed`.
pub fn spawn_with(
    state: &mut FlockState,
    bounds: Bounds,
    max_speed: Fixed,
    at_x: u32,
    at_y: u32,
    speed_x: u32,
    speed_y: u32,
) -> (boid: Boid)
    ensures
        boid == spawned(bounds, max_speed, at_x, at_y, speed_x, speed_y),
        final(state)@.boids == old(state)@.boids.push(boid),
        final(state)@.params == old(state)@.params,
        final(state)@.bounds == old(state)@.bounds,
        short_of(boid.position.x@, bounds.width@),
        short_of(boid.position.y@, bounds.height@),
        short_of(boid.velocity.x@, 20 * max_speed@),
        short_of(boid.velocity.y@, 20 * max_speed@),
{
    let twenty = Fixed::from_int(20);
    let boid = Boid {
        position: Vec2 {
            x: Fixed::from_bits(at_x as i64).mul(bounds.width),
            y: Fixed::from_bits(at_y as i64).mul(bounds.height),
        },
        velocity: Vec2 {
            x: Fixed::from_bits(speed_x as i64).mul(max_speed).mul(twenty),
            y: Fixed::from_bits(speed_y as i64).mul(max_speed).mul(twenty),
        },
    };
    proof {
        lemma_fraction_short_of(at_x, bounds.width);
        lemma_fraction_short_of(at_y, bounds.height);
        lemma_fraction_short_of(speed_x, max_speed);
        lemma_fraction_short_of(speed_y, max_speed);
        lemma_twentyfold_short_of(fraction(speed_x).spec_mul(max_speed), max_speed@);
        lemma_twentyfold_short_of(fraction(speed_y).spec_mul(max_speed), max_speed@);
    }
    state.boids.push(boid);
    boid
}

/// Appends one boid at a random place inside `bounds`, with a random
/// velocity of non-negative components below twenty times `max_speed`, and
/// returns it.
pub fn spawn(state: &mut FlockState, bounds: Bounds, max_speed: Fixed) -> (boid: Boid)
    ensures
        exists|at_x: u32, at_y: u32, speed_x: u32, speed_y: u32|
            boid == spawned(bounds, max_speed, at_x, at_y, speed_x, speed_y),
        final(state)@.boids == old(state)@.boids.push(boid),
        final(state)@.params == old(state)@.params,
        final(state)@.bounds == old(state)@.bounds,
        short_of(boid.position.x@, bounds.width@),
        short_of(boid.position.y@, bounds.height@),
        short_of(boid.velocity.x@, 20 * max_speed@),
        short_of(boid.velocity.y@, 20 * max_speed@),
{
    let at_x: u32 = random_bits();
    let at_y: u32 = random_bits();
    let speed_x: u32 = random_bits();
    let speed_y: u32 = random_bits();
    spawn_with(state, bounds, max_speed, at_x, at_y, speed_x, speed_y)
}

/// Whether there is room to place boids at random: inside the bounds a
/// stretch is left on each axis once `inset` is taken off both ends, and the
/// negated minimum speed lies below the maximum speed.
pub open spec fn has_room(bounds: Bounds, params: FlockParameters, inset: Fixed) -> bool {
    &&& inset@ < bounds.width.spec_sub(inset)@
    &&& inset@ < bounds.height.spec_sub(inset)@
    &&& params.min_speed.spec_neg()@ < params.max_speed@
}

/// Whether `boid` is one that populating may place: it keeps `inset` away
/// from every edge, and each velocity component lies from the negated
/// minimum speed up to, but not including, the maximum speed.
pub open spec fn placed_within(
    boid: Boid,
    bounds: Bounds,
    params: FlockParameters,
    inset: Fixed,
) -> bool {
    &&& inset@ <= boid.position.x@ < bounds.width.spec_sub(inset)@
    &&& inset@ <= boid.position.y@ < bounds.height.spec_sub(inset)@
    &&& params.min_speed.spec_neg()@ <= boid.velocity.x@ < params.max_speed@
    &&& params.min_speed.spec_neg()@ <= boid.velocity.y@ < params.max_speed@
}

/// Whether boids can be placed at random in `bounds` with `params`.
pub fn check_room(bounds: Bounds, params: &FlockParameters, inset: Fixed) -> (r: bool)
    ensures
        r == has_room(bounds, *params, inset),
{
    inset.less_than(bounds.width.sub(inset)) && inset.less_than(bounds.height.sub(inset))
        && params.min_speed.neg().less_than(params.max_speed)
}

/// Appends `count` boids, each at a random place that keeps `inset` away
/// from the edges of the flock's bounds, with random velocity components
/// from the negated minimum speed up to the maximum speed.
pub fn populate(state: &mut FlockState, count: usize, inset: Fixed)
    requires
        has_room(old(state)@.bounds, old(state)@.params, inset),
    ensures
        final(state)@.params == old(state)@.params,
        final(state)@.bounds == old(state)@.bounds,
        final(state)@.boids.len() == old(state)@.boids.len() + count,
        forall|k: int|
            0 <= k < old(state)@.boids.len() ==> final(state)@.boids[k] == old(state)@.boids[k],
        forall|k: int|
            old(state)@.boids.len() <= k < final(state)@.boids.len() ==> placed_within(
                #[trigger] final(state)@.boids[k],
                old(state)@.bounds,
                old(state)@.params,
                inset,
            ),
{
    let ghost before = state@;
    let x_end = state.bounds.width.sub(inset);
    let y_end = state.bounds.height.sub(inset);
    let slowest = state.params.min_speed.neg();
    let fastest = state.params.max_speed;
    let mut made: usize = 0;
    while made < count
        invariant
            made <= count,
            state@.params == before.params,
            state@.bounds == before.bounds,
            x_end == before.bounds.width.spec_sub(inset),
            y_end == before.bounds.height.spec_sub(inset),
            slowest == before.params.min_speed.spec_neg(),
            fastest == before.params.max_speed,
            has_room(before.bounds, before.params, inset),
            state@.boids.len() == before.boids.len() + made,
            forall|k: int| 0 <= k < before.boids.len() ==> state@.boids[k] == before.boids[k],
            forall|k: int|
                before.boids.len() <= k < state@.boids.len() ==> placed_within(
                    #[trigger] state@.boids[k],
                    before.bounds,
                    before.params,
                    inset,
                ),
        decreases count - made,
    {
        let boid = Boid {
            position: Vec2 {
                x: Fixed::from_bits(random_between(inset.bits, x_end.bits)),
                y: Fixed::from_bits(random_between(inset.bits, y_end.bits)),
            },
            velocity: Vec2 {
                x: Fixed::from_bits(random_between(slowest.bits, fastest.bits)),
                y: Fixed::from_bits(random_between(slowest.bits, fastest.bits)),
            },
        };
        state.boids.push(boid);
        made = made + 1;
    }
}

} // verus!
