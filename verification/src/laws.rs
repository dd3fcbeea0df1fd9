//! Properties of the flocking rules that hold for every flock.
use vstd::prelude::*;
use crate::fixed::{lemma_isqrt_below, saturate, scale, Fixed};
use crate::flock::{Boid, Bounds, Flock, FlockParameters};
use crate::motion::{clamped, lemma_zero_has_no_speed, needs_rescale, steered};
use crate::rules::{
    aligned, alignment, cohered, cohesion, is_neighbor, separated, separation, tally, Tally,
};
use crate::simulator::{tick, ticked};
use crate::vector::Vec2;

verus! {

/// A number at least as large in magnitude as `floor` has a square at least
/// as large as the square of `floor`.
proof fn lemma_square_of_large(value: int, floor: int)
    requires
        floor >= 0,
    ensures
        (value >= floor || value <= -floor) ==> value * value >= floor * floor,
{
    assert((value >= floor || value <= -floor) ==> value * value >= floor * floor)
        by (nonlinear_arith)
        requires
            floor >= 0,
    ;
}

/// The squared length of a saturating difference does not depend on which
/// point is subtracted from which, unless the difference saturates, in which
/// case both squared lengths are at least the square of the largest stored
/// integer.
proof fn lemma_gap_either_way(a: Vec2, b: Vec2)
    ensures
        a.spec_sub(b).length_squared() == b.spec_sub(a).length_squared() || (a.spec_sub(
            b,
        ).length_squared() >= i64::MAX * i64::MAX && b.spec_sub(a).length_squared() >= i64::MAX
            * i64::MAX),
{
    let dx = a.x@ - b.x@;
    let dy = a.y@ - b.y@;
    let fx = saturate(dx);
    let bx = saturate(-dx);
    let fy = saturate(dy);
    let by = saturate(-dy);
    let top = i64::MAX as int;
    assert(fx * fx >= 0 && bx * bx >= 0 && fy * fy >= 0 && by * by >= 0) by (nonlinear_arith);
    assert(bx == -fx ==> bx * bx == fx * fx) by (nonlinear_arith);
    assert(by == -fy ==> by * by == fy * fy) by (nonlinear_arith);
    lemma_square_of_large(fx, top);
    lemma_square_of_large(bx, top);
    lemma_square_of_large(fy, top);
    lemma_square_of_large(by, top);
}

/// Being a neighbor is mutual: whenever one point counts as a neighbor of
/// another, the other counts as a neighbor of the first.
pub proof fn lemma_neighbors_are_mutual(a: Vec2, b: Vec2, range: Fixed)
    ensures
        is_neighbor(a, b, range) == is_neighbor(b, a, range),
{
    let qa = b.spec_sub(a).length_squared();
    let qb = a.spec_sub(b).length_squared();
    lemma_gap_either_way(a, b);
    let top = i64::MAX as nat;
    lemma_isqrt_below(qa, top);
    lemma_isqrt_below(qb, top);
    assert(top * top == i64::MAX * i64::MAX) by (nonlinear_arith)
        requires
            top == i64::MAX,
    ;
}

/// One component of the separation push has the sign of the offset that
/// causes it: the change of the speed times the offset is never negative, and
/// is positive as soon as the speed changes at all.
proof fn lemma_push_follows_offset(speed: Fixed, offset: int, factor: Fixed)
    requires
        factor@ > 0,
    ensures
        ({
            let gain = speed.spec_add(Fixed::of(offset).spec_mul(factor))@ - speed@;
            &&& gain * offset >= 0
            &&& gain != 0 ==> gain * offset > 0
        }),
{
    let f = factor@;
    let o = Fixed::of(offset)@;
    let s = scale();
    let push = Fixed::of(offset).spec_mul(factor)@;
    let gain = speed.spec_add(Fixed::of(offset).spec_mul(factor))@ - speed@;
    if offset > 0 {
        assert(o * f > 0) by (nonlinear_arith)
            requires
                o > 0,
                f > 0,
        ;
        assert((o * f) / s >= 0) by (nonlinear_arith)
            requires
                o * f > 0,
                s > 0,
        ;
        assert(push >= 0);
        assert(gain >= 0);
        assert(gain * offset >= 0 && (gain != 0 ==> gain * offset > 0)) by (nonlinear_arith)
            requires
                gain >= 0,
                offset > 0,
        ;
    } else if offset < 0 {
        assert(-(o * f) > 0) by (nonlinear_arith)
            requires
                o < 0,
                f > 0,
        ;
        assert((-(o * f)) / s >= 0) by (nonlinear_arith)
            requires
                -(o * f) > 0,
                s > 0,
        ;
        assert(push <= 0);
        assert(gain <= 0);
        assert(gain * offset >= 0 && (gain != 0 ==> gain * offset > 0)) by (nonlinear_arith)
            requires
                gain <= 0,
                offset < 0,
        ;
    } else {
        assert(o * f == 0) by (nonlinear_arith)
            requires
                o == 0,
        ;
        assert(0int / s == 0) by (nonlinear_arith)
            requires
                s > 0,
        ;
        assert(push == 0);
        assert(gain * offset == 0) by (nonlinear_arith)
            requires
                offset == 0,
        ;
    }
}

/// Separation drives two close boids apart.
///
/// Take a flock of two boids of which one counts as a neighbor of the other
/// within the protected range, and a positive avoid factor. For each of the
/// two, the change that the separation pass makes to its velocity has no
/// component toward the other boid: the dot product of the change with the
/// offset from the other boid is never negative. It is strictly positive
/// whenever the pass changes the velocity at all; the pass leaves a velocity
/// unchanged only where the push rounds to zero or the velocity is already
/// pinned at the end of the range.
pub proof fn lemma_separation_pushes_apart(a: Boid, b: Boid, params: FlockParameters)
    requires
        is_neighbor(a.position, b.position, params.protected_range),
        params.avoid_factor@ > 0,
    ensures
        ({
            let flock = seq![a, b];
            let after_a = separated(flock, params, 0);
            let after_b = separated(flock, params, 1);
            let away_x = a.position.x@ - b.position.x@;
            let away_y = a.position.y@ - b.position.y@;
            let along_a = (after_a.velocity.x@ - a.velocity.x@) * away_x + (after_a.velocity.y@
                - a.velocity.y@) * away_y;
            let along_b = (after_b.velocity.x@ - b.velocity.x@) * (-away_x) + (after_b.velocity.y@
                - b.velocity.y@) * (-away_y);
            &&& after_a.position == a.position
            &&& after_b.position == b.position
            &&& along_a >= 0
            &&& along_b >= 0
            &&& after_a.velocity != a.velocity ==> along_a > 0
            &&& after_b.velocity != b.velocity ==> along_b > 0
        }),
{
    let flock = seq![a, b];
    let range = params.protected_range;
    lemma_neighbors_are_mutual(a.position, b.position, range);
    reveal_with_fuel(tally, 3);
    let seen_a = tally(flock, a.position, range, 2);
    let seen_b = tally(flock, b.position, range, 2);
    assert(flock[0] == a && flock[1] == b);
    assert(seen_a == Tally::empty().with(a.position, b));
    assert(seen_b == Tally::empty().with(b.position, a));
    let away_x = a.position.x@ - b.position.x@;
    let away_y = a.position.y@ - b.position.y@;
    lemma_push_follows_offset(a.velocity.x, away_x, params.avoid_factor);
    lemma_push_follows_offset(a.velocity.y, away_y, params.avoid_factor);
    lemma_push_follows_offset(b.velocity.x, -away_x, params.avoid_factor);
    lemma_push_follows_offset(b.velocity.y, -away_y, params.avoid_factor);
    assert(seen_a.close_vector().x == Fixed::of(away_x));
    assert(seen_a.close_vector().y == Fixed::of(away_y));
    assert(seen_b.close_vector().x == Fixed::of(-away_x));
    assert(seen_b.close_vector().y == Fixed::of(-away_y));
}

/// One component of the separation push is not lost where the avoid factor
/// is at least one and the speed is not pinned at an end of the range: the
/// speed then changes whenever the offset is not zero.
proof fn lemma_push_is_felt(speed: Fixed, offset: int, factor: Fixed)
    requires
        factor@ >= scale(),
        offset != 0,
        i64::MIN < speed@ < i64::MAX,
    ensures
        speed.spec_add(Fixed::of(offset).spec_mul(factor)) != speed,
{
    let f = factor@;
    let o = Fixed::of(offset)@;
    let s = scale();
    if offset > 0 {
        assert(o * f >= s) by (nonlinear_arith)
            requires
                o >= 1,
                f >= s,
                s > 0,
        ;
        assert((o * f) / s >= 1) by (nonlinear_arith)
            requires
                o * f >= s,
                s > 0,
        ;
    } else {
        assert(-(o * f) >= s) by (nonlinear_arith)
            requires
                o <= -1,
                f >= s,
                s > 0,
        ;
        assert((-(o * f)) / s >= 1) by (nonlinear_arith)
            requires
                -(o * f) >= s,
                s > 0,
        ;
    }
}

/// Separation is felt by two close boids.
///
/// Take the flock of [`lemma_separation_pushes_apart`], an avoid factor of
/// at least one, and a first boid whose velocity components are not pinned
/// at an end of the range. Then separation changes the velocity of that
/// boid, and the change has a strictly positive component along the offset
/// from the other boid.
pub proof fn lemma_separation_is_felt(a: Boid, b: Boid, params: FlockParameters)
    requires
        is_neighbor(a.position, b.position, params.protected_range),
        params.avoid_factor@ >= scale(),
        i64::MIN < a.velocity.x@ < i64::MAX,
        i64::MIN < a.velocity.y@ < i64::MAX,
    ensures
        ({
            let after = separated(seq![a, b], params, 0);
            let away_x = a.position.x@ - b.position.x@;
            let away_y = a.position.y@ - b.position.y@;
            &&& after.velocity != a.velocity
            &&& (after.velocity.x@ - a.velocity.x@) * away_x + (after.velocity.y@ - a.velocity.y@)
                * away_y > 0
        }),
{
    let flock = seq![a, b];
    lemma_separation_pushes_apart(a, b, params);
    reveal_with_fuel(tally, 3);
    assert(flock[0] == a && flock[1] == b);
    let seen = tally(flock, a.position, params.protected_range, 2);
    assert(seen == Tally::empty().with(a.position, b));
    let away_x = a.position.x@ - b.position.x@;
    let away_y = a.position.y@ - b.position.y@;
    assert(seen.close_vector().x == Fixed::of(away_x));
    assert(seen.close_vector().y == Fixed::of(away_y));
    if away_x != 0 {
        lemma_push_is_felt(a.velocity.x, away_x, params.avoid_factor);
    } else {
        assert(away_y != 0);
        lemma_push_is_felt(a.velocity.y, away_y, params.avoid_factor);
    }
}

/// A scan that meets no neighbor gathers nothing.
pub proof fn lemma_tally_without_neighbors(flock: Seq<Boid>, me: Vec2, range: Fixed, upto: int)
    requires
        upto <= flock.len(),
        forall|j: int| 0 <= j < upto ==> !is_neighbor(me, (#[trigger] flock[j]).position, range),
    ensures
        tally(flock, me, range, upto) == Tally::empty(),
    decreases upto,
{
    if upto > 0 {
        lemma_tally_without_neighbors(flock, me, range, upto - 1);
        assert(!is_neighbor(me, flock[upto - 1].position, range));
    }
}

/// Alignment without neighbors pulls toward rest.
///
/// A boid that has no neighbor within the visible range is aligned against a
/// mean velocity of zero: its velocity gains exactly its own negation times
/// the matching factor.
pub proof fn lemma_alignment_without_neighbors(flock: Seq<Boid>, params: FlockParameters, i: int)
    requires
        0 <= i < flock.len(),
        forall|j: int|
            0 <= j < flock.len() ==> !is_neighbor(
                flock[i].position,
                (#[trigger] flock[j]).position,
                params.visible_range,
            ),
    ensures
        aligned(flock, params, i).velocity == flock[i].velocity.spec_add(
            Vec2::spec_zero().spec_sub(flock[i].velocity).spec_scale(params.matching_factor),
        ),
{
    lemma_tally_without_neighbors(
        flock,
        flock[i].position,
        params.visible_range,
        flock.len() as int,
    );
}

/// Cohesion without neighbors pulls toward the origin.
///
/// A boid that has no neighbor within the visible range gathers toward a
/// mean position of zero: its velocity gains exactly the negation of its
/// position times the centering factor.
pub proof fn lemma_cohesion_without_neighbors(flock: Seq<Boid>, params: FlockParameters, i: int)
    requires
        0 <= i < flock.len(),
        forall|j: int|
            0 <= j < flock.len() ==> !is_neighbor(
                flock[i].position,
                (#[trigger] flock[j]).position,
                params.visible_range,
            ),
    ensures
        cohered(flock, params, i).velocity == flock[i].velocity.spec_add(
            Vec2::spec_zero().spec_sub(flock[i].position).spec_scale(params.centering_factor),
        ),
{
    lemma_tally_without_neighbors(
        flock,
        flock[i].position,
        params.visible_range,
        flock.len() as int,
    );
}

/// The velocity of boid `i` when the three rules and the edge steering have
/// run and its speed has not yet been normalized.
pub open spec fn velocity_before_clamp(
    boids: Seq<Boid>,
    params: FlockParameters,
    bounds: Bounds,
    i: int,
) -> Vec2 {
    steered(
        cohesion(alignment(separation(boids, params), params), params)[i],
        params,
        bounds,
    ).velocity
}

/// The speed after a tick follows the rescaling formula.
///
/// Let `v` be the velocity of a boid just before speed normalization and `s`
/// its speed. If `s` is not zero and lies above the maximum or below the
/// minimum speed, the boid ends the tick with the velocity
/// `(v.x / s * max_speed, v.y / s * min_speed)`; otherwise it ends the tick
/// with `v`. In either case it has moved by that final velocity times the
/// elapsed time.
pub proof fn lemma_tick_rescales_speed(
    boids: Seq<Boid>,
    params: FlockParameters,
    bounds: Bounds,
    elapsed: Fixed,
    i: int,
)
    requires
        0 <= i < boids.len(),
    ensures
        ({
            let v = velocity_before_clamp(boids, params, bounds, i);
            let s = v.spec_length();
            let after = ticked(boids, params, bounds, elapsed)[i];
            &&& needs_rescale(v, params.min_speed, params.max_speed) ==> after.velocity == (Vec2 {
                x: v.x.spec_div(s).spec_mul(params.max_speed),
                y: v.y.spec_div(s).spec_mul(params.min_speed),
            })
            &&& !needs_rescale(v, params.min_speed, params.max_speed) ==> after.velocity == v
            &&& after.position == boids[i].position.spec_add(after.velocity.spec_scale(elapsed))
        }),
{
}

/// A boid at rest stays at rest through speed normalization, whatever the
/// speed limits are.
pub proof fn lemma_rest_is_not_rescaled(min_speed: Fixed, max_speed: Fixed)
    ensures
        clamped(Vec2::spec_zero(), min_speed, max_speed) == Vec2::spec_zero(),
{
    lemma_zero_has_no_speed(Vec2::spec_zero());
}

/// A boid just inside the margin is nudged by the turn factor.
///
/// A boid whose horizontal coordinate is the margin less one, and which is
/// not at the same time beyond the far edge's margin, gains exactly the turn
/// factor on its horizontal velocity from edge steering. Edge steering reads
/// no other boid.
pub proof fn lemma_nudge_inside_margin(boid: Boid, params: FlockParameters, bounds: Bounds)
    requires
        boid.position.x@ == params.margin@ - scale(),
        boid.position.x@ <= bounds.width.spec_sub(params.margin)@,
    ensures
        steered(boid, params, bounds).velocity.x == boid.velocity.x.spec_add(params.turn_factor),
        steered(boid, params, bounds).position == boid.position,
{
}

/// A tick is a function of the flock and the elapsed time: flocks that agree
/// in every boid, in the parameters and in the bounds agree after a tick of
/// the same length.
pub proof fn lemma_tick_is_deterministic(first: Flock, second: Flock, elapsed: Fixed)
    requires
        first.boids.len() == second.boids.len(),
        forall|i: int| 0 <= i < first.boids.len() ==> first.boids[i] == second.boids[i],
        first.params == second.params,
        first.bounds == second.bounds,
    ensures
        tick(first, elapsed) == tick(second, elapsed),
{
    assert(first.boids =~= second.boids);
}

/// A tick neither adds nor removes a boid, and keeps parameters and bounds.
pub proof fn lemma_tick_keeps_the_flock(flock: Flock, elapsed: Fixed)
    ensures
        tick(flock, elapsed).boids.len() == flock.boids.len(),
        tick(flock, elapsed).params == flock.params,
        tick(flock, elapsed).bounds == flock.bounds,
{
}

} // verus!
