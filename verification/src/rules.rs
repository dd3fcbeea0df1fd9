//! The three steering rules that boids apply to one another.
//!
//! Each rule is a pass over the whole flock. A pass reads the flock as the
//! pass before it left it and gives every boid a new velocity; positions do
//! not change. Within a pass no boid sees a velocity that the same pass has
//! written.
use vstd::prelude::*;
use crate::fixed::{lemma_trunc_div_bounded, trunc_div, Fixed};
use crate::flock::{Boid, FlockParameters};
use crate::vector::Vec2;

verus! {

/// Whether a boid at `other` counts as a neighbor of a boid at `me`: it is
/// nearer than `range` and does not sit on exactly the same point. A boid is
/// thereby never its own neighbor, and neither is another boid that shares
/// its position.
pub open spec fn is_neighbor(me: Vec2, other: Vec2, range: Fixed) -> bool {
    other != me && other.spec_distance(me)@ < range@
}

/// What a scan of the flock gathers about the neighbors of one boid: how many
/// there are, and the exact sums of their offsets from it, of their
/// velocities and of their positions, in stored units.
pub struct Tally {
    pub count: nat,
    pub offset_x: int,
    pub offset_y: int,
    pub velocity_x: int,
    pub velocity_y: int,
    pub position_x: int,
    pub position_y: int,
}

impl Tally {
    /// The tally of no boids.
    pub open spec fn empty() -> Tally {
        Tally {
            count: 0,
            offset_x: 0,
            offset_y: 0,
            velocity_x: 0,
            velocity_y: 0,
            position_x: 0,
            position_y: 0,
        }
    }

    /// The tally with the neighbor `other` of a boid at `me` added.
    pub open spec fn with(self, me: Vec2, other: Boid) -> Tally {
        let away = me.spec_sub(other.position);
        Tally {
            count: self.count + 1,
            offset_x: self.offset_x + away.x@,
            offset_y: self.offset_y + away.y@,
            velocity_x: self.velocity_x + other.velocity.x@,
            velocity_y: self.velocity_y + other.velocity.y@,
            position_x: self.position_x + other.position.x@,
            position_y: self.position_y + other.position.y@,
        }
    }

    /// The sum of the vectors that point from each neighbor to the boid.
    pub open spec fn close_vector(self) -> Vec2 {
        Vec2 { x: Fixed::of(self.offset_x), y: Fixed::of(self.offset_y) }
    }

    /// The mean velocity of the neighbors, zero where there are none.
    pub open spec fn mean_velocity(self) -> Vec2 {
        Vec2 { x: mean(self.velocity_x, self.count), y: mean(self.velocity_y, self.count) }
    }

    /// The mean position of the neighbors, zero where there are none.
    pub open spec fn mean_position(self) -> Vec2 {
        Vec2 { x: mean(self.position_x, self.count), y: mean(self.position_y, self.count) }
    }
}

/// The arithmetic mean of `count` numbers that add up to `sum`, rounded
/// toward zero; zero where `count` is zero.
pub open spec fn mean(sum: int, count: nat) -> Fixed {
    if count > 0 {
        Fixed::of(trunc_div(sum, count as int))
    } else {
        Fixed { bits: 0 }
    }
}

/// The tally over those of the first `upto` boids of `flock` that are
/// neighbors, within `range`, of a boid at `me`.
pub open spec fn tally(flock: Seq<Boid>, me: Vec2, range: Fixed, upto: int) -> Tally
    decreases upto,
{
    if upto <= 0 {
        Tally::empty()
    } else {
        let before = tally(flock, me, range, upto - 1);
        let other = flock[upto - 1];
        if is_neighbor(me, other.position, range) {
            before.with(me, other)
        } else {
            before
        }
    }
}

/// Boid `i` after separation: its velocity gains the sum of the offsets from
/// its neighbors within the protected range, times the avoid factor.
pub open spec fn separated(flock: Seq<Boid>, params: FlockParameters, i: int) -> Boid {
    let me = flock[i];
    let seen = tally(flock, me.position, params.protected_range, flock.len() as int);
    Boid {
        position: me.position,
        velocity: me.velocity.spec_add(seen.close_vector().spec_scale(params.avoid_factor)),
    }
}

/// Boid `i` after alignment: its velocity moves toward the mean velocity of
/// its neighbors within the visible range by the matching factor.
pub open spec fn aligned(flock: Seq<Boid>, params: FlockParameters, i: int) -> Boid {
    let me = flock[i];
    let seen = tally(flock, me.position, params.visible_range, flock.len() as int);
    Boid {
        position: me.position,
        velocity: me.velocity.spec_add(
            seen.mean_velocity().spec_sub(me.velocity).spec_scale(params.matching_factor),
        ),
    }
}

/// Boid `i` after cohesion: its velocity gains the offset from its position
/// to the mean position of its neighbors within the visible range, times the
/// centering factor.
pub open spec fn cohered(flock: Seq<Boid>, params: FlockParameters, i: int) -> Boid {
    let me = flock[i];
    let seen = tally(flock, me.position, params.visible_range, flock.len() as int);
    Boid {
        position: me.position,
        velocity: me.velocity.spec_add(
            seen.mean_position().spec_sub(me.position).spec_scale(params.centering_factor),
        ),
    }
}

/// The flock after the separation pass.
pub open spec fn separation(flock: Seq<Boid>, params: FlockParameters) -> Seq<Boid> {
    Seq::new(flock.len(), |i: int| separated(flock, params, i))
}

/// The flock after the alignment pass.
pub open spec fn alignment(flock: Seq<Boid>, params: FlockParameters) -> Seq<Boid> {
    Seq::new(flock.len(), |i: int| aligned(flock, params, i))
}

/// The flock after the cohesion pass.
pub open spec fn cohesion(flock: Seq<Boid>, params: FlockParameters) -> Seq<Boid> {
    Seq::new(flock.len(), |i: int| cohered(flock, params, i))
}

/// The sums that a scan keeps while it runs. They are wide enough to hold the
/// exact sum over any flock that fits in memory.
pub struct Survey {
    pub count: usize,
    pub offset_x: i128,
    pub offset_y: i128,
    pub velocity_x: i128,
    pub velocity_y: i128,
    pub position_x: i128,
    pub position_y: i128,
}

impl View for Survey {
    type V = Tally;

    open spec fn view(&self) -> Tally {
        Tally {
            count: self.count as nat,
            offset_x: self.offset_x as int,
            offset_y: self.offset_y as int,
            velocity_x: self.velocity_x as int,
            velocity_y: self.velocity_y as int,
            position_x: self.position_x as int,
            position_y: self.position_y as int,
        }
    }
}

/// Whether `sum` can be the sum of at most `terms` stored integers.
pub open spec fn fits(sum: int, terms: int) -> bool {
    -0x8000_0000_0000_0000 * terms <= sum <= 0x8000_0000_0000_0000 * terms
}

impl Survey {
    /// Whether every sum can come from at most `terms` boids.
    pub open spec fn bounded(self, terms: int) -> bool {
        &&& self.count <= terms
        &&& fits(self.offset_x as int, terms)
        &&& fits(self.offset_y as int, terms)
        &&& fits(self.velocity_x as int, terms)
        &&& fits(self.velocity_y as int, terms)
        &&& fits(self.position_x as int, terms)
        &&& fits(self.position_y as int, terms)
    }

    /// The saturated sum of the offsets.
    pub fn close_vector(&self) -> (v: Vec2)
        ensures
            v == self@.close_vector(),
    {
        Vec2 {
            x: Fixed::saturating_from(self.offset_x),
            y: Fixed::saturating_from(self.offset_y),
        }
    }

    /// The mean velocity of the neighbors, zero where there are none.
    pub fn mean_velocity(&self) -> (v: Vec2)
        ensures
            v == self@.mean_velocity(),
    {
        Vec2 {
            x: mean_of(self.velocity_x, self.count),
            y: mean_of(self.velocity_y, self.count),
        }
    }

    /// The mean position of the neighbors, zero where there are none.
    pub fn mean_position(&self) -> (v: Vec2)
        ensures
            v == self@.mean_position(),
    {
        Vec2 {
            x: mean_of(self.position_x, self.count),
            y: mean_of(self.position_y, self.count),
        }
    }
}

/// The arithmetic mean of `count` numbers that add up to `sum`.
pub fn mean_of(sum: i128, count: usize) -> (m: Fixed)
    ensures
        m == mean(sum as int, count as nat),
{
    if count > 0 {
        proof {
            lemma_trunc_div_bounded(sum as int, count as int);
        }
        Fixed::saturating_from(sum / (count as i128))
    } else {
        Fixed::zero()
    }
}

/// Scans the whole flock for the neighbors, within `range`, of a boid at
/// `me`.
pub fn survey(flock: &Vec<Boid>, me: Vec2, range: Fixed) -> (seen: Survey)
    ensures
        seen@ == tally(flock@, me, range, flock@.len() as int),
{
    let mut seen = Survey {
        count: 0,
        offset_x: 0,
        offset_y: 0,
        velocity_x: 0,
        velocity_y: 0,
        position_x: 0,
        position_y: 0,
    };
    let n: usize = flock.len();
    let mut j: usize = 0;
    while j < n
        invariant
            j <= n,
            n == flock@.len(),
            seen.bounded(j as int),
            seen@ == tally(flock@, me, range, j as int),
        decreases n - j,
    {
        let other = flock[j];
        if other.position != me && other.position.is_within(me, range) {
            let away = me.sub(other.position);
            seen = Survey {
                count: seen.count + 1,
                offset_x: seen.offset_x + away.x.bits as i128,
                offset_y: seen.offset_y + away.y.bits as i128,
                velocity_x: seen.velocity_x + other.velocity.x.bits as i128,
                velocity_y: seen.velocity_y + other.velocity.y.bits as i128,
                position_x: seen.position_x + other.position.x.bits as i128,
                position_y: seen.position_y + other.position.y.bits as i128,
            };
        }
        j = j + 1;
    }
    seen
}

/// The separation pass: every boid steers away from the boids within its
/// protected range.
pub fn separation_pass(flock: &Vec<Boid>, params: &FlockParameters) -> (next: Vec<Boid>)
    ensures
        next@ == separation(flock@, *params),
{
    let n: usize = flock.len();
    let mut next: Vec<Boid> = Vec::with_capacity(n);
    let mut i: usize = 0;
    while i < n
        invariant
            i <= n,
            n == flock@.len(),
            next@.len() == i,
            forall|k: int| 0 <= k < i ==> next@[k] == separated(flock@, *params, k),
        decreases n - i,
    {
        let me = flock[i];
        let seen = survey(flock, me.position, params.protected_range);
        let push = seen.close_vector().scale(params.avoid_factor);
        next.push(Boid { position: me.position, velocity: me.velocity.add(push) });
        i = i + 1;
    }
    assert(next@ =~= separation(flock@, *params));
    next
}

/// The alignment pass: every boid moves its velocity toward the mean
/// velocity of the boids within its visible range. A boid that sees none
/// moves its velocity toward zero.
pub fn alignment_pass(flock: &Vec<Boid>, params: &FlockParameters) -> (next: Vec<Boid>)
    ensures
        next@ == alignment(flock@, *params),
{
    let n: usize = flock.len();
    let mut next: Vec<Boid> = Vec::with_capacity(n);
    let mut i: usize = 0;
    while i < n
        invariant
            i <= n,
            n == flock@.len(),
            next@.len() == i,
            forall|k: int| 0 <= k < i ==> next@[k] == aligned(flock@, *params, k),
        decreases n - i,
    {
        let me = flock[i];
        let seen = survey(flock, me.position, params.visible_range);
        let pull = seen.mean_velocity().sub(me.velocity).scale(params.matching_factor);
        next.push(Boid { position: me.position, velocity: me.velocity.add(pull) });
        i = i + 1;
    }
    assert(next@ =~= alignment(flock@, *params));
    next
}

/// The cohesion pass: every boid steers toward the mean position of the
/// boids within its visible range. A boid that sees none steers toward the
/// origin.
pub fn cohesion_pass(flock: &Vec<Boid>, params: &FlockParameters) -> (next: Vec<Boid>)
    ensures
        next@ == cohesion(flock@, *params),
{
    let n: usize = flock.len();
    let mut next: Vec<Boid> = Vec::with_capacity(n);
    let mut i: usize = 0;
    while i < n
        invariant
            i <= n,
            n == flock@.len(),
            next@.len() == i,
            forall|k: int| 0 <= k < i ==> next@[k] == cohered(flock@, *params, k),
        decreases n - i,
    {
        let me = flock[i];
        let seen = survey(flock, me.position, params.visible_range);
        let pull = seen.mean_position().sub(me.position).scale(params.centering_factor);
        next.push(Boid { position: me.position, velocity: me.velocity.add(pull) });
        i = i + 1;
    }
    assert(next@ =~= cohesion(flock@, *params));
    next
}

} // verus!
