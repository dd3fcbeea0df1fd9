//! The flock: its members, its tuning parameters and the area it lives in.
use vstd::prelude::*;
use crate::fixed::Fixed;
use crate::vector::Vec2;

verus! {

/// One member of the flock.
#[derive(Clone, Copy, Debug, PartialEq, Eq, Structural)]
pub struct Boid {
    /// Where the boid is.
    pub position: Vec2,
    /// How far it moves per second.
    pub velocity: Vec2,
}

/// The tunable parameters of the flocking rules. Any field may be changed
/// between ticks; no relation between the fields is required.
#[derive(Clone, Copy, Debug, PartialEq, Eq, Structural)]
pub struct FlockParameters {
    /// Speed below which a boid is rescaled.
    pub min_speed: Fixed,
    /// Speed above which a boid is rescaled.
    pub max_speed: Fixed,
    /// Distance below which boids steer apart.
    pub protected_range: Fixed,
    /// Distance below which boids match velocity and gather.
    pub visible_range: Fixed,
    /// Gain of the separation rule.
    pub avoid_factor: Fixed,
    /// Fraction of the velocity gap closed per tick by alignment.
    pub matching_factor: Fixed,
    /// Fraction of the position gap closed per tick by cohesion.
    pub centering_factor: Fixed,
    /// Velocity added per tick when a boid is near an edge.
    pub turn_factor: Fixed,
    /// Distance from an edge at which steering back begins.
    pub margin: Fixed,
}

/// The extent of the simulated area, which spans `0..width` by `0..height`.
#[derive(Clone, Copy, Debug, PartialEq, Eq, Structural)]
pub struct Bounds {
    pub width: Fixed,
    pub height: Fixed,
}

/// The boids in their fixed order, with the parameters and bounds that the
/// next tick will read.
#[derive(Clone, Debug)]
pub struct FlockState {
    pub boids: Vec<Boid>,
    pub params: FlockParameters,
    pub bounds: Bounds,
}

/// The mathematical content of a [`FlockState`].
pub struct Flock {
    pub boids: Seq<Boid>,
    pub params: FlockParameters,
    pub bounds: Bounds,
}

impl View for FlockState {
    type V = Flock;

    open spec fn view(&self) -> Flock {
        Flock { boids: self.boids@, params: self.params, bounds: self.bounds }
    }
}

/// Stored integer of the default matching factor, 0.05.
pub const DEFAULT_MATCHING_BITS: i64 = 214_748_364;

/// Stored integer of the default centering factor, 0.0005.
pub const DEFAULT_CENTERING_BITS: i64 = 2_147_483;

impl Default for FlockParameters {
    /// Speeds between 20 and 80, ranges of 10 and 20, an avoid factor of 2, a
    /// matching factor of 0.05, a centering factor of 0.0005, a turn factor
    /// of 2 and a margin of 50.
    fn default() -> (p: FlockParameters)
        ensures
            p.min_speed == Fixed::whole(20),
            p.max_speed == Fixed::whole(80),
            p.protected_range == Fixed::whole(10),
            p.visible_range == Fixed::whole(20),
            p.avoid_factor == Fixed::whole(2),
            p.matching_factor@ == DEFAULT_MATCHING_BITS,
            p.centering_factor@ == DEFAULT_CENTERING_BITS,
            p.turn_factor == Fixed::whole(2),
            p.margin == Fixed::whole(50),
    {
        FlockParameters {
            min_speed: Fixed::from_int(20),
            max_speed: Fixed::from_int(80),
            protected_range: Fixed::from_int(10),
            visible_range: Fixed::from_int(20),
            avoid_factor: Fixed::from_int(2),
            matching_factor: Fixed::from_bits(DEFAULT_MATCHING_BITS),
            centering_factor: Fixed::from_bits(DEFAULT_CENTERING_BITS),
            turn_factor: Fixed::from_int(2),
            margin: Fixed::from_int(50),
        }
    }
}

impl Boid {
    /// The boid at `position` moving with `velocity`.
    pub fn new(position: Vec2, velocity: Vec2) -> (b: Boid)
        ensures
            b.position == position,
            b.velocity == velocity,
    {
        Boid { position, velocity }
    }

    /// The direction the boid is heading in: its velocity divided by its
    /// speed, or zero for a boid at rest.
    pub fn heading(&self) -> (r: Vec2)
        ensures
            r == self.velocity.spec_normalized(),
    {
        self.velocity.normalized()
    }
}

impl FlockState {
    /// A flock without boids.
    pub fn new(params: FlockParameters, bounds: Bounds) -> (state: FlockState)
        ensures
            state@.boids.len() == 0,
            state@.params == params,
            state@.bounds == bounds,
    {
        FlockState { boids: Vec::new(), params, bounds }
    }

    /// How many boids the flock has.
    pub fn len(&self) -> (n: usize)
        ensures
            n == self@.boids.len(),
    {
        self.boids.len()
    }

    /// The boid at place `index`.
    pub fn boid(&self, index: usize) -> (b: Boid)
        requires
            index < self@.boids.len(),
        ensures
            b == self@.boids[index as int],
    {
        self.boids[index]
    }

    /// Appends `boid` behind the boids already there.
    pub fn push(&mut self, boid: Boid)
        ensures
            final(self)@.boids == old(self)@.boids.push(boid),
            final(self)@.params == old(self)@.params,
            final(self)@.bounds == old(self)@.bounds,
    {
        self.boids.push(boid);
    }
}

} // verus!
