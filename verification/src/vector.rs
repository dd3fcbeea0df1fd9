//! Two-dimensional vectors of fixed-point numbers.
use vstd::prelude::*;
use crate::fixed::{integer_sqrt, isqrt, lemma_isqrt_below, Fixed};

verus! {

/// A point or a displacement in the plane.
#[derive(Clone, Copy, Debug, PartialEq, Eq, Structural)]
pub struct Vec2 {
    pub x: Fixed,
    pub y: Fixed,
}

/// The magnitude of a stored integer, widened so that its square fits.
fn magnitude(bits: i64) -> (m: u128)
    ensures
        m == (if bits >= 0 { bits as int } else { -(bits as int) }),
        m <= 0x8000_0000_0000_0000,
{
    if bits >= 0 {
        bits as u128
    } else {
        let wide: i128 = bits as i128;
        (-wide) as u128
    }
}

impl Vec2 {
    /// The vector with both components zero.
    pub open spec fn spec_zero() -> Vec2 {
        Vec2 { x: Fixed { bits: 0 }, y: Fixed { bits: 0 } }
    }

    /// The component-wise saturating sum.
    pub open spec fn spec_add(self, rhs: Vec2) -> Vec2 {
        Vec2 { x: self.x.spec_add(rhs.x), y: self.y.spec_add(rhs.y) }
    }

    /// The component-wise saturating difference.
    pub open spec fn spec_sub(self, rhs: Vec2) -> Vec2 {
        Vec2 { x: self.x.spec_sub(rhs.x), y: self.y.spec_sub(rhs.y) }
    }

    /// Both components multiplied by `factor`.
    pub open spec fn spec_scale(self, factor: Fixed) -> Vec2 {
        Vec2 { x: self.x.spec_mul(factor), y: self.y.spec_mul(factor) }
    }

    /// The squared length, in squared stored units.
    pub open spec fn length_squared(self) -> nat {
        (self.x@ * self.x@ + self.y@ * self.y@) as nat
    }

    /// The Euclidean length, rounded down and saturated.
    pub open spec fn spec_length(self) -> Fixed {
        Fixed::of(isqrt(self.length_squared()) as int)
    }

    /// The length of the saturating difference `self - rhs`.
    pub open spec fn spec_distance(self, rhs: Vec2) -> Fixed {
        self.spec_sub(rhs).spec_length()
    }

    /// The vector divided by its own length: the direction it points in. The
    /// zero vector points nowhere and is its own direction.
    pub open spec fn spec_normalized(self) -> Vec2 {
        let length = self.spec_length();
        if length@ == 0 {
            self
        } else {
            Vec2 { x: self.x.spec_div(length), y: self.y.spec_div(length) }
        }
    }

    /// The vector with the given components.
    pub fn new(x: Fixed, y: Fixed) -> (r: Vec2)
        ensures
            r.x == x,
            r.y == y,
    {
        Vec2 { x, y }
    }

    /// The vector with both components zero.
    pub fn zero() -> (r: Vec2)
        ensures
            r == Vec2::spec_zero(),
    {
        Vec2 { x: Fixed::zero(), y: Fixed::zero() }
    }

    /// Adds component by component.
    pub fn add(self, rhs: Vec2) -> (r: Vec2)
        ensures
            r == self.spec_add(rhs),
    {
        Vec2 { x: self.x.add(rhs.x), y: self.y.add(rhs.y) }
    }

    /// Subtracts component by component.
    pub fn sub(self, rhs: Vec2) -> (r: Vec2)
        ensures
            r == self.spec_sub(rhs),
    {
        Vec2 { x: self.x.sub(rhs.x), y: self.y.sub(rhs.y) }
    }

    /// Multiplies both components by `factor`.
    pub fn scale(self, factor: Fixed) -> (r: Vec2)
        ensures
            r == self.spec_scale(factor),
    {
        Vec2 { x: self.x.mul(factor), y: self.y.mul(factor) }
    }

    /// The exact squared length, in squared stored units.
    pub fn squared_length(self) -> (q: u128)
        ensures
            q == self.length_squared(),
    {
        let mx: u128 = magnitude(self.x.bits);
        let my: u128 = magnitude(self.y.bits);
        assert(mx * mx <= 0x4000_0000_0000_0000_0000_0000_0000_0000 && mx * mx == self.x@ * self.x@)
            by (nonlinear_arith)
            requires
                mx <= 0x8000_0000_0000_0000,
                mx == self.x@ || mx == -self.x@,
        ;
        assert(my * my <= 0x4000_0000_0000_0000_0000_0000_0000_0000 && my * my == self.y@ * self.y@)
            by (nonlinear_arith)
            requires
                my <= 0x8000_0000_0000_0000,
                my == self.y@ || my == -self.y@,
        ;
        mx * mx + my * my
    }

    /// The Euclidean length, rounded down and saturated.
    pub fn length(self) -> (r: Fixed)
        ensures
            r == self.spec_length(),
    {
        let root: u64 = integer_sqrt(self.squared_length());
        Fixed::saturating_from(root as i128)
    }

    /// The direction of the vector, as a vector of length one or, for the
    /// zero vector, zero.
    pub fn normalized(self) -> (r: Vec2)
        ensures
            r == self.spec_normalized(),
    {
        let length = self.length();
        if length.bits == 0 {
            self
        } else {
            Vec2 { x: self.x.div(length), y: self.y.div(length) }
        }
    }

    /// Whether `self` lies at a distance below `range` from `rhs`.
    ///
    /// The distance itself is never computed: the squared lengths are
    /// compared, which decides the same question without a square root.
    pub fn is_within(self, rhs: Vec2, range: Fixed) -> (r: bool)
        ensures
            r == (self.spec_distance(rhs)@ < range@),
    {
        let gap = self.sub(rhs);
        let q: u128 = gap.squared_length();
        if range.bits <= 0 {
            false
        } else {
            let reach: u128 = range.bits as u128;
            assert(reach * reach <= 0x4000_0000_0000_0000_0000_0000_0000_0000) by (nonlinear_arith)
                requires
                    reach <= 0x8000_0000_0000_0000,
            ;
            proof {
                lemma_isqrt_below(q as nat, reach as nat);
            }
            q < reach * reach
        }
    }
}

} // verus!
