//! Saturating fixed-point numbers with 32 fractional bits.
//!
//! A [`Fixed`] stores a real quantity `v` as the 64-bit integer nearest to
//! zero from `v * 2^32`. Every operation is total: a result that does not fit
//! is pinned to the nearest representable value, and quotients and products
//! round toward zero, so negating the operands negates the result.
use vstd::prelude::*;

verus! {

/// The stored integer of the number one.
pub const ONE_BITS: i64 = 0x1_0000_0000;

/// How many stored units make up one whole.
pub open spec fn scale() -> int {
    0x1_0000_0000
}

/// The representable integer nearest to `x`.
pub open spec fn saturate(x: int) -> int {
    if x < i64::MIN {
        i64::MIN as int
    } else if x > i64::MAX {
        i64::MAX as int
    } else {
        x
    }
}

/// The quotient of `a` by `b`, rounded toward zero.
///
/// The magnitude of the dividend is divided and its sign restored, so that
/// `trunc_div(-a, b) == -trunc_div(a, b)`.
pub open spec fn trunc_div(a: int, b: int) -> int
    recommends
        b != 0,
{
    if a >= 0 {
        a / b
    } else {
        -((-a) / b)
    }
}

/// A quotient rounded toward zero is no larger in magnitude than the
/// dividend.
pub proof fn lemma_trunc_div_bounded(a: int, b: int)
    requires
        b != 0,
    ensures
        a >= 0 ==> -a <= trunc_div(a, b) <= a,
        a < 0 ==> a <= trunc_div(a, b) <= -a,
{
    let m = if a >= 0 { a } else { -a };
    assert(-m <= m / b <= m) by (nonlinear_arith)
        requires
            m >= 0,
            b != 0,
    ;
}

/// `r` is the integer part of the square root of `n`.
pub open spec fn is_root_of(r: nat, n: nat) -> bool {
    r * r <= n && n < (r + 1) * (r + 1)
}

/// The integer part of the square root of `n`.
pub open spec fn isqrt(n: nat) -> nat {
    choose|r: nat| is_root_of(r, n)
}

/// Every natural number has an integer square root.
pub proof fn lemma_isqrt_exists(n: nat)
    ensures
        is_root_of(isqrt(n), n),
    decreases n,
{
    if n == 0 {
        assert(0nat * 0nat == 0 && (0nat + 1) * (0nat + 1) == 1) by (nonlinear_arith);
        assert(is_root_of(0, 0));
    } else {
        let m = (n - 1) as nat;
        lemma_isqrt_exists(m);
        let r = isqrt(m);
        if (r + 1) * (r + 1) <= n {
            assert((r + 1) * (r + 1) == n);
            assert(n < (r + 1 + 1) * (r + 1 + 1)) by (nonlinear_arith)
                requires
                    (r + 1) * (r + 1) == n,
            ;
            assert(is_root_of(r + 1, n));
        } else {
            assert(is_root_of(r, n));
        }
    }
}

/// The integer square root is the only number that squares to at most `n`
/// while its successor squares to more.
pub proof fn lemma_isqrt_unique(r: nat, n: nat)
    requires
        is_root_of(r, n),
    ensures
        isqrt(n) == r,
{
    let s = isqrt(n);
    lemma_isqrt_exists(n);
    if s < r {
        assert((s + 1) * (s + 1) <= r * r) by (nonlinear_arith)
            requires
                s + 1 <= r,
        ;
    } else if r < s {
        assert((r + 1) * (r + 1) <= s * s) by (nonlinear_arith)
            requires
                r + 1 <= s,
        ;
    }
}

/// The integer square root stays below a bound exactly when the number stays
/// below the bound's square.
pub proof fn lemma_isqrt_below(n: nat, bound: nat)
    ensures
        isqrt(n) < bound <==> n < bound * bound,
{
    let s = isqrt(n);
    lemma_isqrt_exists(n);
    if s < bound {
        assert((s + 1) * (s + 1) <= bound * bound) by (nonlinear_arith)
            requires
                s + 1 <= bound,
        ;
    } else {
        assert(bound * bound <= s * s) by (nonlinear_arith)
            requires
                bound <= s,
        ;
    }
}

/// Computes the integer part of the square root of `n` by bisection.
pub fn integer_sqrt(n: u128) -> (r: u64)
    ensures
        r as nat == isqrt(n as nat),
{
    let mut lo: u128 = 0;
    let mut hi: u128 = 0x1_0000_0000_0000_0000;
    assert(n < hi * hi) by (nonlinear_arith)
        requires
            hi == 0x1_0000_0000_0000_0000,
            n <= u128::MAX,
    ;
    while hi - lo > 1
        invariant
            lo < hi <= 0x1_0000_0000_0000_0000,
            lo * lo <= n,
            n < hi * hi,
        decreases hi - lo,
    {
        let mid: u128 = lo + (hi - lo) / 2;
        assert(mid * mid <= 0xffff_ffff_ffff_ffff * 0xffff_ffff_ffff_ffff) by (nonlinear_arith)
            requires
                mid <= 0xffff_ffff_ffff_ffff,
        ;
        if mid * mid <= n {
            lo = mid;
        } else {
            hi = mid;
        }
    }
    proof {
        assert(hi == lo + 1);
        assert(is_root_of(lo as nat, n as nat));
        lemma_isqrt_unique(lo as nat, n as nat);
    }
    lo as u64
}

/// A fixed-point number; `bits` is the number times `2^32`.
#[derive(Clone, Copy, Debug, PartialEq, Eq, Structural)]
pub struct Fixed {
    pub bits: i64,
}

impl View for Fixed {
    type V = int;

    open spec fn view(&self) -> int {
        self.bits as int
    }
}

impl Fixed {
    /// The number whose stored integer is the representable one nearest to `x`.
    pub open spec fn of(x: int) -> Fixed {
        Fixed { bits: saturate(x) as i64 }
    }

    /// The whole number `n`.
    pub open spec fn whole(n: int) -> Fixed {
        Fixed::of(n * scale())
    }

    /// The saturating sum.
    pub open spec fn spec_add(self, rhs: Fixed) -> Fixed {
        Fixed::of(self@ + rhs@)
    }

    /// The saturating difference.
    pub open spec fn spec_sub(self, rhs: Fixed) -> Fixed {
        Fixed::of(self@ - rhs@)
    }

    /// The saturating negation.
    pub open spec fn spec_neg(self) -> Fixed {
        Fixed::of(-self@)
    }

    /// The saturating product, rounded toward zero.
    pub open spec fn spec_mul(self, rhs: Fixed) -> Fixed {
        Fixed::of(trunc_div(self@ * rhs@, scale()))
    }

    /// The saturating quotient, rounded toward zero.
    pub open spec fn spec_div(self, rhs: Fixed) -> Fixed
        recommends
            rhs@ != 0,
    {
        Fixed::of(trunc_div(self@ * scale(), rhs@))
    }

    /// The number zero.
    pub fn zero() -> (r: Fixed)
        ensures
            r@ == 0,
    {
        Fixed { bits: 0 }
    }

    /// The number with the given stored integer.
    pub fn from_bits(bits: i64) -> (r: Fixed)
        ensures
            r@ == bits,
    {
        Fixed { bits }
    }

    /// The whole number `n`.
    pub fn from_int(n: i32) -> (r: Fixed)
        ensures
            r == Fixed::whole(n as int),
            r@ == n * scale(),
    {
        let wide: i64 = n as i64;
        Fixed { bits: wide * ONE_BITS }
    }

    /// The number nearest to the wide stored integer `wide`.
    pub fn saturating_from(wide: i128) -> (r: Fixed)
        ensures
            r == Fixed::of(wide as int),
    {
        if wide < -0x8000_0000_0000_0000 {
            Fixed { bits: i64::MIN }
        } else if wide > 0x7fff_ffff_ffff_ffff {
            Fixed { bits: i64::MAX }
        } else {
            Fixed { bits: wide as i64 }
        }
    }

    /// Adds, saturating at the ends of the range.
    pub fn add(self, rhs: Fixed) -> (r: Fixed)
        ensures
            r == self.spec_add(rhs),
    {
        Fixed::saturating_from(self.bits as i128 + rhs.bits as i128)
    }

    /// Subtracts, saturating at the ends of the range.
    pub fn sub(self, rhs: Fixed) -> (r: Fixed)
        ensures
            r == self.spec_sub(rhs),
    {
        Fixed::saturating_from(self.bits as i128 - rhs.bits as i128)
    }

    /// Negates, saturating at the upper end of the range.
    pub fn neg(self) -> (r: Fixed)
        ensures
            r == self.spec_neg(),
    {
        Fixed::saturating_from(-(self.bits as i128))
    }

    /// Multiplies, rounding toward zero and saturating.
    pub fn mul(self, rhs: Fixed) -> (r: Fixed)
        ensures
            r == self.spec_mul(rhs),
    {
        let a: i128 = self.bits as i128;
        let b: i128 = rhs.bits as i128;
        assert(-0x4000_0000_0000_0000_0000_0000_0000_0000 <= a * b
            <= 0x4000_0000_0000_0000_0000_0000_0000_0000) by (nonlinear_arith)
            requires
                -0x8000_0000_0000_0000 <= a <= 0x7fff_ffff_ffff_ffff,
                -0x8000_0000_0000_0000 <= b <= 0x7fff_ffff_ffff_ffff,
        ;
        let wide: i128 = a * b;
        Fixed::saturating_from(wide / 0x1_0000_0000)
    }

    /// Divides, rounding toward zero and saturating.
    pub fn div(self, rhs: Fixed) -> (r: Fixed)
        requires
            rhs@ != 0,
        ensures
            r == self.spec_div(rhs),
    {
        let a: i128 = self.bits as i128;
        let b: i128 = rhs.bits as i128;
        let wide: i128 = a * 0x1_0000_0000;
        proof {
            lemma_trunc_div_bounded(wide as int, b as int);
        }
        Fixed::saturating_from(wide / b)
    }

    /// Whether `self` is strictly less than `rhs`.
    pub fn less_than(self, rhs: Fixed) -> (r: bool)
        ensures
            r == (self@ < rhs@),
    {
        self.bits < rhs.bits
    }

    /// Whether `self` is strictly greater than `rhs`.
    pub fn greater_than(self, rhs: Fixed) -> (r: bool)
        ensures
            r == (self@ > rhs@),
    {
        self.bits > rhs.bits
    }
}

} // verus!
