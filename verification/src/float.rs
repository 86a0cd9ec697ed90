//! Single-precision numbers held by their bit patterns.
//!
//! The renderer's numbers are IEEE-754 binary32 values. This module keeps each
//! one as its 32 bits and decides, on the bits alone, how two of them compare.
//! Arithmetic on them is the caller's business: a caller turns a machine number
//! into a [`Float`] with `to_bits` and back with `from_bits` of its own
//! number type.

use vstd::prelude::*;
use vstd::arithmetic::div_mod::{lemma_fundamental_div_mod, lemma_fundamental_div_mod_converse};
use vstd::arithmetic::power2::{lemma2_to64, lemma_pow2_adds, lemma_pow2_pos, lemma_pow2_unfold, pow2};

verus! {

/// The bit that holds the sign.
pub const SIGN_BIT: u32 = 0x8000_0000;

/// The bits of positive infinity. A larger magnitude is not a number.
pub const INFINITY_BITS: u32 = 0x7f80_0000;

/// The bits of the number one.
pub const ONE_BITS: u32 = 0x3f80_0000;

/// The bits of the number minus one.
pub const MINUS_ONE_BITS: u32 = 0xbf80_0000;

/// The weight of the lowest exponent bit: two to the power of 23, the number of
/// fraction bits.
pub const FRACTION_RANGE: u32 = 0x80_0000;

/// Two to the power of 24: the number of steps of the fine lattice between zero
/// and one.
pub const UNIT_STEPS: i32 = 0x100_0000;

/// A single-precision number: sign in the top bit, then eight bits of
/// exponent and twenty-three bits of fraction.
#[derive(Clone, Copy, Debug)]
pub struct Float {
    pub bits: u32,
}

impl Float {
    /// The pattern without its sign bit.
    pub open spec fn magnitude(self) -> int {
        if self.bits >= SIGN_BIT {
            self.bits - SIGN_BIT
        } else {
            self.bits as int
        }
    }

    /// True where the sign bit is set (of a zero or a NaN too).
    pub open spec fn sign_negative(self) -> bool {
        self.bits >= SIGN_BIT
    }

    /// True where the pattern stands for no number: all exponent bits set and
    /// a fraction that is not zero.
    pub open spec fn nan(self) -> bool {
        self.magnitude() > INFINITY_BITS
    }

    /// True for zero, subnormal and normal numbers: neither infinite nor NaN.
    pub open spec fn finite(self) -> bool {
        self.magnitude() < INFINITY_BITS
    }

    /// An integer that orders the numbers as their values do: for two patterns
    /// that are not NaN, the one with the smaller rank is the smaller number,
    /// and both zeros have rank zero. Magnitudes grow with their patterns, so
    /// the rank of a positive number is its pattern and that of a negative
    /// number is its magnitude negated.
    pub open spec fn rank(self) -> int {
        if self.sign_negative() {
            -self.magnitude()
        } else {
            self.magnitude()
        }
    }

    /// `self < other` as IEEE-754 orders them: false where either is NaN.
    pub open spec fn below(self, other: Float) -> bool {
        !self.nan() && !other.nan() && self.rank() < other.rank()
    }

    /// `self <= other` as IEEE-754 orders them: false where either is NaN.
    pub open spec fn at_most(self, other: Float) -> bool {
        !self.nan() && !other.nan() && self.rank() <= other.rank()
    }

    /// `self == other` as numbers: false where either is NaN, true of the two
    /// zeros.
    pub open spec fn same(self, other: Float) -> bool {
        !self.nan() && !other.nan() && self.rank() == other.rank()
    }

    /// True where `self` lies strictly between `low` and `high`.
    pub open spec fn within(self, low: Float, high: Float) -> bool {
        low.below(self) && self.below(high)
    }

    /// The eight exponent bits.
    pub open spec fn exponent_field(self) -> int {
        self.magnitude() / (FRACTION_RANGE as int)
    }

    /// The twenty-three fraction bits.
    pub open spec fn fraction_field(self) -> int {
        self.magnitude() % (FRACTION_RANGE as int)
    }

    /// The whole number `m` of a finite number `± m 2^e`: the fraction bits,
    /// under a leading one unless the number is subnormal.
    pub open spec fn significand(self) -> int {
        if self.exponent_field() == 0 {
            self.fraction_field()
        } else {
            FRACTION_RANGE + self.fraction_field()
        }
    }

    /// The exponent `e` of a finite number `± m 2^e`.
    pub open spec fn scale(self) -> int {
        if self.exponent_field() == 0 {
            -149
        } else {
            self.exponent_field() - 150
        }
    }

    /// True where the number is `n / 2^24`, for a whole number `n` of at most
    /// `2^24` in size: that is where `m 2^e = |n| 2^-24`, or with both sides
    /// scaled by `2^47`, `m 2^(e + 47) = |n| 2^23`, and the sign is that of `n`.
    /// Zero is the positive zero.
    pub open spec fn represents(self, n: int) -> bool {
        if n == 0 {
            self.bits == 0
        } else {
            &&& self.finite()
            &&& self.sign_negative() == (n < 0)
            &&& -47 <= self.scale() <= -23
            &&& self.significand() * pow2((self.scale() + 47) as nat) == (if n < 0 {
                -n
            } else {
                n
            }) * FRACTION_RANGE
        }
    }

    /// The number of `[0, 1]` that stands for a channel of a colour: the
    /// number itself where it lies between zero and one, one where it lies
    /// above, and zero where it lies below or is no number.
    pub open spec fn unit_clamped(self) -> Float {
        if Float::one_spec().below(self) {
            Float::one_spec()
        } else if Float::zero_spec().at_most(self) {
            self
        } else {
            Float::zero_spec()
        }
    }

    /// Positive zero.
    pub open spec fn zero_spec() -> Float {
        Float { bits: 0 }
    }

    /// The number one.
    pub open spec fn one_spec() -> Float {
        Float { bits: ONE_BITS }
    }

    /// The number with the given bit pattern.
    pub fn from_bits(bits: u32) -> (f: Float)
        ensures
            f.bits == bits,
    {
        Float { bits }
    }

    /// The bit pattern of the number.
    pub fn to_bits(self) -> (bits: u32)
        ensures
            bits == self.bits,
    {
        self.bits
    }

    /// Positive zero.
    #[verifier::when_used_as_spec(zero_spec)]
    pub fn zero() -> (f: Float)
        ensures
            f == Float::zero_spec(),
    {
        Float { bits: 0 }
    }

    /// The number one.
    #[verifier::when_used_as_spec(one_spec)]
    pub fn one() -> (f: Float)
        ensures
            f == Float::one_spec(),
    {
        Float { bits: ONE_BITS }
    }

    fn magnitude_bits(self) -> (m: u32)
        ensures
            m == self.magnitude(),
    {
        if self.bits >= SIGN_BIT {
            self.bits - SIGN_BIT
        } else {
            self.bits
        }
    }

    fn rank_value(self) -> (r: i64)
        ensures
            r == self.rank(),
    {
        let m: i64 = self.magnitude_bits() as i64;
        if self.bits >= SIGN_BIT {
            -m
        } else {
            m
        }
    }

    /// Tells whether the pattern is a NaN.
    pub fn is_nan(self) -> (b: bool)
        ensures
            b == self.nan(),
    {
        self.magnitude_bits() > INFINITY_BITS
    }

    /// Tells whether the number is finite.
    pub fn is_finite(self) -> (b: bool)
        ensures
            b == self.finite(),
    {
        self.magnitude_bits() < INFINITY_BITS
    }

    /// Tells whether the sign bit is set.
    pub fn is_sign_negative(self) -> (b: bool)
        ensures
            b == self.sign_negative(),
    {
        self.bits >= SIGN_BIT
    }

    /// `self < other`.
    pub fn lt(self, other: Float) -> (b: bool)
        ensures
            b == self.below(other),
    {
        !self.is_nan() && !other.is_nan() && self.rank_value() < other.rank_value()
    }

    /// `self <= other`.
    pub fn le(self, other: Float) -> (b: bool)
        ensures
            b == self.at_most(other),
    {
        !self.is_nan() && !other.is_nan() && self.rank_value() <= other.rank_value()
    }

    /// `self > other`.
    pub fn gt(self, other: Float) -> (b: bool)
        ensures
            b == other.below(self),
    {
        other.lt(self)
    }

    /// `self >= other`.
    pub fn ge(self, other: Float) -> (b: bool)
        ensures
            b == other.at_most(self),
    {
        other.le(self)
    }

    /// `self == other` as numbers.
    pub fn equals(self, other: Float) -> (b: bool)
        ensures
            b == self.same(other),
    {
        !self.is_nan() && !other.is_nan() && self.rank_value() == other.rank_value()
    }

    /// Brings a channel of a colour into `[0, 1]`: see
    /// [`Float::unit_clamped`]. The result is finite, and a number that lies
    /// in the interval is left as it is.
    pub fn clamp_unit(self) -> (f: Float)
        ensures
            f == self.unit_clamped(),
            f.finite(),
            Float::zero().at_most(f) && f.at_most(Float::one()),
            Float::zero().at_most(self) && self.at_most(Float::one()) ==> f == self,
    {
        if self.gt(Float::one()) {
            Float::one()
        } else if self.ge(Float::zero()) {
            self
        } else {
            Float::zero()
        }
    }

    /// The number `n / 2^24`.
    pub(crate) fn from_units(n: i32) -> (f: Float)
        requires
            -UNIT_STEPS <= n <= UNIT_STEPS,
        ensures
            f.represents(n as int),
            0 <= n ==> Float::zero().at_most(f),
            n < UNIT_STEPS ==> f.below(Float::one()),
            -UNIT_STEPS < n ==> (Float { bits: MINUS_ONE_BITS }).below(f),
    {
        if n == 0 {
            return Float { bits: 0 };
        }
        let size: u32 = if n < 0 {
            (-n) as u32
        } else {
            n as u32
        };
        let mut m: u32 = size;
        let mut field: u32 = 126;
        proof {
            lemma2_to64();
            assert(size * pow2(0) == size) by (nonlinear_arith)
                requires
                    pow2(0) == 1,
            ;
        }
        while m < FRACTION_RANGE
            invariant
                1 <= m <= 0x100_0000,
                103 <= field <= 126,
                m < FRACTION_RANGE ==> field > 103,
                field < 126 ==> m < 0x100_0000,
                m == size * pow2((126 - field) as nat),
                m * pow2((field - 103) as nat) == size * FRACTION_RANGE,
            decreases field,
        {
            proof {
                let d = (126 - field) as nat;
                let r = (field - 103) as nat;
                lemma_pow2_unfold(d + 1);
                lemma_pow2_unfold(r);
                assert(size * (2 * pow2(d)) == 2 * (size * pow2(d))) by (nonlinear_arith);
                assert((2 * m) * pow2((r - 1) as nat) == m * (2 * pow2((r - 1) as nat)))
                    by (nonlinear_arith);
            }
            m = m * 2;
            field = field - 1;
            proof {
                if m < FRACTION_RANGE && field == 103 {
                    lemma2_to64();
                    assert(size * pow2(23) >= pow2(23)) by (nonlinear_arith)
                        requires
                            size >= 1,
                    ;
                }
            }
        }
        let magnitude: u32 = field * FRACTION_RANGE + (m - FRACTION_RANGE);
        let f = Float {
            bits: if n < 0 {
                SIGN_BIT + magnitude
            } else {
                magnitude
            },
        };
        proof {
            lemma2_to64();
            assert(f.magnitude() == magnitude);
            if m == 0x100_0000 {
                assert(size * pow2(0) == size) by (nonlinear_arith)
                    requires
                        pow2(0) == 1,
                ;
                lemma_fundamental_div_mod_converse(
                    magnitude as int,
                    FRACTION_RANGE as int,
                    127,
                    0,
                );
                assert(f.significand() * pow2(24) == size * FRACTION_RANGE);
            } else {
                lemma_fundamental_div_mod_converse(
                    magnitude as int,
                    FRACTION_RANGE as int,
                    field as int,
                    (m - FRACTION_RANGE) as int,
                );
                assert(f.significand() == m);
                assert(f.scale() + 47 == field - 103);
            }
        }
        f
    }

    /// No two patterns are the same multiple of `2^-24`.
    pub proof fn lemma_represents_unique(f: Float, g: Float, n: int)
        requires
            f.represents(n),
            g.represents(n),
        ensures
            f == g,
    {
        if n != 0 {
            let a = (f.scale() + 47) as nat;
            let b = (g.scale() + 47) as nat;
            Float::lemma_scale_decides(f.significand(), a, g.significand(), b);
            Float::lemma_scale_decides(g.significand(), b, f.significand(), a);
            lemma_pow2_pos(a);
            assert(f.significand() == g.significand()) by (nonlinear_arith)
                requires
                    f.significand() * pow2(a) == g.significand() * pow2(a),
                    pow2(a) > 0,
            ;
            lemma_fundamental_div_mod(f.magnitude(), FRACTION_RANGE as int);
            lemma_fundamental_div_mod(g.magnitude(), FRACTION_RANGE as int);
        }
    }

    /// The order of the patterns is that of the numbers: of two multiples of
    /// `2^-24` the one of fewer steps is below the other.
    pub proof fn lemma_represents_ordered(f: Float, g: Float, n: int, m: int)
        requires
            f.represents(n),
            g.represents(m),
            n < m,
        ensures
            f.below(g),
    {
        if n != 0 {
            Float::lemma_magnitude_of(f, n);
        }
        if m != 0 {
            Float::lemma_magnitude_of(g, m);
        }
        if 0 < n {
            Float::lemma_magnitudes_ordered(f, g, n, m);
        } else if m < 0 {
            Float::lemma_magnitudes_ordered(g, f, -m, -n);
        }
    }

    /// A multiple of `2^-24` that is not zero is a normal number.
    proof fn lemma_magnitude_of(f: Float, n: int)
        requires
            n != 0,
            f.represents(n),
        ensures
            f.magnitude() == f.exponent_field() * FRACTION_RANGE + f.fraction_field(),
            103 <= f.exponent_field() <= 127,
            0 <= f.fraction_field() < FRACTION_RANGE,
            f.significand() == FRACTION_RANGE + f.fraction_field(),
            0 < f.magnitude() < INFINITY_BITS,
    {
        lemma_fundamental_div_mod(f.magnitude(), FRACTION_RANGE as int);
    }

    /// Of two positive multiples of `2^-24` the smaller has the smaller
    /// pattern.
    proof fn lemma_magnitudes_ordered(f: Float, g: Float, n: int, m: int)
        requires
            0 < n < m,
            f.represents(if f.sign_negative() { -n } else { n }),
            g.represents(if g.sign_negative() { -m } else { m }),
        ensures
            f.magnitude() < g.magnitude(),
    {
        let a = (f.scale() + 47) as nat;
        let b = (g.scale() + 47) as nat;
        Float::lemma_magnitude_of(f, if f.sign_negative() { -n } else { n });
        Float::lemma_magnitude_of(g, if g.sign_negative() { -m } else { m });
        assert(f.significand() * pow2(a) < g.significand() * pow2(b));
        Float::lemma_scale_decides(g.significand(), b, f.significand(), a);
        if a == b {
            lemma_pow2_pos(a);
            assert(f.significand() < g.significand()) by (nonlinear_arith)
                requires
                    f.significand() * pow2(a) < g.significand() * pow2(a),
                    pow2(a) > 0,
            ;
        }
    }

    /// Of two normal significands, the one whose product with its power of
    /// two is not the smaller has no smaller power.
    proof fn lemma_scale_decides(s: int, a: nat, t: int, b: nat)
        requires
            FRACTION_RANGE <= s < 2 * FRACTION_RANGE,
            FRACTION_RANGE <= t < 2 * FRACTION_RANGE,
            s * pow2(a) >= t * pow2(b),
        ensures
            a >= b,
    {
        if a < b {
            let d = (b - a) as nat;
            lemma_pow2_adds(a, d);
            lemma_pow2_unfold(d);
            lemma_pow2_pos((d - 1) as nat);
            lemma_pow2_pos(a);
            assert(t * (pow2(a) * pow2(d)) > s * pow2(a)) by (nonlinear_arith)
                requires
                    pow2(d) >= 2,
                    pow2(a) > 0,
                    FRACTION_RANGE <= s < 2 * FRACTION_RANGE,
                    FRACTION_RANGE <= t < 2 * FRACTION_RANGE,
            ;
        }
    }
}

} // verus!
