//! Double-precision numbers as bit patterns.
//!
//! Verified code cannot compute with floating-point values, but it can decide
//! everything that depends only on how such a value is encoded: whether it is
//! finite, how two values compare, and what clamping it to a range gives. A
//! [`Scalar`] therefore holds an IEEE 754 binary64 value as its 64 bits, and
//! callers that do arithmetic convert at the boundary.

use vstd::prelude::*;

verus! {

/// The sign bit of a binary64 bit pattern.
pub const SIGN_BIT: u64 = 0x8000_0000_0000_0000;

/// The bit pattern of positive infinity: all exponent bits set, no fraction.
pub const INFINITY_BITS: u64 = 0x7FF0_0000_0000_0000;

/// The bit pattern of `1.0`.
pub const ONE_BITS: u64 = 0x3FF0_0000_0000_0000;

/// An IEEE 754 binary64 value, held as its bit pattern.
///
/// Equality (`==`) on scalars is identity of bit patterns; it tells `0.0` from
/// `-0.0` and a NaN from another NaN with a different payload. The numeric
/// comparisons are [`Scalar::lt`] and [`Scalar::le`].
#[derive(Clone, Copy, Debug, PartialEq, Eq, Hash, Structural)]
pub struct Scalar {
    pub bits: u64,
}

impl Scalar {
    /// The bits without the sign bit.
    pub open spec fn magnitude(self) -> u64 {
        if self.bits >= SIGN_BIT {
            (self.bits - SIGN_BIT) as u64
        } else {
            self.bits
        }
    }

    /// Whether the sign bit is set.
    pub open spec fn is_negative(self) -> bool {
        self.bits >= SIGN_BIT
    }

    /// NaN: all exponent bits set and a fraction that is not zero.
    pub open spec fn spec_is_nan(self) -> bool {
        self.magnitude() > INFINITY_BITS
    }

    /// Neither NaN nor an infinity.
    pub open spec fn spec_is_finite(self) -> bool {
        self.magnitude() < INFINITY_BITS
    }

    /// The place of a value that is not NaN on the number line: for such
    /// values, `a` is numerically below `b` exactly when `a.rank() < b.rank()`.
    /// Both zeros have rank 0.
    pub open spec fn rank(self) -> int {
        if self.is_negative() {
            -(self.magnitude() as int)
        } else {
            self.magnitude() as int
        }
    }

    /// Numeric `<`: false as soon as either side is NaN.
    pub open spec fn spec_lt(self, other: Scalar) -> bool {
        !self.spec_is_nan() && !other.spec_is_nan() && self.rank() < other.rank()
    }

    /// Numeric `<=`: false as soon as either side is NaN.
    pub open spec fn spec_le(self, other: Scalar) -> bool {
        !self.spec_is_nan() && !other.spec_is_nan() && self.rank() <= other.rank()
    }

    /// The value restricted to `[min, max]`: `min` where it is below `min`,
    /// `max` where it is above `max`, and itself otherwise, so a NaN stays
    /// the NaN it was.
    pub open spec fn spec_clamp(self, min: Scalar, max: Scalar) -> Scalar {
        if self.spec_lt(min) {
            min
        } else if max.spec_lt(self) {
            max
        } else {
            self
        }
    }

    pub fn from_bits(bits: u64) -> (s: Scalar)
        ensures
            s.bits == bits,
    {
        Scalar { bits }
    }

    pub fn to_bits(self) -> (bits: u64)
        ensures
            bits == self.bits,
    {
        self.bits
    }

    /// `0.0`.
    pub fn zero() -> (s: Scalar)
        ensures
            s.bits == 0,
    {
        Scalar { bits: 0 }
    }

    /// `1.0`.
    pub fn one() -> (s: Scalar)
        ensures
            s.bits == ONE_BITS,
    {
        Scalar { bits: ONE_BITS }
    }

    fn magnitude_bits(self) -> (m: u64)
        ensures
            m == self.magnitude(),
    {
        if self.bits >= SIGN_BIT {
            self.bits - SIGN_BIT
        } else {
            self.bits
        }
    }

    #[verifier::when_used_as_spec(spec_is_nan)]
    pub fn is_nan(self) -> (r: bool)
        ensures
            r == self.spec_is_nan(),
    {
        self.magnitude_bits() > INFINITY_BITS
    }

    #[verifier::when_used_as_spec(spec_is_finite)]
    pub fn is_finite(self) -> (r: bool)
        ensures
            r == self.spec_is_finite(),
    {
        self.magnitude_bits() < INFINITY_BITS
    }

    #[verifier::when_used_as_spec(spec_lt)]
    pub fn lt(self, other: Scalar) -> (r: bool)
        ensures
            r == self.spec_lt(other),
    {
        if self.is_nan() || other.is_nan() {
            return false;
        }
        let a: u64 = self.magnitude_bits();
        let b: u64 = other.magnitude_bits();
        if self.bits >= SIGN_BIT {
            if other.bits >= SIGN_BIT {
                b < a
            } else {
                a > 0 || b > 0
            }
        } else {
            if other.bits >= SIGN_BIT {
                false
            } else {
                a < b
            }
        }
    }

    #[verifier::when_used_as_spec(spec_le)]
    pub fn le(self, other: Scalar) -> (r: bool)
        ensures
            r == self.spec_le(other),
    {
        if self.is_nan() || other.is_nan() {
            return false;
        }
        !other.lt(self)
    }

    /// Restricts the value to `[min, max]`.
    ///
    /// The bounds must be numbers with `min <= max`.
    #[verifier::when_used_as_spec(spec_clamp)]
    pub fn clamp(self, min: Scalar, max: Scalar) -> (r: Scalar)
        requires
            min.spec_le(max),
        ensures
            r == self.spec_clamp(min, max),
    {
        if self.lt(min) {
            min
        } else if max.lt(self) {
            max
        } else {
            self
        }
    }
}

/// An IEEE 754 binary32 value, held as its bit pattern.
///
/// Nothing is computed with such values here; they are carried through.
#[derive(Clone, Copy, Debug, PartialEq, Eq, Hash, Structural)]
pub struct Single {
    pub bits: u32,
}

impl Single {
    pub fn from_bits(bits: u32) -> (s: Single)
        ensures
            s.bits == bits,
    {
        Single { bits }
    }

    pub fn to_bits(self) -> (bits: u32)
        ensures
            bits == self.bits,
    {
        self.bits
    }
}

/// A clamped value lies within the bounds, unless it is NaN, and clamping
/// leaves a value that already lies within them as it is.
pub proof fn lemma_clamp_within(value: Scalar, min: Scalar, max: Scalar)
    requires
        min.spec_le(max),
    ensures
        !value.spec_is_nan() ==> min.spec_le(value.spec_clamp(min, max)) && value.spec_clamp(
            min,
            max,
        ).spec_le(max),
        value.spec_is_nan() ==> value.spec_clamp(min, max) == value,
        min.spec_le(value) && value.spec_le(max) ==> value.spec_clamp(min, max) == value,
{
}

/// Numeric comparison orders the values that are not NaN: `lt` is
/// irreflexive and transitive, `le` is `lt` or equal rank, and of two
/// numbers one is below the other or they are numerically equal. A NaN
/// compares with nothing.
pub proof fn lemma_order(a: Scalar, b: Scalar, c: Scalar)
    ensures
        !a.spec_lt(a),
        a.spec_lt(b) && b.spec_lt(c) ==> a.spec_lt(c),
        a.spec_le(b) && b.spec_le(c) ==> a.spec_le(c),
        a.spec_le(b) <==> a.spec_lt(b) || (!a.spec_is_nan() && !b.spec_is_nan() && a.rank()
            == b.rank()),
        !a.spec_is_nan() && !b.spec_is_nan() ==> a.spec_lt(b) || b.spec_lt(a) || a.rank()
            == b.rank(),
        a.spec_is_nan() ==> !a.spec_lt(b) && !b.spec_lt(a) && !a.spec_le(b) && !b.spec_le(a),
        !a.spec_is_nan() ==> a.spec_le(a),
{
}

/// Two numbers of equal rank are the same number, but for the two zeros.
pub proof fn lemma_rank_tells_numbers_apart(a: Scalar, b: Scalar)
    requires
        !a.spec_is_nan(),
        !b.spec_is_nan(),
        a.rank() == b.rank(),
    ensures
        a == b || (a.magnitude() == 0 && b.magnitude() == 0),
{
}

} // verus!
