//! Double-precision values as bit patterns.
//!
//! Every real number that the geometry handles is an IEEE-754 binary64 value. This module holds
//! such a value by its 64 bits and decides, on the bits alone, everything that needs no rounding:
//! classification, sign changes, ordering, clamping and thresholds. Arithmetic that rounds is the
//! caller's; its results come back as bit patterns.
use vstd::prelude::*;

verus! {

/// The sign bit of a binary64 value.
pub const SIGN_BIT: u64 = 0x8000_0000_0000_0000;

/// The bits of positive infinity. A larger magnitude is a NaN.
pub const INFINITY_BITS: u64 = 0x7ff0_0000_0000_0000;

/// The bits of 1.0.
pub const ONE_BITS: u64 = 0x3ff0_0000_0000_0000;

/// The bits of -1.0.
pub const MINUS_ONE_BITS: u64 = 0xbff0_0000_0000_0000;

/// The bits of 1e-10, the tolerance of every membership and degeneracy test.
pub const TOLERANCE_BITS: u64 = 0x3ddb_7cdf_d9d7_bdbb;

/// The bits of 1e-12, below which a term of a matrix power series is negligible.
pub const NEGLIGIBLE_BITS: u64 = 0x3d71_9799_812d_ea11;

/// The bits of 1e-7, the step of the finite differences that the optimizer takes.
pub const PROBE_BITS: u64 = 0x3e7a_d7f2_9abc_af48;

/// A binary64 value, held as its bit pattern.
///
/// Two scalars are `==` when their bits agree. That is finer than numerical equality: the two
/// zeros differ, and a NaN equals itself.
#[derive(Clone, Copy, Debug, PartialEq, Eq, Structural)]
pub struct Scalar {
    pub bits: u64,
}

impl Scalar {
    /// The bits without the sign: exponent and fraction, read as one integer.
    pub open spec fn magnitude(self) -> int {
        if self.bits >= SIGN_BIT {
            self.bits - SIGN_BIT
        } else {
            self.bits as int
        }
    }

    /// Whether the sign bit is set.
    pub open spec fn negative(self) -> bool {
        self.bits >= SIGN_BIT
    }

    /// Whether the value is a NaN: all exponent bits set and a fraction that is not zero.
    pub open spec fn nan(self) -> bool {
        self.magnitude() > INFINITY_BITS
    }

    /// The place of a value that is no NaN on the number line.
    ///
    /// Among values of one sign a larger magnitude lies further from zero, so the signed
    /// magnitude orders them as their numerical values do; both zeros have rank 0.
    pub open spec fn rank(self) -> int {
        if self.negative() {
            -self.magnitude()
        } else {
            self.magnitude()
        }
    }

    /// Numerically less than: false as soon as either side is a NaN.
    pub open spec fn below(self, other: Scalar) -> bool {
        !self.nan() && !other.nan() && self.rank() < other.rank()
    }

    /// Numerically greater than: false as soon as either side is a NaN.
    pub open spec fn above(self, other: Scalar) -> bool {
        other.below(self)
    }

    /// Numerically less than or equal: false as soon as either side is a NaN.
    pub open spec fn at_most(self, other: Scalar) -> bool {
        !self.nan() && !other.nan() && self.rank() <= other.rank()
    }

    /// The value with its sign bit cleared.
    pub open spec fn absolute(self) -> Scalar {
        Scalar { bits: self.magnitude() as u64 }
    }

    /// The value with its sign bit flipped.
    pub open spec fn negated(self) -> Scalar {
        if self.negative() {
            Scalar { bits: (self.bits - SIGN_BIT) as u64 }
        } else {
            Scalar { bits: (self.bits + SIGN_BIT) as u64 }
        }
    }

    /// The value brought into `[low, high]`; a NaN stays as it is.
    pub open spec fn clamped(self, low: Scalar, high: Scalar) -> Scalar {
        if self.below(low) {
            low
        } else if self.above(high) {
            high
        } else {
            self
        }
    }

    /// The greater of two values, where a NaN yields to the other side.
    pub open spec fn larger(self, other: Scalar) -> Scalar {
        if other.nan() || self.above(other) {
            self
        } else {
            other
        }
    }

    /// Whether the absolute value is greater than `bound`.
    pub open spec fn beyond(self, bound: Scalar) -> bool {
        self.absolute().above(bound)
    }

    /// Whether the absolute value is less than `bound`.
    pub open spec fn within(self, bound: Scalar) -> bool {
        self.absolute().below(bound)
    }

    pub fn from_bits(bits: u64) -> (s: Self)
        ensures
            s.bits == bits,
    {
        Scalar { bits }
    }

    pub fn to_bits(self) -> (bits: u64)
        ensures
            bits == self.bits,
    {
        self.bits
    }

    /// Positive zero.
    pub fn zero() -> (s: Self)
        ensures
            s.bits == 0,
    {
        Scalar { bits: 0 }
    }

    /// The value 1.0.
    pub fn one() -> (s: Self)
        ensures
            s.bits == ONE_BITS,
    {
        Scalar { bits: ONE_BITS }
    }

    /// The value -1.0.
    pub fn minus_one() -> (s: Self)
        ensures
            s.bits == MINUS_ONE_BITS,
    {
        Scalar { bits: MINUS_ONE_BITS }
    }

    /// The tolerance 1e-10.
    pub fn tolerance() -> (s: Self)
        ensures
            s.bits == TOLERANCE_BITS,
    {
        Scalar { bits: TOLERANCE_BITS }
    }

    /// The cutoff 1e-12 of the matrix power series.
    pub fn negligible() -> (s: Self)
        ensures
            s.bits == NEGLIGIBLE_BITS,
    {
        Scalar { bits: NEGLIGIBLE_BITS }
    }

    /// The finite-difference step 1e-7.
    pub fn probe() -> (s: Self)
        ensures
            s.bits == PROBE_BITS,
    {
        Scalar { bits: PROBE_BITS }
    }

    fn magnitude_bits(self) -> (m: u64)
        ensures
            m == self.magnitude(),
            m < SIGN_BIT,
    {
        if self.bits >= SIGN_BIT {
            self.bits - SIGN_BIT
        } else {
            self.bits
        }
    }

    pub fn is_nan(self) -> (b: bool)
        ensures
            b == self.nan(),
    {
        self.magnitude_bits() > INFINITY_BITS
    }

    pub fn is_sign_negative(self) -> (b: bool)
        ensures
            b == self.negative(),
    {
        self.bits >= SIGN_BIT
    }

    pub fn abs(self) -> (s: Self)
        ensures
            s == self.absolute(),
            !s.negative(),
            s.nan() == self.nan(),
    {
        Scalar { bits: self.magnitude_bits() }
    }

    pub fn neg(self) -> (s: Self)
        ensures
            s == self.negated(),
            s.magnitude() == self.magnitude(),
            s.negative() != self.negative(),
    {
        if self.bits >= SIGN_BIT {
            Scalar { bits: self.bits - SIGN_BIT }
        } else {
            Scalar { bits: self.bits + SIGN_BIT }
        }
    }

    pub fn lt(self, other: Scalar) -> (b: bool)
        ensures
            b == self.below(other),
    {
        if self.is_nan() || other.is_nan() {
            return false;
        }
        let mine: u64 = self.magnitude_bits();
        let theirs: u64 = other.magnitude_bits();
        if self.is_sign_negative() {
            if other.is_sign_negative() {
                mine > theirs
            } else {
                mine > 0 || theirs > 0
            }
        } else {
            if other.is_sign_negative() {
                false
            } else {
                mine < theirs
            }
        }
    }

    pub fn gt(self, other: Scalar) -> (b: bool)
        ensures
            b == self.above(other),
    {
        other.lt(self)
    }

    pub fn le(self, other: Scalar) -> (b: bool)
        ensures
            b == self.at_most(other),
    {
        if self.is_nan() || other.is_nan() {
            return false;
        }
        !other.lt(self)
    }

    /// Brings the value into `[low, high]`. A NaN is returned as it is.
    pub fn clamp(self, low: Scalar, high: Scalar) -> (s: Self)
        requires
            low.at_most(high),
        ensures
            s == self.clamped(low, high),
            !self.nan() ==> low.at_most(s) && s.at_most(high),
    {
        if self.lt(low) {
            low
        } else if self.gt(high) {
            high
        } else {
            self
        }
    }

    /// The greater of the two values. Where one side is a NaN, the other is returned; of two
    /// values that compare equal, `other`.
    pub fn max(self, other: Scalar) -> (s: Self)
        ensures
            s == self.larger(other),
    {
        if other.is_nan() || self.gt(other) {
            self
        } else {
            other
        }
    }

    /// Whether `|self| > bound`.
    pub fn exceeds(self, bound: Scalar) -> (b: bool)
        ensures
            b == self.beyond(bound),
    {
        self.abs().gt(bound)
    }

    /// Whether `|self| < bound`.
    pub fn falls_short(self, bound: Scalar) -> (b: bool)
        ensures
            b == self.within(bound),
    {
        self.abs().lt(bound)
    }
}

} // verus!
