//! What the bit patterns mean as numbers.
//!
//! A binary64 value that is no NaN is a multiple of `2^-1074`, the smallest positive value.
//! This module names that multiple and proves that the order on bit patterns is the order of
//! the numbers, and that the constants of the library are the values they are meant to be.
use vstd::prelude::*;
use vstd::arithmetic::power2::{
    lemma2_to64,
    lemma_pow2_adds,
    lemma_pow2_pos,
    lemma_pow2_strictly_increases,
    lemma_pow2_unfold,
    pow2,
};
use crate::scalar::{
    Scalar,
    INFINITY_BITS,
    MINUS_ONE_BITS,
    NEGLIGIBLE_BITS,
    ONE_BITS,
    PROBE_BITS,
    TOLERANCE_BITS,
};

verus! {

/// The number of values that the 52 bits of the fraction field can take.
pub const FRACTION_RANGE: u64 = 0x10_0000_0000_0000;

/// The multiple of `2^-1074` that a magnitude stands for. With an exponent field of zero the
/// fraction counts as it is; with any other the fraction follows a leading one, and each step
/// of the exponent doubles the result. Infinity comes out as `2^1024`.
pub open spec fn scale(magnitude: int) -> int {
    let exponent = magnitude / (FRACTION_RANGE as int);
    let fraction = magnitude % (FRACTION_RANGE as int);
    if exponent == 0 {
        fraction
    } else {
        (FRACTION_RANGE + fraction) * pow2((exponent - 1) as nat)
    }
}

/// One unit in the last place at a magnitude, as a multiple of `2^-1074`.
pub open spec fn unit(magnitude: int) -> int {
    let exponent = magnitude / (FRACTION_RANGE as int);
    if exponent == 0 {
        1
    } else {
        pow2((exponent - 1) as nat) as int
    }
}

impl Scalar {
    /// The value as a multiple of `2^-1074`, with its sign.
    pub open spec fn position(self) -> int {
        if self.negative() {
            -scale(self.magnitude())
        } else {
            scale(self.magnitude())
        }
    }

    /// The value is the quotient `numerator / denominator`, rounded to the nearest binary64
    /// value: it differs from the quotient by at most half a unit in the last place.
    pub open spec fn rounds(self, numerator: int, denominator: int) -> bool {
        let error = self.position() * denominator - numerator * pow2(1074);
        &&& denominator > 0
        &&& -denominator * unit(self.magnitude()) <= 2 * error <= denominator * unit(self.magnitude())
    }
}

/// A larger magnitude stands for a larger number.
pub proof fn scale_is_increasing(a: int, b: int)
    requires
        0 <= a < b,
    ensures
        0 <= scale(a) < scale(b),
{
    let range = FRACTION_RANGE as int;
    let (ea, fa) = (a / range, a % range);
    let (eb, fb) = (b / range, b % range);
    assert(0 <= fa < range && 0 <= fb < range);
    assert(ea <= eb);
    if ea > 0 {
        lemma_pow2_pos((ea - 1) as nat);
        assert(0 <= (range + fa) * pow2((ea - 1) as nat)) by (nonlinear_arith)
            requires
                0 <= range + fa,
                pow2((ea - 1) as nat) > 0,
        ;
    }
    if ea == eb {
        if ea > 0 {
            let p = pow2((ea - 1) as nat) as int;
            assert((range + fa) * p < (range + fb) * p) by (nonlinear_arith)
                requires
                    fa < fb,
                    p > 0,
            ;
        }
    } else {
        let q = pow2((eb - 1) as nat) as int;
        lemma_pow2_pos((eb - 1) as nat);
        assert(range * q <= (range + fb) * q) by (nonlinear_arith)
            requires
                0 <= fb,
                q > 0,
        ;
        if ea == 0 {
            assert(range <= range * q) by (nonlinear_arith)
                requires
                    q >= 1,
                    range > 0,
            ;
        } else {
            let p = pow2((ea - 1) as nat) as int;
            lemma_pow2_unfold(ea as nat);
            if ea < eb - 1 {
                lemma_pow2_strictly_increases(ea as nat, (eb - 1) as nat);
            }
            assert((range + fa) * p < range * (2 * p)) by (nonlinear_arith)
                requires
                    0 <= fa < range,
                    p > 0,
            ;
            assert(range * (2 * p) <= range * q) by (nonlinear_arith)
                requires
                    2 * p <= q,
                    range > 0,
            ;
        }
    }
}

/// The order on bit patterns is the order of the numbers: of two values that are no NaN, one is
/// `below` the other exactly when it stands for the smaller number, and they have one rank
/// exactly when they stand for one number.
pub proof fn order_is_numerical(x: Scalar, y: Scalar)
    requires
        !x.nan(),
        !y.nan(),
    ensures
        x.below(y) <==> x.position() < y.position(),
        x.rank() == y.rank() <==> x.position() == y.position(),
{
    let (a, b) = (x.magnitude(), y.magnitude());
    assert(scale(0) == 0);
    if a < b {
        scale_is_increasing(a, b);
    }
    if b < a {
        scale_is_increasing(b, a);
    }
    if 0 < a {
        scale_is_increasing(0, a);
    }
    if 0 < b {
        scale_is_increasing(0, b);
    }
}

/// The absolute value of a number is the number without its sign, and negation mirrors it at
/// zero.
pub proof fn signs_are_numerical(x: Scalar)
    ensures
        x.absolute().position() == (if x.position() < 0 {
            -x.position()
        } else {
            x.position()
        }),
        x.negated().position() == -x.position(),
{
    assert(scale(0) == 0);
    if 0 < x.magnitude() {
        scale_is_increasing(0, x.magnitude());
    }
}

/// The threshold tests are tests on absolute values: a number is `beyond` a bound exactly when
/// its absolute value is greater than the bound, and `within` it exactly when its absolute
/// value is less.
pub proof fn thresholds_are_numerical(x: Scalar, bound: Scalar)
    requires
        !x.nan(),
        !bound.nan(),
    ensures
        x.beyond(bound) <==> x.position() > bound.position() || -x.position() > bound.position(),
        x.within(bound) <==> -bound.position() < x.position() < bound.position(),
{
    signs_are_numerical(x);
    order_is_numerical(x.absolute(), bound);
    order_is_numerical(bound, x.absolute());
}

/// A clamped number lies between the bounds.
pub proof fn clamped_is_between(x: Scalar, low: Scalar, high: Scalar)
    requires
        !x.nan(),
        low.at_most(high),
    ensures
        !x.clamped(low, high).nan(),
        low.position() <= x.clamped(low, high).position() <= high.position(),
{
    order_is_numerical(x, low);
    order_is_numerical(high, x);
    order_is_numerical(low, high);
}

/// The larger of a value and a number is a number, and no smaller than either.
pub proof fn larger_is_an_upper_bound(x: Scalar, y: Scalar)
    requires
        !y.nan(),
    ensures
        !x.larger(y).nan(),
        x.larger(y).position() >= y.position(),
        !x.nan() ==> x.larger(y).position() >= x.position(),
{
    if !x.nan() {
        order_is_numerical(y, x);
    }
}

/// Zero is the number 0, and the constants for one and minus one are the numbers 1 and -1.
pub proof fn units_are_exact()
    ensures
        (Scalar { bits: 0 }).position() == 0,
        (Scalar { bits: ONE_BITS }).position() == pow2(1074),
        (Scalar { bits: MINUS_ONE_BITS }).position() == -pow2(1074),
{
    lemma2_to64();
    lemma_pow2_adds(32, 20);
    lemma_pow2_adds(52, 1022);
    assert(ONE_BITS as int / (FRACTION_RANGE as int) == 1023);
    assert(ONE_BITS as int % (FRACTION_RANGE as int) == 0);
    assert((MINUS_ONE_BITS - 0x8000_0000_0000_0000) == ONE_BITS);
}

/// The tolerance is `1e-10`, the cutoff of the series `1e-12` and the step of the finite
/// differences `1e-7`: each constant is the binary64 value nearest to its decimal fraction.
pub proof fn thresholds_are_decimal()
    ensures
        (Scalar { bits: TOLERANCE_BITS }).rounds(1, 10_000_000_000),
        (Scalar { bits: NEGLIGIBLE_BITS }).rounds(1, 1_000_000_000_000),
        (Scalar { bits: PROBE_BITS }).rounds(1, 10_000_000),
{
    lemma2_to64();
    lemma_pow2_adds(64, 22);
    lemma_pow2_adds(64, 28);
    lemma_pow2_adds(64, 12);
    assert(pow2(86) == 0x40_0000_0000_0000_0000_0000);
    assert(pow2(92) == 0x1000_0000_0000_0000_0000_0000);
    assert(pow2(76) == 0x1000_0000_0000_0000_0000);
    nearest_fraction(TOLERANCE_BITS, 989, 7737125245533627, 86, 10_000_000_000);
    nearest_fraction(NEGLIGIBLE_BITS, 983, 4951760157141521, 92, 1_000_000_000_000);
    nearest_fraction(PROBE_BITS, 999, 7555786372591432, 76, 10_000_000);
}

/// A positive value with exponent field `exponent` and significand `significand` is
/// `significand / 2^shift`, where `shift` is `1075 - exponent`. It rounds `1 / denominator`
/// when `significand * denominator` is within half a denominator of `2^shift`.
proof fn nearest_fraction(bits: u64, exponent: nat, significand: int, shift: nat, denominator: int)
    requires
        1 <= exponent < 1075,
        shift == 1075 - exponent,
        bits == exponent * FRACTION_RANGE + (significand - FRACTION_RANGE),
        FRACTION_RANGE <= significand < 2 * FRACTION_RANGE,
        bits < INFINITY_BITS,
        denominator > 0,
        -denominator <= 2 * (significand * denominator - pow2(shift)) <= denominator,
    ensures
        (Scalar { bits }).rounds(1, denominator),
{
    let x = Scalar { bits };
    let range = FRACTION_RANGE as int;
    let fraction = significand - range;
    assert(bits as int / range == exponent && bits as int % range == fraction) by (nonlinear_arith)
        requires
            bits == exponent * range + fraction,
            0 <= fraction < range,
            range > 0,
    ;
    let p = pow2((exponent - 1) as nat) as int;
    lemma_pow2_pos((exponent - 1) as nat);
    lemma_pow2_adds((exponent - 1) as nat, shift);
    assert(pow2(1074) == p * pow2(shift));
    assert(x.position() == significand * p);
    let half = significand * denominator - pow2(shift);
    assert(x.position() * denominator - 1 * pow2(1074) == half * p) by (nonlinear_arith)
        requires
            x.position() == significand * p,
            pow2(1074) == p * pow2(shift),
            half == significand * denominator - pow2(shift),
    ;
    assert(-denominator * p <= 2 * (half * p) <= denominator * p) by (nonlinear_arith)
        requires
            -denominator <= 2 * half <= denominator,
            p > 0,
    ;
}

} // verus!
