//! Floating-point numbers, held by their bit patterns.
//!
//! A load average is a fraction. What the monitor decides on it is one comparison, which the bit
//! pattern of the number is enough for.
use vstd::arithmetic::power2::{lemma2_to64, lemma2_to64_rest, lemma_pow2_adds, lemma_pow2_pos,
    lemma_pow2_strictly_increases, lemma_pow2_unfold, pow2};
use vstd::prelude::*;

verus! {

/// A number in the IEEE 754 format binary64, by its bit pattern: from the top a sign bit, eleven
/// bits of exponent and fifty-two bits of fraction.
#[derive(Clone, Copy, Debug, PartialEq, Eq, Structural)]
pub struct Double {
    pub bits: u64,
}

/// The weight of the sign bit.
pub const SIGN: u64 = 0x8000_0000_0000_0000;

/// The weight of the lowest bit of the exponent.
pub const EXPONENT: u64 = 0x10_0000_0000_0000;

/// The magnitude of infinity. The magnitudes above it are not numbers.
pub const INFINITY: u64 = 0x7ff0_0000_0000_0000;

/// The value of a magnitude, counted in units of the smallest positive number. Infinity counts as
/// the number that would follow the largest finite one.
pub open spec fn magnitude_value(magnitude: nat) -> nat {
    let exponent = magnitude / EXPONENT as nat;
    let fraction = magnitude % EXPONENT as nat;
    if exponent == 0 {
        fraction
    } else {
        (EXPONENT as nat + fraction) * pow2((exponent - 1) as nat)
    }
}

impl Double {
    /// The bits below the sign.
    pub open spec fn magnitude(self) -> nat {
        if self.bits >= SIGN {
            (self.bits - SIGN) as nat
        } else {
            self.bits as nat
        }
    }

    /// Whether the pattern stands for no number.
    pub open spec fn is_nan(self) -> bool {
        self.magnitude() > INFINITY
    }

    /// The value, counted in units of the smallest positive number.
    pub open spec fn value(self) -> int {
        if self.bits >= SIGN {
            -(magnitude_value(self.magnitude()) as int)
        } else {
            magnitude_value(self.magnitude()) as int
        }
    }

    /// Whether `self` and `other` are numbers and `self` is at least `other`.
    pub open spec fn ge(self, other: Double) -> bool {
        !self.is_nan() && !other.is_nan() && self.value() >= other.value()
    }

    /// Whether both are numbers and `self` is at least `other`.
    pub fn at_least(&self, other: &Double) -> (r: bool)
        ensures
            r == self.ge(*other),
    {
        let a_negative: bool = self.bits >= SIGN;
        let b_negative: bool = other.bits >= SIGN;
        let a: u64 = if a_negative {
            self.bits - SIGN
        } else {
            self.bits
        };
        let b: u64 = if b_negative {
            other.bits - SIGN
        } else {
            other.bits
        };
        proof {
            lemma_magnitude_orders(a as nat, b as nat);
            lemma_magnitude_orders(b as nat, a as nat);
            lemma_magnitude_orders(0, a as nat);
            lemma_magnitude_orders(0, b as nat);
            assert(magnitude_value(0) == 0);
        }
        if a > INFINITY || b > INFINITY {
            false
        } else if a_negative {
            if b_negative {
                a <= b
            } else {
                a == 0 && b == 0
            }
        } else if b_negative {
            true
        } else {
            a >= b
        }
    }
}

/// The value of the number one.
pub open spec fn one() -> nat {
    pow2(1074)
}

/// A larger magnitude has a larger value.
proof fn lemma_magnitude_orders(a: nat, b: nat)
    ensures
        a < b ==> magnitude_value(a) < magnitude_value(b),
        a == b ==> magnitude_value(a) == magnitude_value(b),
{
    let e = EXPONENT as nat;
    let (ea, fa) = (a / e, a % e);
    let (eb, fb) = (b / e, b % e);
    if a < b {
        if ea == eb {
            if ea > 0 {
                let p = pow2((ea - 1) as nat);
                lemma_pow2_pos((ea - 1) as nat);
                assert((e + fa) * p < (e + fb) * p) by (nonlinear_arith)
                    requires
                        fa < fb,
                        p > 0,
                ;
            }
        } else {
            let q = pow2((eb - 1) as nat);
            lemma_pow2_pos((eb - 1) as nat);
            assert(e * q <= (e + fb) * q) by (nonlinear_arith)
                requires
                    q > 0,
            ;
            if ea == 0 {
                assert(e <= e * q) by (nonlinear_arith)
                    requires
                        q > 0,
                ;
            } else {
                let p = pow2((ea - 1) as nat);
                lemma_pow2_pos((ea - 1) as nat);
                lemma_pow2_unfold(ea);
                if ea < eb - 1 {
                    lemma_pow2_strictly_increases(ea, (eb - 1) as nat);
                }
                assert((e + fa) * p < e * q) by (nonlinear_arith)
                    requires
                        fa < e,
                        2 * p <= q,
                        p > 0,
                ;
            }
        }
    }
}

/// Among numbers the comparison is total, and it is transitive.
pub proof fn law_ge_orders(a: Double, b: Double, c: Double)
    ensures
        !a.is_nan() && !b.is_nan() ==> a.ge(b) || b.ge(a),
        a.ge(b) && b.ge(c) ==> a.ge(c),
{
}

/// What is not a number is never at least anything, and nothing is at least it.
pub proof fn law_nan_compares_to_nothing(a: Double, b: Double)
    requires
        a.is_nan(),
    ensures
        !a.ge(b),
        !b.ge(a),
{
}

/// Two patterns of one value are the same pattern, or the two zeros.
pub proof fn law_value_fixes_pattern(a: Double, b: Double)
    requires
        a.value() == b.value(),
    ensures
        a.bits == b.bits || (a.magnitude() == 0 && b.magnitude() == 0),
{
    lemma_magnitude_orders(a.magnitude(), b.magnitude());
    lemma_magnitude_orders(b.magnitude(), a.magnitude());
    lemma_magnitude_orders(0, a.magnitude());
    lemma_magnitude_orders(0, b.magnitude());
    assert(magnitude_value(0) == 0);
}

/// The bit pattern of the number 95.
pub const NINETY_FIVE: u64 = 0x4057_c000_0000_0000;

/// The bit pattern of the number 2.
pub const TWO: u64 = 0x4000_0000_0000_0000;

/// The two patterns are those of the numbers that they are named after.
pub proof fn lemma_patterns()
    ensures
        !(Double { bits: NINETY_FIVE }).is_nan(),
        (Double { bits: NINETY_FIVE }).value() == 95 * one(),
        !(Double { bits: TWO }).is_nan(),
        (Double { bits: TWO }).value() == 2 * one(),
{
    lemma2_to64();
    lemma2_to64_rest();
    lemma_pow2_adds(46, 1028);
    lemma_pow2_adds(52, 1023);
    lemma_pow2_unfold(1075);
    assert(pow2(46) == 0x4000_0000_0000);
    assert(pow2(52) == EXPONENT);
    let p = pow2(1028);
    assert((EXPONENT as nat + 0x7_c000_0000_0000) * p == 95 * (0x4000_0000_0000 * p))
        by (nonlinear_arith);
}

/// Numbers compare by their patterns: two positive ones as the patterns do, two negative ones the
/// other way round, a positive one is at least every negative one, and a negative one is at least
/// a positive one only if both are zero.
pub proof fn law_numbers_compare_by_their_patterns(a: u64, b: u64)
    requires
        a <= INFINITY,
        b <= INFINITY,
    ensures
        (Double { bits: a }).ge(Double { bits: b }) <==> a >= b,
        (Double { bits: (SIGN + a) as u64 }).ge(Double { bits: (SIGN + b) as u64 }) <==> a <= b,
        (Double { bits: a }).ge(Double { bits: (SIGN + b) as u64 }),
        (Double { bits: (SIGN + a) as u64 }).ge(Double { bits: b }) <==> a == 0 && b == 0,
{
    lemma_magnitude_orders(a as nat, b as nat);
    lemma_magnitude_orders(b as nat, a as nat);
    lemma_magnitude_orders(0, a as nat);
    lemma_magnitude_orders(0, b as nat);
    assert(magnitude_value(0) == 0);
}

/// Every pattern above infinity, of either sign, is at least nothing, and nothing is at least it.
pub proof fn law_patterns_above_infinity_are_no_numbers(a: u64, b: Double)
    requires
        0x7ff0_0000_0000_0000 < a < 0x8000_0000_0000_0000,
    ensures
        !(Double { bits: a }).ge(b),
        !b.ge(Double { bits: a }),
        !(Double { bits: (0x8000_0000_0000_0000 + a) as u64 }).ge(b),
        !b.ge(Double { bits: (0x8000_0000_0000_0000 + a) as u64 }),
{
}

/// One step up in the exponent doubles a number, and one step up in the fraction is the same step
/// for every number of one exponent.
pub proof fn law_exponents_double(m: nat)
    requires
        EXPONENT <= m,
    ensures
        magnitude_value((m + EXPONENT) as nat) == 2 * magnitude_value(m),
        m % EXPONENT as nat + 2 < EXPONENT ==> magnitude_value(m + 2) - magnitude_value(m + 1)
            == magnitude_value(m + 1) - magnitude_value(m),
        magnitude_value(EXPONENT as nat) == EXPONENT,
{
    let e = EXPONENT as nat;
    let x = m / e;
    let f = m % e;
    assert((m + e) / e == x + 1 && (m + e) % e == f);
    lemma_pow2_unfold(x);
    let p = pow2((x - 1) as nat);
    assert((e + f) * (2 * p) == 2 * ((e + f) * p)) by (nonlinear_arith);
    if f + 2 < e {
        assert((m + 1) / e == x && (m + 1) % e == f + 1);
        assert((m + 2) / e == x && (m + 2) % e == f + 2);
        assert((e + f + 2) * p - (e + f + 1) * p == (e + f + 1) * p - (e + f) * p)
            by (nonlinear_arith);
    }
    lemma2_to64();
    assert(e / e == 1 && e % e == 0);
    assert((e + 0) * pow2(0) == e) by (nonlinear_arith)
        requires
            pow2(0) == 1,
    ;
}

/// Below the first exponent a number is its fraction.
pub proof fn law_small_numbers_are_their_fractions(m: nat)
    requires
        m < EXPONENT,
    ensures
        magnitude_value(m) == m,
{
}

/// A number is at least another exactly if both are numbers and its value is not smaller.
pub proof fn law_comparisons_in_full(a: Double, b: Double, r: bool)
    requires
        call_ensures(Double::at_least, (&a, &b), r),
    ensures
        r <==> !a.is_nan() && !b.is_nan() && a.value() >= b.value(),
{
}

} // verus!
