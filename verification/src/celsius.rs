//! Temperature readings, held as the bit pattern of the double they arrive in.
//!
//! A sensor hands over an IEEE-754 binary64 number of degrees. This module
//! gives each bit pattern the real number that it stands for and compares two
//! readings by that number, so that every reading (signed zeros, subnormals,
//! infinities and NaN among them) has a defined place in the fan curve.

use vstd::prelude::*;
use vstd::arithmetic::power2::{lemma_pow2_adds, lemma_pow2_pos, lemma_pow2_strictly_increases, lemma2_to64, pow2};

verus! {

/// Bit patterns from here up carry a minus sign.
pub const SIGN_BIT: u64 = 0x8000_0000_0000_0000;

/// Two to the number of fraction bits.
pub const FRACTION_SPAN: u64 = 0x10_0000_0000_0000;

/// The pattern of positive infinity; a larger magnitude is not a number.
pub const INFINITY_BITS: u64 = 0x7ff0_0000_0000_0000;

/// A temperature in degrees Celsius: the bits of a binary64 number.
#[derive(Debug, Clone, Copy, PartialEq, Eq, Structural)]
pub struct Celsius {
    pub bits: u64,
}

/// The bits without their sign.
pub open spec fn magnitude_bits(bits: u64) -> u64 {
    if bits >= SIGN_BIT {
        (bits - SIGN_BIT) as u64
    } else {
        bits
    }
}

/// The number that unsigned bits stand for, counted in the smallest positive
/// binary64 number (two to the power -1074).
pub open spec fn units(magnitude: u64) -> int {
    let exponent = magnitude as int / FRACTION_SPAN as int;
    let fraction = magnitude as int % FRACTION_SPAN as int;
    if exponent == 0 {
        fraction
    } else {
        (FRACTION_SPAN + fraction) * pow2((exponent - 1) as nat)
    }
}

/// A whole number of degrees, in the same unit.
pub open spec fn degrees(n: int) -> int {
    n * pow2(1074)
}

impl Celsius {
    /// The reading is not a number.
    pub open spec fn is_nan_spec(self) -> bool {
        magnitude_bits(self.bits) > INFINITY_BITS
    }

    /// The number that the reading stands for, in units of two to the power
    /// -1074. Infinity stands above every finite reading.
    pub open spec fn value(self) -> int {
        if self.bits >= SIGN_BIT {
            -units(magnitude_bits(self.bits))
        } else {
            units(magnitude_bits(self.bits))
        }
    }

    /// The reading is a number below `other`, itself a number.
    pub open spec fn colder(self, other: Celsius) -> bool {
        !self.is_nan_spec() && !other.is_nan_spec() && self.value() < other.value()
    }

    /// The reading is a number below `n` degrees.
    pub open spec fn below(self, n: int) -> bool {
        !self.is_nan_spec() && self.value() < degrees(n)
    }

    /// Takes over the bits of a binary64 number of degrees.
    pub fn from_bits(bits: u64) -> (reading: Celsius)
        ensures
            reading.bits == bits,
    {
        Celsius { bits }
    }

    /// Hands the bits back.
    pub fn to_bits(self) -> (bits: u64)
        ensures
            bits == self.bits,
    {
        self.bits
    }

    /// Whether the reading is not a number.
    pub fn is_nan(self) -> (nan: bool)
        ensures
            nan == self.is_nan_spec(),
    {
        let magnitude: u64 = if self.bits >= SIGN_BIT {
            self.bits - SIGN_BIT
        } else {
            self.bits
        };
        magnitude > INFINITY_BITS
    }

    /// Whether this reading is colder than `other`. A comparison with
    /// something that is not a number is always false.
    pub fn is_colder(self, other: Celsius) -> (result: bool)
        ensures
            result == self.colder(other),
    {
        if self.is_nan() || other.is_nan() {
            return false;
        }
        proof {
            lemma_order(self, other);
        }
        if self.bits >= SIGN_BIT {
            if other.bits >= SIGN_BIT {
                other.bits < self.bits
            } else {
                self.bits != SIGN_BIT || other.bits != 0
            }
        } else {
            other.bits < SIGN_BIT && self.bits < other.bits
        }
    }
}

/// Bits without a sign are ordered as the numbers they stand for.
proof fn lemma_units_increase(low: u64, high: u64)
    requires
        low < high,
    ensures
        units(low) < units(high),
{
    let span = FRACTION_SPAN as int;
    let e1 = low as int / span;
    let f1 = low as int % span;
    let e2 = high as int / span;
    let f2 = high as int % span;
    assert(e1 <= e2);
    if e1 == e2 {
        assert(f1 < f2);
        if e1 != 0 {
            let scale = pow2((e1 - 1) as nat) as int;
            lemma_pow2_pos((e1 - 1) as nat);
            assert((span + f1) * scale < (span + f2) * scale) by (nonlinear_arith)
                requires
                    f1 < f2,
                    scale > 0,
            ;
        }
    } else {
        let scale2 = pow2((e2 - 1) as nat) as int;
        lemma_pow2_pos((e2 - 1) as nat);
        assert((span + f2) * scale2 >= span * scale2) by (nonlinear_arith)
            requires
                f2 >= 0,
                scale2 > 0,
        ;
        if e1 == 0 {
            assert(span * scale2 >= span) by (nonlinear_arith)
                requires
                    span > 0,
                    scale2 > 0,
            ;
        } else {
            let scale1 = pow2((e1 - 1) as nat) as int;
            lemma_pow2_pos((e1 - 1) as nat);
            lemma_pow2_adds(1, (e1 - 1) as nat);
            lemma2_to64();
            if e1 < e2 - 1 {
                lemma_pow2_strictly_increases(e1 as nat, (e2 - 1) as nat);
            }
            assert(2 * scale1 <= scale2);
            assert((span + f1) * scale1 < span * scale2) by (nonlinear_arith)
                requires
                    0 <= f1 < span,
                    scale1 > 0,
                    2 * scale1 <= scale2,
            ;
        }
    }
}

/// What the bits of two readings say of the numbers that they stand for.
proof fn lemma_order(a: Celsius, b: Celsius)
    ensures
        (a.bits < SIGN_BIT && b.bits < SIGN_BIT) ==> (a.value() < b.value() <==> a.bits < b.bits),
        (a.bits >= SIGN_BIT && b.bits >= SIGN_BIT) ==> (a.value() < b.value() <==> b.bits
            < a.bits),
        (a.bits >= SIGN_BIT && b.bits < SIGN_BIT) ==> (a.value() < b.value() <==> (a.bits
            != SIGN_BIT || b.bits != 0)),
        (a.bits < SIGN_BIT && b.bits >= SIGN_BIT) ==> a.value() >= b.value(),
{
    let x = magnitude_bits(a.bits);
    let y = magnitude_bits(b.bits);
    assert(units(0) == 0);
    if x > 0 {
        lemma_units_increase(0, x);
    }
    if y > 0 {
        lemma_units_increase(0, y);
    }
    if x < y {
        lemma_units_increase(x, y);
    }
    if y < x {
        lemma_units_increase(y, x);
    }
}

/// A reading without a sign whose significand is `n` shifted left by `shift`,
/// at the scale that undoes the shift, stands for `n` degrees.
pub proof fn whole_degrees_are_exact(reading: Celsius, n: int, shift: nat)
    requires
        reading.bits < INFINITY_BITS,
        shift <= 52,
        reading.bits as int / FRACTION_SPAN as int == 1075 - shift,
        FRACTION_SPAN + reading.bits as int % FRACTION_SPAN as int == n * pow2(shift),
    ensures
        reading.value() == degrees(n),
        !reading.is_nan_spec(),
{
    let rest = (1074 - shift) as nat;
    lemma_pow2_adds(shift, rest);
    let p = pow2(shift) as int;
    let q = pow2(rest) as int;
    assert((n * p) * q == n * (p * q)) by (nonlinear_arith);
}

/// What the bits stand for, from the smallest reading up. Below twice the span
/// of the fraction the bits count the units themselves; one more in the
/// exponent doubles the number; the sign bit turns it round.
pub proof fn bits_make_the_number(bits: u64)
    ensures
        bits < 2 * FRACTION_SPAN ==> (Celsius { bits }).value() == bits,
        FRACTION_SPAN <= bits && bits + FRACTION_SPAN < 0x8000_0000_0000_0000 ==> (Celsius {
            bits: (bits + FRACTION_SPAN) as u64,
        }).value() == 2 * (Celsius { bits }).value(),
        bits < 0x8000_0000_0000_0000 ==> (Celsius {
            bits: (bits + 0x8000_0000_0000_0000) as u64,
        }).value() == -(Celsius { bits }).value(),
{
    lemma2_to64();
    if FRACTION_SPAN <= bits && bits < 2 * FRACTION_SPAN {
        assert(bits as int / FRACTION_SPAN as int == 1);
        assert(units(bits) == (FRACTION_SPAN + bits as int % FRACTION_SPAN as int) * pow2(0));
    }
    if FRACTION_SPAN <= bits && bits + FRACTION_SPAN < SIGN_BIT {
        let span = FRACTION_SPAN as int;
        let e = bits as int / span;
        let f = bits as int % span;
        let up = (bits + FRACTION_SPAN) as u64;
        assert(up as int / span == e + 1 && up as int % span == f);
        lemma_pow2_adds(1, (e - 1) as nat);
        let low = pow2((e - 1) as nat) as int;
        assert((span + f) * (2 * low) == 2 * ((span + f) * low)) by (nonlinear_arith);
    }
}

/// A reading is a number unless its bits, the sign apart, are above those of
/// infinity.
pub proof fn what_is_not_a_number(bits: u64)
    ensures
        (Celsius { bits }).is_nan_spec() <==> 0x7ff0_0000_0000_0000 < bits < 0x8000_0000_0000_0000
            || bits > 0xfff0_0000_0000_0000,
{
}

/// Of two numbers one is colder, or the other is, or they are the same number;
/// something that is not a number is neither colder nor hotter than anything.
pub proof fn readings_are_ordered(a: Celsius, b: Celsius)
    ensures
        a.is_nan_spec() || b.is_nan_spec() ==> !a.colder(b) && !b.colder(a),
        !a.is_nan_spec() && !b.is_nan_spec() ==> (a.colder(b) <==> a.value() < b.value()) && (
        b.colder(a) <==> b.value() < a.value()),
{
}

} // verus!
