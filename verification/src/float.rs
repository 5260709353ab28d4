//! IEEE 754 doubles as the integers that store them.

use vstd::prelude::*;

verus! {

/// A 64-bit IEEE 754 floating-point number, held as its bit pattern.
///
/// The library carries and compares such numbers without doing arithmetic on
/// them, so it holds what `f64::to_bits` gives and `f64::from_bits` takes.
///
/// Two of them are equal as numbers: what is not a number equals nothing, and
/// the two zeros equal each other.
#[derive(Debug, Clone, Copy)]
pub struct Float64 {
    /// Sign, exponent and fraction, from the most significant bit down.
    pub bits: u64,
}

/// Bits of the fraction of a double.
pub const FRACTION: u64 = 0x10_0000_0000_0000;

/// Bits of a double below its sign.
pub const MAGNITUDE: u64 = 0x8000_0000_0000_0000;

impl Float64 {
    /// The number with the bit pattern `bits`.
    pub fn from_bits(bits: u64) -> (number: Self)
        ensures
            number.bits == bits,
    {
        Float64 { bits }
    }

    /// The bit pattern of this number.
    pub fn to_bits(self) -> (bits: u64)
        ensures
            bits == self.bits,
    {
        self.bits
    }

    /// Whether the sign bit is set.
    pub open spec fn negative(self) -> bool {
        self.bits >= MAGNITUDE
    }

    /// The biased exponent.
    pub open spec fn exponent(self) -> nat {
        ((self.bits % MAGNITUDE) / FRACTION) as nat
    }

    /// The fraction field.
    pub open spec fn fraction(self) -> nat {
        (self.bits % FRACTION) as nat
    }

    /// Whether this is not a number.
    pub open spec fn nan(self) -> bool {
        self.exponent() == 2047 && self.fraction() != 0
    }

    /// Whether this is zero, of either sign.
    pub open spec fn zero(self) -> bool {
        self.bits % MAGNITUDE == 0
    }

    /// Whether this and `other` are equal as numbers.
    pub open spec fn equals(self, other: Float64) -> bool {
        &&& !self.nan()
        &&& !other.nan()
        &&& self.bits == other.bits || (self.zero() && other.zero())
    }

    /// Whether this is not a number.
    pub fn is_nan(self) -> (nan: bool)
        ensures
            nan == self.nan(),
    {
        (self.bits % MAGNITUDE) / FRACTION == 2047 && self.bits % FRACTION != 0
    }

    /// The significand: the magnitude of a finite number is
    /// `significand * 2^(scale - 1074)`.
    pub open spec fn significand(self) -> nat {
        if self.exponent() == 0 {
            self.fraction()
        } else {
            FRACTION as nat + self.fraction()
        }
    }

    /// The exponent that goes with the significand.
    pub open spec fn scale(self) -> nat {
        if self.exponent() == 0 {
            0
        } else {
            (self.exponent() - 1) as nat
        }
    }

    /// The number in units of `2^-1074`, of which every finite double is a
    /// whole multiple; an infinity counts as the next power of two beyond the
    /// finite numbers.
    pub open spec fn units(self) -> int {
        let magnitude = self.significand() * vstd::arithmetic::power2::pow2(self.scale());
        if self.negative() {
            -(magnitude as int)
        } else {
            magnitude as int
        }
    }

    /// Whether this is at most `other`, both being numbers.
    pub open spec fn at_most(self, other: Float64) -> bool {
        !self.nan() && !other.nan() && self.units() <= other.units()
    }

    /// Whether the number is one or more.
    pub open spec fn at_least_one(self) -> bool {
        !self.nan() && !self.negative() && self.exponent() >= 1023
    }

    /// Whether the number is above zero.
    pub open spec fn positive(self) -> bool {
        !self.nan() && !self.negative() && self.significand() > 0
    }
}

impl PartialEq for Float64 {
    fn eq(&self, other: &Self) -> (equal: bool) {
        !self.is_nan() && !other.is_nan() && (self.bits == other.bits || (self.bits % MAGNITUDE == 0
            && other.bits % MAGNITUDE == 0))
    }
}

impl vstd::std_specs::cmp::PartialEqSpecImpl for Float64 {
    open spec fn obeys_eq_spec() -> bool {
        true
    }

    open spec fn eq_spec(&self, other: &Self) -> bool {
        self.equals(*other)
    }
}

/// Equality is that of numbers: two doubles are equal if and only if both are
/// numbers and stand at the same place.
pub proof fn lemma_equal_numbers(number: Float64, other: Float64)
    ensures
        number.equals(other) <==> !number.nan() && !other.nan() && number.units() == other.units(),
{
    lemma_parts(number);
    lemma_parts(other);
    let unit = vstd::arithmetic::power2::pow2(number.scale());
    let other_unit = vstd::arithmetic::power2::pow2(other.scale());
    vstd::arithmetic::power2::lemma_pow2_pos(number.scale());
    vstd::arithmetic::power2::lemma_pow2_pos(other.scale());
    assert(number.significand() * unit >= 0) by (nonlinear_arith);
    assert(other.significand() * other_unit >= 0) by (nonlinear_arith);
    if number.significand() > 0 {
        lemma_product_positive(number.significand(), unit);
    } else {
        assert(number.significand() * unit == 0) by (nonlinear_arith)
            requires
                number.significand() == 0,
        ;
    }
    if other.significand() > 0 {
        lemma_product_positive(other.significand(), other_unit);
    } else {
        assert(other.significand() * other_unit == 0) by (nonlinear_arith)
            requires
                other.significand() == 0,
        ;
    }
    if number.exponent() < other.exponent() {
        lemma_exponents_order(number, other);
    } else if other.exponent() < number.exponent() {
        lemma_exponents_order(other, number);
    } else if number.fraction() < other.fraction() {
        assert(number.significand() * unit < other.significand() * unit) by (nonlinear_arith)
            requires
                number.significand() < other.significand(),
                unit > 0,
        ;
    } else if other.fraction() < number.fraction() {
        assert(other.significand() * unit < number.significand() * unit) by (nonlinear_arith)
            requires
                other.significand() < number.significand(),
                unit > 0,
        ;
    }
}

proof fn lemma_product_positive(a: nat, b: nat)
    by (nonlinear_arith)
    requires
        a > 0,
        b > 0,
    ensures
        a * b > 0,
{
}

/// A double is made of its sign, its exponent and its fraction.
proof fn lemma_parts(number: Float64)
    ensures
        number.fraction() < FRACTION,
        number.bits == (if number.negative() {
            MAGNITUDE as int
        } else {
            0int
        }) + number.exponent() * FRACTION + number.fraction(),
        number.zero() <==> number.significand() == 0,
{
    let bits = number.bits;
    let low = bits % 0x8000_0000_0000_0000u64;
    assert(bits == (if bits >= 0x8000_0000_0000_0000u64 {
        0x8000_0000_0000_0000int
    } else {
        0int
    }) + low);
    assert(low % 0x10_0000_0000_0000u64 == bits % 0x10_0000_0000_0000u64) by (bit_vector)
        requires
            low == bits % 0x8000_0000_0000_0000u64,
    ;
    assert(low == (low / 0x10_0000_0000_0000u64) * 0x10_0000_0000_0000u64 + low
        % 0x10_0000_0000_0000u64);
}

/// A number with the lower exponent has the smaller magnitude.
pub proof fn lemma_exponents_order(lower: Float64, higher: Float64)
    requires
        lower.exponent() < higher.exponent(),
    ensures
        lower.significand() * vstd::arithmetic::power2::pow2(lower.scale()) < higher.significand()
            * vstd::arithmetic::power2::pow2(higher.scale()),
{
    let below = vstd::arithmetic::power2::pow2(lower.scale());
    let above = vstd::arithmetic::power2::pow2(higher.scale());
    lemma_parts(lower);
    vstd::arithmetic::power2::lemma_pow2_pos(lower.scale());
    if lower.exponent() == 0 {
        if higher.scale() > 0 {
            vstd::arithmetic::power2::lemma_pow2_strictly_increases(0, higher.scale());
        }
        assert(lower.significand() * below < higher.significand() * above) by (nonlinear_arith)
            requires
                lower.significand() < higher.significand(),
                below <= above,
                below > 0,
        ;
    } else {
        let gap = (higher.scale() - lower.scale() - 1) as nat;
        vstd::arithmetic::power2::lemma_pow2_adds(lower.scale() + 1, gap);
        vstd::arithmetic::power2::lemma_pow2_adds(lower.scale(), 1);
        vstd::arithmetic::power2::lemma2_to64();
        vstd::arithmetic::power2::lemma_pow2_pos(gap);
        let step = vstd::arithmetic::power2::pow2(gap);
        assert(above == 2 * below * step) by (nonlinear_arith)
            requires
                above == vstd::arithmetic::power2::pow2(lower.scale() + 1) * step,
                vstd::arithmetic::power2::pow2(lower.scale() + 1) == below * 2,
        ;
        assert(lower.significand() * below < higher.significand() * above) by (nonlinear_arith)
            requires
                lower.significand() < 2 * higher.significand(),
                above == 2 * below * step,
                below > 0,
                step > 0,
        ;
    }
}

} // verus!
