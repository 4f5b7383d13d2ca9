//! Normalised motor speed.
//!
//! A speed is a signed quantity between minus one and plus one. It travels on
//! the wire as an IEEE 754 binary32 pattern and is kept here in exactly that
//! form, so that a decoded frame can be re-encoded bit for bit. All arithmetic
//! on it is done on the integer fields of the pattern; the exact rational value
//! `units() / 2^149` is its mathematical meaning.

use vstd::arithmetic::mul::{
    lemma_mul_inequality, lemma_mul_is_commutative, lemma_mul_strict_inequality,
};
use vstd::arithmetic::power2::{
    lemma2_to64, lemma_pow2_adds, lemma_pow2_pos, lemma_pow2_strictly_increases, pow2,
};
use vstd::prelude::*;

verus! {

/// Mask of the sign bit of a binary32 pattern.
pub const SIGN_MASK: u32 = 0x8000_0000;

/// Mask of the exponent and fraction bits of a binary32 pattern.
pub const MAGNITUDE_MASK: u32 = 0x7fff_ffff;

/// Pattern of plus one: the largest magnitude a speed may have.
pub const ONE_BITS: u32 = 0x3f80_0000;

/// Pattern of minus one.
pub const MINUS_ONE_BITS: u32 = 0xbf80_0000;

/// Pattern of plus zero: the neutral speed.
pub const NEUTRAL_BITS: u32 = 0;

/// Biased exponent field of a pattern.
pub open spec fn exponent_field(bits: u32) -> nat {
    ((bits >> 23) & 0xff) as nat
}

/// Fraction field of a pattern.
pub open spec fn fraction_field(bits: u32) -> nat {
    (bits & 0x7f_ffff) as nat
}

/// Whether the sign bit of a pattern is set.
pub open spec fn is_negative(bits: u32) -> bool {
    bits & SIGN_MASK != 0
}

/// Whether a pattern denotes a number (neither an infinity nor a NaN).
pub open spec fn is_finite(bits: u32) -> bool {
    exponent_field(bits) != 0xff
}

/// Absolute value denoted by a finite pattern, counted in units of `2^-149`.
///
/// Subnormal patterns carry the bare fraction; normal ones the fraction with
/// its implicit leading bit, scaled by the exponent.
pub open spec fn magnitude_units(bits: u32) -> nat {
    let e = exponent_field(bits);
    let f = fraction_field(bits);
    if e == 0 {
        f
    } else {
        (0x80_0000 + f) * pow2((e - 1) as nat)
    }
}

/// Number of `2^-149` units in one.
pub open spec fn unit_scale() -> nat {
    pow2(149)
}

/// Whether a pattern denotes a number whose absolute value is at most one.
pub open spec fn in_unit_range(bits: u32) -> bool {
    is_finite(bits) && magnitude_units(bits) <= unit_scale()
}

/// The range test on the raw pattern is the range test on the value: a
/// pattern lies in the unit range exactly when, with its sign cleared, it does
/// not exceed the pattern of one.
pub proof fn lemma_unit_range_by_bits(bits: u32)
    ensures
        in_unit_range(bits) <==> (bits & MAGNITUDE_MASK) <= ONE_BITS,
{
    let e = exponent_field(bits);
    let f = fraction_field(bits);
    let m = bits & MAGNITUDE_MASK;
    assert(m == ((bits >> 23) & 0xff) * 0x80_0000 + (bits & 0x7f_ffff)) by (bit_vector)
        requires
            m == bits & 0x7fff_ffff,
    ;
    assert(((bits >> 23) & 0xff) <= 0xff && (bits & 0x7f_ffff) <= 0x7f_ffff) by (bit_vector);
    lemma_pow2_pos(149);
    lemma2_to64();
    if e == 0 {
        // subnormal: below 2^23 units
        lemma_pow2_strictly_increases(23, 149);
    } else {
        let k = (e - 1) as nat;
        lemma_pow2_pos(k);
        if e <= 126 {
            // (2^23 + f) * 2^k < 2^24 * 2^125
            lemma_pow2_adds(24, 125);
            if k < 125 {
                lemma_pow2_strictly_increases(k, 125);
            }
            let mantissa = (0x80_0000 + f) as int;
            lemma_mul_inequality(pow2(k) as int, pow2(125) as int, mantissa);
            lemma_mul_strict_inequality(mantissa, pow2(24) as int, pow2(125) as int);
            assert(mantissa * pow2(k) <= mantissa * pow2(125)) by {
                lemma_mul_is_commutative(pow2(k) as int, mantissa);
                lemma_mul_is_commutative(pow2(125) as int, mantissa);
            }
        } else if e == 127 {
            lemma_pow2_adds(23, 126);
            if f > 0 {
                lemma_mul_strict_inequality(0x80_0000, (0x80_0000 + f) as int, pow2(126) as int);
            }
        } else {
            // at least 2^23 * 2^127 units
            lemma_pow2_adds(23, 127);
            lemma_pow2_adds(149, 1);
            if k > 127 {
                lemma_pow2_strictly_increases(127, k);
            }
            lemma_mul_inequality(pow2(127) as int, pow2(k) as int, 0x80_0000);
            lemma_mul_inequality(0x80_0000, (0x80_0000 + f) as int, pow2(k) as int);
            lemma_mul_is_commutative(pow2(127) as int, 0x80_0000);
            lemma_mul_is_commutative(pow2(k) as int, 0x80_0000);
        }
    }
}

/// A motor speed: a number between minus one and plus one.
///
/// The only way to obtain a value is through `neutral` or `from_bits`, so a
/// speed that reaches an actuator is always within bounds.
#[derive(Clone, Copy, Debug, PartialEq, Eq, Structural)]
pub struct Speed {
    bits: u32,
}

impl Speed {
    /// Every speed denotes a number of absolute value at most one.
    #[verifier::type_invariant]
    pub closed spec fn well_formed(self) -> bool {
        in_unit_range(self.bits)
    }

    /// The binary32 pattern of this speed.
    pub closed spec fn spec_bits(self) -> u32 {
        self.bits
    }

    /// The speed with the given pattern.
    pub closed spec fn of_bits(bits: u32) -> Speed {
        Speed { bits }
    }

    /// The neutral speed: plus zero, no motion.
    pub open spec fn spec_neutral() -> Speed {
        Speed::of_bits(NEUTRAL_BITS)
    }

    /// The exact value of this speed, counted in units of `2^-149`; negative
    /// for patterns with the sign bit set.
    pub open spec fn units(self) -> int {
        if is_negative(self.spec_bits()) {
            -(magnitude_units(self.spec_bits()) as int)
        } else {
            magnitude_units(self.spec_bits()) as int
        }
    }

    /// A speed is its pattern: the pattern of `of_bits(bits)` is `bits`, and a
    /// speed is rebuilt from its own pattern.
    pub proof fn lemma_of_bits(bits: u32)
        ensures
            Speed::of_bits(bits).spec_bits() == bits,
            Speed::of_bits(bits).well_formed() <==> in_unit_range(bits),
    {
    }

    /// Two speeds with one pattern are one speed.
    pub proof fn lemma_by_bits(self)
        ensures
            Speed::of_bits(self.spec_bits()) == self,
            self.well_formed() <==> in_unit_range(self.spec_bits()),
    {
    }

    /// Accepts a pattern exactly when it denotes a number within the unit
    /// range; infinities, NaNs and larger magnitudes are refused.
    pub fn from_bits(bits: u32) -> (speed: Option<Speed>)
        ensures
            speed == (if in_unit_range(bits) {
                Some(Speed::of_bits(bits))
            } else {
                None
            }),
    {
        proof {
            lemma_unit_range_by_bits(bits);
        }
        if bits & MAGNITUDE_MASK <= ONE_BITS {
            Some(Speed { bits })
        } else {
            None
        }
    }

    /// The pattern of this speed, as it goes on the wire.
    pub fn to_bits(self) -> (bits: u32)
        ensures
            bits == self.spec_bits(),
            in_unit_range(bits),
            self == Speed::of_bits(bits),
    {
        proof {
            use_type_invariant(&self);
        }
        self.bits
    }

    /// The neutral speed.
    pub fn neutral() -> (speed: Speed)
        ensures
            speed == Speed::spec_neutral(),
            speed.units() == 0,
    {
        proof {
            lemma_neutral_is_zero();
        }
        Speed { bits: NEUTRAL_BITS }
    }
}

/// The neutral pattern lies in the unit range and denotes zero.
pub proof fn lemma_neutral_is_zero()
    ensures
        in_unit_range(NEUTRAL_BITS),
        Speed::spec_neutral().well_formed(),
        Speed::spec_neutral().units() == 0,
{
    lemma_unit_range_by_bits(NEUTRAL_BITS);
    assert(NEUTRAL_BITS & MAGNITUDE_MASK == 0) by (bit_vector);
    lemma_zero_units(NEUTRAL_BITS);
}

/// Plus one and minus one are speeds, of `2^149` and `-2^149` units.
pub proof fn lemma_unit_speeds()
    ensures
        in_unit_range(ONE_BITS),
        in_unit_range(MINUS_ONE_BITS),
        Speed::of_bits(ONE_BITS).well_formed(),
        Speed::of_bits(ONE_BITS).units() == unit_scale(),
        Speed::of_bits(MINUS_ONE_BITS).well_formed(),
        Speed::of_bits(MINUS_ONE_BITS).units() == -(unit_scale() as int),
{
    lemma_unit_range_by_bits(ONE_BITS);
    lemma_unit_range_by_bits(MINUS_ONE_BITS);
    assert(0x3f80_0000u32 & 0x7fff_ffff == 0x3f80_0000 && (0x3f80_0000u32 >> 23) & 0xff == 127
        && 0x3f80_0000u32 & 0x7f_ffff == 0 && 0x3f80_0000u32 & 0x8000_0000 == 0) by (bit_vector);
    assert(0xbf80_0000u32 & 0x7fff_ffff == 0x3f80_0000 && (0xbf80_0000u32 >> 23) & 0xff == 127
        && 0xbf80_0000u32 & 0x7f_ffff == 0 && 0xbf80_0000u32 & 0x8000_0000 != 0) by (bit_vector);
    lemma2_to64();
    lemma_pow2_adds(23, 126);
}

/// A pattern denotes zero exactly when all bits but the sign are clear.
pub proof fn lemma_zero_units(bits: u32)
    ensures
        magnitude_units(bits) == 0 <==> bits & MAGNITUDE_MASK == 0,
{
    let e = exponent_field(bits);
    let f = fraction_field(bits);
    assert((bits & 0x7fff_ffff == 0) <==> (((bits >> 23) & 0xff) == 0 && (bits & 0x7f_ffff)
        == 0)) by (bit_vector);
    if e != 0 {
        lemma_pow2_pos((e - 1) as nat);
        assert((0x80_0000 + f) * pow2((e - 1) as nat) > 0) by (nonlinear_arith)
            requires
                pow2((e - 1) as nat) > 0,
        ;
    }
}

} // verus!
