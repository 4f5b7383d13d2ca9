//! Pulse-width mapping for servo-style speed controllers.
//!
//! The signal has a period of 20 ms. A pulse of 1500 microseconds is neutral
//! and full deflection moves it by 500 microseconds either way, so the width is
//! `1500 + 500 * speed` microseconds. Widths are produced in whole nanoseconds,
//! the offset from neutral being rounded towards neutral.

use crate::speed::{
    exponent_field, fraction_field, in_unit_range, lemma_neutral_is_zero,
    lemma_unit_range_by_bits, lemma_unit_speeds, magnitude_units, unit_scale, Speed,
    MINUS_ONE_BITS, ONE_BITS, SIGN_MASK,
};
use vstd::arithmetic::div_mod::{
    lemma_basic_div, lemma_div_is_ordered, lemma_div_multiples_vanish,
    lemma_div_multiples_vanish_quotient, lemma_fundamental_div_mod, lemma_mod_bound,
};
use vstd::arithmetic::mul::{lemma_mul_inequality, lemma_mul_is_commutative};
use vstd::arithmetic::power2::{
    lemma2_to64, lemma2_to64_rest, lemma_pow2_adds, lemma_pow2_pos,
    lemma_pow2_strictly_increases, pow2,
};
use vstd::bits::lemma_u64_shr_is_div;
use vstd::prelude::*;

verus! {

/// Signalling period in milliseconds (50 Hz).
pub const PERIOD_MS: u64 = 20;

/// Largest offset of a pulse from neutral, in microseconds.
pub const PULSE_DELTA_US: u64 = 500;

/// Width of the neutral pulse, in microseconds.
pub const PULSE_NEUTRAL_US: u64 = 1500;

/// Signalling period in nanoseconds.
pub const PERIOD_NS: u64 = PERIOD_MS * 1_000_000;

/// Largest offset of a pulse from neutral, in nanoseconds.
pub const PULSE_DELTA_NS: u64 = PULSE_DELTA_US * 1000;

/// Width of the neutral pulse, in nanoseconds.
pub const PULSE_NEUTRAL_NS: u64 = PULSE_NEUTRAL_US * 1000;

/// Offset from neutral, in nanoseconds, of the pulse for a speed of `units`
/// times `2^-149`: the exact product `500 us * speed`, rounded towards zero.
pub open spec fn deflection_nanos(units: int) -> int {
    if units >= 0 {
        (units * PULSE_DELTA_NS) / (unit_scale() as int)
    } else {
        -(((-units) * PULSE_DELTA_NS) / (unit_scale() as int))
    }
}

/// Pulse width, in nanoseconds, for a speed of `units` times `2^-149`.
pub open spec fn pulse_nanos(units: int) -> int {
    PULSE_NEUTRAL_NS + deflection_nanos(units)
}

/// The width of one pulse. It always lies between 1000 and 2000 microseconds.
#[derive(Clone, Copy, Debug, PartialEq, Eq, Structural)]
pub struct PulseWidth {
    nanos: u64,
}

impl PulseWidth {
    /// A pulse is never shorter than full reverse nor longer than full forward.
    #[verifier::type_invariant]
    pub closed spec fn well_formed(self) -> bool {
        PULSE_NEUTRAL_NS - PULSE_DELTA_NS <= self.nanos <= PULSE_NEUTRAL_NS + PULSE_DELTA_NS
    }

    /// The width in nanoseconds.
    pub closed spec fn nanos(self) -> int {
        self.nanos as int
    }

    /// The pulse of the given width in nanoseconds.
    pub closed spec fn of_nanos(nanos: int) -> PulseWidth
        recommends
            PULSE_NEUTRAL_NS - PULSE_DELTA_NS <= nanos <= PULSE_NEUTRAL_NS + PULSE_DELTA_NS,
    {
        PulseWidth { nanos: nanos as u64 }
    }

    /// The pulse that commands a speed.
    pub open spec fn for_speed(speed: Speed) -> PulseWidth {
        PulseWidth::of_nanos(pulse_nanos(speed.units()))
    }

    /// A pulse is its width: the width of `of_nanos(n)` is `n` for every
    /// width between full reverse and full forward.
    pub proof fn lemma_of_nanos(nanos: int)
        requires
            PULSE_NEUTRAL_NS - PULSE_DELTA_NS <= nanos <= PULSE_NEUTRAL_NS + PULSE_DELTA_NS,
        ensures
            PulseWidth::of_nanos(nanos).nanos() == nanos,
            PulseWidth::of_nanos(nanos).well_formed(),
    {
    }

    /// Two pulses of one width are one pulse.
    pub proof fn lemma_by_nanos(self)
        requires
            self.well_formed(),
        ensures
            PulseWidth::of_nanos(self.nanos()) == self,
    {
    }

    /// The width in nanoseconds.
    pub fn as_nanos(self) -> (nanos: u64)
        ensures
            nanos == self.nanos(),
            1_000_000 <= nanos <= 2_000_000,
    {
        proof {
            use_type_invariant(&self);
        }
        self.nanos
    }

    /// The pulse as a fraction of the signalling period: the width and the
    /// period, both in nanoseconds.
    pub fn duty_cycle(self) -> (fraction: (u64, u64))
        ensures
            fraction.0 == self.nanos(),
            fraction.1 == PERIOD_NS,
            0 < fraction.0 < fraction.1,
    {
        proof {
            use_type_invariant(&self);
        }
        (self.nanos, PERIOD_NS)
    }

    /// The width in whole microseconds.
    pub fn as_micros(self) -> (micros: u64)
        ensures
            micros == self.nanos() / 1000,
            1000 <= micros <= 2000,
    {
        proof {
            use_type_invariant(&self);
        }
        self.nanos / 1000
    }
}

/// With the fraction's leading bit made explicit and the exponent turned
/// into a right shift, the deflection of a pattern is one integer division.
proof fn lemma_deflection_by_shift(bits: u32, mantissa: nat, shift: nat)
    requires
        in_unit_range(bits),
        exponent_field(bits) == 0 ==> mantissa == fraction_field(bits) && shift == 149,
        exponent_field(bits) != 0 ==> mantissa == 0x80_0000 + fraction_field(bits) && shift == 150
            - exponent_field(bits),
    ensures
        23 <= shift <= 149,
        mantissa < 0x100_0000,
        (magnitude_units(bits) * PULSE_DELTA_NS) / (unit_scale() as int) == (mantissa
            * PULSE_DELTA_NS) / (pow2(shift) as int),
        (mantissa * PULSE_DELTA_NS) / (pow2(shift) as int) <= PULSE_DELTA_NS,
{
    let e = exponent_field(bits);
    lemma_unit_range_by_bits(bits);
    assert((bits & 0x7fff_ffff) <= 0x3f80_0000 ==> ((bits >> 23) & 0xff) <= 127) by (bit_vector);
    assert((bits & 0x7f_ffff) <= 0x7f_ffff) by (bit_vector);
    let k = (149 - shift) as nat;
    let units = magnitude_units(bits) as int;
    let scaled = (mantissa * PULSE_DELTA_NS) as int;
    let pk = pow2(k) as int;
    let ps = pow2(shift) as int;
    lemma_pow2_pos(k);
    lemma_pow2_pos(shift);
    lemma_pow2_adds(k, shift);
    lemma2_to64();
    assert(units == mantissa * pk) by {
        if e == 0 {
            assert(mantissa * 1 == mantissa) by (nonlinear_arith);
        }
    }
    assert(units * PULSE_DELTA_NS == pk * scaled) by (nonlinear_arith)
        requires
            units == mantissa * pk,
            scaled == mantissa * PULSE_DELTA_NS,
    ;
    lemma_div_multiples_vanish_quotient(pk, scaled, ps);
    // the quotient never exceeds the full deflection, as units <= 2^149
    assert(units * PULSE_DELTA_NS <= unit_scale() * PULSE_DELTA_NS) by (nonlinear_arith)
        requires
            units <= unit_scale(),
    ;
    lemma_div_is_ordered(
        units * PULSE_DELTA_NS,
        unit_scale() * PULSE_DELTA_NS,
        unit_scale() as int,
    );
    lemma_pow2_pos(149);
    lemma_div_multiples_vanish(PULSE_DELTA_NS as int, unit_scale() as int);
    lemma_mul_is_commutative(unit_scale() as int, PULSE_DELTA_NS as int);
}

/// Maps a speed to the width of the pulse that commands it.
///
/// The width is `1500 us + 500 us * speed`, in whole nanoseconds, the offset
/// rounded towards neutral.
pub fn pulse_width(speed: Speed) -> (pulse: PulseWidth)
    ensures
        pulse == PulseWidth::for_speed(speed),
        pulse.nanos() == pulse_nanos(speed.units()),
{
    let bits = speed.to_bits();
    let e: u64 = ((bits >> 23) & 0xff) as u64;
    let f: u64 = (bits & 0x7f_ffff) as u64;
    proof {
        lemma_unit_range_by_bits(bits);
        assert((bits & 0x7fff_ffff) <= 0x3f80_0000 ==> ((bits >> 23) & 0xff) <= 127)
            by (bit_vector);
        assert((bits & 0x7f_ffff) <= 0x7f_ffff) by (bit_vector);
    }
    let mantissa: u64 = if e == 0 {
        f
    } else {
        f + 0x80_0000
    };
    let shift: u64 = if e == 0 {
        149
    } else {
        150 - e
    };
    let scaled: u64 = mantissa * PULSE_DELTA_NS;
    let delta: u64 = if shift >= 64 {
        0
    } else {
        scaled >> shift
    };
    proof {
        lemma_deflection_by_shift(bits, mantissa as nat, shift as nat);
        lemma2_to64();
        if shift >= 64 {
            // scaled < 2^24 * 2^19 <= 2^shift
            assert(pow2(43) == 0x800_0000_0000) by {
                lemma2_to64_rest();
            }
            if shift > 43 {
                lemma_pow2_strictly_increases(43, shift as nat);
            }
            lemma_basic_div(scaled as int, pow2(shift as nat) as int);
        } else {
            lemma_u64_shr_is_div(scaled, shift);
        }
    }
    let nanos: u64 = if bits & SIGN_MASK != 0 {
        PULSE_NEUTRAL_NS - delta
    } else {
        PULSE_NEUTRAL_NS + delta
    };
    proof {
        lemma_pow2_pos(149);
    }
    PulseWidth { nanos }
}

/// Every speed maps to a pulse between full reverse and full forward.
pub proof fn lemma_pulse_is_bounded(speed: Speed)
    requires
        speed.well_formed(),
    ensures
        PULSE_NEUTRAL_NS - PULSE_DELTA_NS <= pulse_nanos(speed.units()) <= PULSE_NEUTRAL_NS
            + PULSE_DELTA_NS,
        PulseWidth::for_speed(speed).nanos() == pulse_nanos(speed.units()),
        PulseWidth::for_speed(speed).well_formed(),
{
    speed.lemma_by_bits();
    let units = speed.units();
    let scale = unit_scale() as int;
    lemma_pulse_is_monotonic(-scale, units);
    lemma_pulse_is_monotonic(units, scale);
    lemma_full_deflection();
    PulseWidth::lemma_of_nanos(pulse_nanos(units));
}

/// A speed of zero maps to the neutral pulse of 1500 microseconds, exactly;
/// the neutral speed is such a speed.
pub proof fn lemma_neutral_pulse(speed: Speed)
    requires
        speed.units() == 0,
    ensures
        pulse_nanos(speed.units()) == PULSE_NEUTRAL_US * 1000,
        PulseWidth::for_speed(speed).nanos() == PULSE_NEUTRAL_US * 1000,
        Speed::spec_neutral().units() == 0,
{
    lemma_neutral_is_zero();
    lemma_pow2_pos(149);
    PulseWidth::lemma_of_nanos(PULSE_NEUTRAL_NS as int);
}

/// Full forward, a speed of one, maps to 2000 microseconds and full reverse,
/// a speed of minus one, to 1000.
pub proof fn lemma_full_deflection()
    ensures
        pulse_nanos(unit_scale() as int) == PULSE_NEUTRAL_NS + PULSE_DELTA_NS,
        pulse_nanos(-(unit_scale() as int)) == PULSE_NEUTRAL_NS - PULSE_DELTA_NS,
        pulse_nanos(Speed::of_bits(ONE_BITS).units()) == 2000 * 1000,
        pulse_nanos(Speed::of_bits(MINUS_ONE_BITS).units()) == 1000 * 1000,
{
    lemma_unit_speeds();
    lemma_pow2_pos(149);
    lemma_div_multiples_vanish(PULSE_DELTA_NS as int, unit_scale() as int);
    lemma_mul_is_commutative(unit_scale() as int, PULSE_DELTA_NS as int);
}

/// Between the endpoints the mapping is the straight line through them: the
/// width differs from `1500 us + 500 us * speed` by less than a nanosecond,
/// and never lies farther from neutral than that line.
pub proof fn lemma_pulse_is_linear(units: int)
    ensures
        units >= 0 ==> PULSE_NEUTRAL_NS * unit_scale() + PULSE_DELTA_NS * units - unit_scale()
            < pulse_nanos(units) * unit_scale() <= PULSE_NEUTRAL_NS * unit_scale() + PULSE_DELTA_NS
            * units,
        units <= 0 ==> PULSE_NEUTRAL_NS * unit_scale() + PULSE_DELTA_NS * units <= pulse_nanos(
            units,
        ) * unit_scale() < PULSE_NEUTRAL_NS * unit_scale() + PULSE_DELTA_NS * units
            + unit_scale(),
{
    let s = unit_scale() as int;
    lemma_pow2_pos(149);
    let a = if units >= 0 {
        units
    } else {
        -units
    };
    let x = a * PULSE_DELTA_NS;
    let q = x / s;
    lemma_fundamental_div_mod(x, s);
    lemma_mod_bound(x, s);
    // x == s * q + r with 0 <= r < s
    lemma_mul_is_commutative(s, q);
    if units >= 0 {
        assert(pulse_nanos(units) * s == PULSE_NEUTRAL_NS * s + q * s) by (nonlinear_arith)
            requires
                pulse_nanos(units) == PULSE_NEUTRAL_NS + q,
        ;
        assert(x == PULSE_DELTA_NS * units) by (nonlinear_arith)
            requires
                x == units * PULSE_DELTA_NS,
        ;
    } else {
        assert(pulse_nanos(units) * s == PULSE_NEUTRAL_NS * s - q * s) by (nonlinear_arith)
            requires
                pulse_nanos(units) == PULSE_NEUTRAL_NS - q,
        ;
        assert(x == -(PULSE_DELTA_NS * units)) by (nonlinear_arith)
            requires
                x == (-units) * PULSE_DELTA_NS,
        ;
    }
}

/// A larger speed never gives a shorter pulse.
pub proof fn lemma_pulse_is_monotonic(lower: int, upper: int)
    requires
        lower <= upper,
    ensures
        pulse_nanos(lower) <= pulse_nanos(upper),
{
    let s = unit_scale() as int;
    lemma_pow2_pos(149);
    if lower >= 0 {
        lemma_mul_inequality(lower, upper, PULSE_DELTA_NS as int);
        lemma_div_is_ordered(lower * PULSE_DELTA_NS, upper * PULSE_DELTA_NS, s);
    } else if upper < 0 {
        lemma_mul_inequality(-upper, -lower, PULSE_DELTA_NS as int);
        lemma_div_is_ordered((-upper) * PULSE_DELTA_NS, (-lower) * PULSE_DELTA_NS, s);
    } else {
        lemma_mul_inequality(0, upper, PULSE_DELTA_NS as int);
        lemma_mul_inequality(0, -lower, PULSE_DELTA_NS as int);
        lemma_div_is_ordered(0, upper * PULSE_DELTA_NS, s);
        lemma_div_is_ordered(0, (-lower) * PULSE_DELTA_NS, s);
    }
}

/// Reversing a speed mirrors its pulse about neutral.
pub proof fn lemma_pulse_is_symmetric(units: int)
    ensures
        pulse_nanos(units) + pulse_nanos(-units) == 2 * PULSE_NEUTRAL_NS,
{
    lemma_pow2_pos(149);
}

} // verus!
