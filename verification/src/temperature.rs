//! The sampling temperature.
//!
//! A temperature is a single-precision number from 0.0 to 1.0. This library
//! holds it as its IEEE-754 bit pattern, so that the range rule is a rule on
//! integers: whoever parses the text hands over the bits of what was read
//! (in Rust, `to_bits` of the number).

use crate::error::ConfigError;
use vstd::arithmetic::power2::*;
use vstd::prelude::*;

verus! {

/// The bit pattern of 1.0.
pub const ONE: u32 = 0x3F80_0000;

/// The bit pattern of -0.0.
pub const NEGATIVE_ZERO: u32 = 0x8000_0000;

/// The bit pattern of 0.7, the temperature used when none is configured.
pub const DEFAULT_TEMPERATURE: u32 = 0x3F33_3333;

/// Whether the sign bit is set.
pub open spec fn is_negative(bits: u32) -> bool {
    bits >= 0x8000_0000
}

/// The biased exponent: the eight bits below the sign.
pub open spec fn exponent(bits: u32) -> nat {
    ((bits as nat) / 0x80_0000) % 0x100
}

/// The fraction: the low twenty-three bits.
pub open spec fn fraction(bits: u32) -> nat {
    (bits as nat) % 0x80_0000
}

/// Whether the pattern is one of the NaNs.
pub open spec fn is_nan(bits: u32) -> bool {
    exponent(bits) == 0xFF && fraction(bits) != 0
}

/// The magnitude of the number that a pattern stands for, counted in units
/// of 2^-149, the smallest positive single. Every finite single is a whole
/// number of these. An infinity counts as 2^277, above every finite one.
pub open spec fn magnitude(bits: u32) -> nat {
    if exponent(bits) == 0 {
        fraction(bits)
    } else {
        (0x80_0000 + fraction(bits)) * pow2((exponent(bits) - 1) as nat)
    }
}

/// Whether the number that a pattern stands for lies between 0.0 and 1.0,
/// both included. 1.0 is 2^149 units; -0.0 equals 0.0; a NaN lies nowhere.
pub open spec fn in_unit_interval(bits: u32) -> bool {
    &&& !is_nan(bits)
    &&& magnitude(bits) <= pow2(149)
    &&& is_negative(bits) ==> magnitude(bits) == 0
}

/// On bit patterns the range rule is one comparison: the patterns of the
/// numbers from 0.0 to 1.0 are those up to the pattern of 1.0, and -0.0.
pub proof fn lemma_unit_interval_patterns(bits: u32)
    ensures
        in_unit_interval(bits) <==> (bits <= ONE || bits == NEGATIVE_ZERO),
{
    let e = exponent(bits);
    let f = fraction(bits);
    let high = (bits as nat) / 0x80_0000;
    lemma2_to64();
    lemma_pow2_adds(24, 125);
    lemma_pow2_adds(23, 126);
    lemma_pow2_adds(23, 127);
    lemma_pow2_strictly_increases(149, 150);
    assert(bits as nat == high * 0x80_0000 + f);
    assert(high < 0x200);
    assert(e == if high < 0x100 { high } else { (high - 0x100) as nat });
    if e == 0 {
        assert(f < pow2(23));
        lemma_pow2_strictly_increases(23, 149);
    } else {
        let p = pow2((e - 1) as nat);
        lemma_pow2_pos((e - 1) as nat);
        assert((0x80_0000 + f) * p > 0) by (nonlinear_arith)
            requires
                p > 0,
        ;
        if e <= 126 {
            if e < 126 {
                lemma_pow2_strictly_increases((e - 1) as nat, 125);
            }
            assert((0x80_0000 + f) * p < 0x100_0000 * p) by (nonlinear_arith)
                requires
                    f < 0x80_0000,
                    p > 0,
            ;
            assert(0x100_0000 * p <= 0x100_0000 * pow2(125)) by (nonlinear_arith)
                requires
                    p <= pow2(125),
            ;
        } else if e == 127 {
            assert((0x80_0000 + f) * p == 0x80_0000 * p + f * p) by (nonlinear_arith);
            assert(f > 0 ==> f * p > 0) by (nonlinear_arith)
                requires
                    p > 0,
            ;
        } else {
            if e > 128 {
                lemma_pow2_strictly_increases(127, (e - 1) as nat);
            }
            assert((0x80_0000 + f) * p >= 0x80_0000 * pow2(127)) by (nonlinear_arith)
                requires
                    p >= pow2(127),
            ;
        }
    }
}

/// A temperature that is known to lie between 0.0 and 1.0.
#[derive(Clone, Copy, Debug, PartialEq, Eq)]
pub struct Temperature {
    bits: u32,
}

impl View for Temperature {
    type V = u32;

    /// The bit pattern of the temperature.
    closed spec fn view(&self) -> u32 {
        self.bits
    }
}

impl Temperature {
    #[verifier::type_invariant]
    spec fn in_range(self) -> bool {
        in_unit_interval(self.bits)
    }

    /// The temperature with the given bit pattern, if that is a number from
    /// 0.0 to 1.0.
    pub fn from_bits(bits: u32) -> (r: Result<Temperature, ConfigError>)
        ensures
            match r {
                Ok(t) => in_unit_interval(bits) && t@ == bits,
                Err(e) => !in_unit_interval(bits) && e == ConfigError::TemperatureOutOfRange,
            },
    {
        proof {
            lemma_unit_interval_patterns(bits);
        }
        if bits <= ONE || bits == NEGATIVE_ZERO {
            Ok(Temperature { bits })
        } else {
            Err(ConfigError::TemperatureOutOfRange)
        }
    }

    /// The temperature used when none is configured: 0.7.
    pub fn default_value() -> (r: Temperature)
        ensures
            r@ == DEFAULT_TEMPERATURE,
            in_unit_interval(r@),
    {
        proof {
            lemma_unit_interval_patterns(DEFAULT_TEMPERATURE);
        }
        Temperature { bits: DEFAULT_TEMPERATURE }
    }

    /// The bit pattern of this temperature (in Rust, the argument for
    /// `from_bits` of the number type).
    pub fn bits(&self) -> (r: u32)
        ensures
            r == self@,
            in_unit_interval(r),
    {
        proof {
            use_type_invariant(self);
        }
        self.bits
    }
}

} // verus!
