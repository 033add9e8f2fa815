//! Colors of three 8-bit channels.
//!
//! Blending works on real intensities, which a caller computes. An intensity
//! becomes a channel by dropping its fraction and holding it within the range
//! of a channel.
use vstd::prelude::*;
use vstd::arithmetic::power2::{lemma_pow2_pos, pow2};
use vstd::bits::lemma_u32_shr_is_div;
use crate::scalar::Scalar;
use crate::scalar::{EXPONENT_OF_ONE, EXPONENT_OF_UNIT_STEP, HIDDEN_BIT, INFINITY_BITS, SIGN_BIT};

verus! {

/// A color: the intensities of red, green and blue, each from 0 to 255.
#[derive(Clone, Copy, Debug, PartialEq, Eq, Structural)]
pub struct Color {
    pub r: u8,
    pub g: u8,
    pub b: u8,
}

/// The sum of two channel intensities, held at the greatest intensity where
/// it would pass it.
pub open spec fn saturating_sum(a: u8, b: u8) -> u8 {
    if a + b > 255 {
        255u8
    } else {
        (a + b) as u8
    }
}

/// The channel that a real intensity is stored as: its whole part, or 255
/// where that is more. An intensity below zero gives 0, and so does one that
/// is not a number.
pub open spec fn channel_spec(intensity: Scalar) -> u8 {
    if intensity.is_nan() || intensity.sign() {
        0u8
    } else if intensity.whole() > 255 {
        255u8
    } else {
        intensity.whole() as u8
    }
}

/// The channel that a real intensity is stored as.
#[verifier::when_used_as_spec(channel_spec)]
pub fn channel(intensity: Scalar) -> (c: u8)
    ensures
        c == channel_spec(intensity),
{
    let bits = intensity.to_bits();
    if bits >= SIGN_BIT || bits > INFINITY_BITS {
        return 0;
    }
    let exponent: u32 = bits >> 23;
    let fraction: u32 = bits & 0x007f_ffff;
    let significand: u32 = HIDDEN_BIT | fraction;
    proof {
        assert(bits >> 23 == bits / 0x0080_0000) by (bit_vector);
        assert(bits & 0x007f_ffff == bits % 0x0080_0000) by (bit_vector);
        assert(0x0080_0000u32 | fraction == 0x0080_0000u32 + fraction) by (bit_vector)
            requires
                fraction < 0x0080_0000u32,
        ;
    }
    if exponent < EXPONENT_OF_ONE {
        0
    } else if exponent > EXPONENT_OF_ONE + 7 {
        proof {
            lemma_whole_of_large(intensity);
        }
        255
    } else {
        let shift: u32 = EXPONENT_OF_UNIT_STEP - exponent;
        proof {
            lemma_u32_shr_is_div(significand, shift);
            assert(significand >> shift <= 255) by (bit_vector)
                requires
                    significand < 0x0100_0000u32,
                    16 <= shift <= 23,
            ;
        }
        (significand >> shift) as u8
    }
}

/// A number with an exponent field more than seven above that of one has a
/// whole part of 256 or more.
proof fn lemma_whole_of_large(intensity: Scalar)
    requires
        intensity.exponent() > EXPONENT_OF_ONE + 7,
    ensures
        intensity.whole() >= 256,
{
    let e = intensity.exponent();
    let significand = HIDDEN_BIT + intensity.fraction();
    if e <= EXPONENT_OF_UNIT_STEP {
        let shift = (EXPONENT_OF_UNIT_STEP - e) as u32;
        let x = significand as u32;
        lemma_u32_shr_is_div(x, shift);
        assert(x >> shift >= 256) by (bit_vector)
            requires
                0x0080_0000u32 <= x,
                shift <= 15,
        ;
    } else {
        let p = pow2((e - EXPONENT_OF_UNIT_STEP) as nat);
        lemma_pow2_pos((e - EXPONENT_OF_UNIT_STEP) as nat);
        assert(significand * p >= 0x0080_0000) by (nonlinear_arith)
            requires
                significand >= 0x0080_0000,
                p >= 1,
        ;
    }
}

impl Color {
    /// The color as one number: red in bits 16 to 23, green in bits 8 to 15,
    /// blue in bits 0 to 7.
    pub open spec fn packed(self) -> int {
        self.r * 65536 + self.g * 256 + self.b
    }

    /// The channel-wise saturating sum of two colors.
    pub open spec fn plus(self, other: Color) -> Color {
        Color {
            r: saturating_sum(self.r, other.r),
            g: saturating_sum(self.g, other.g),
            b: saturating_sum(self.b, other.b),
        }
    }

    /// Builds a color from its three channels.
    pub fn new(r: u8, g: u8, b: u8) -> (c: Color)
        ensures
            c == (Color { r, g, b }),
    {
        Color { r, g, b }
    }

    /// The color that three real intensities are stored as.
    pub fn from_intensities(r: Scalar, g: Scalar, b: Scalar) -> (c: Color)
        ensures
            c == (Color { r: channel(r), g: channel(g), b: channel(b) }),
    {
        Color { r: channel(r), g: channel(g), b: channel(b) }
    }

    /// Packs the color into the low 24 bits of a word.
    pub fn to_hex(&self) -> (hex: u32)
        ensures
            hex == self.packed(),
    {
        let r: u32 = self.r as u32;
        let g: u32 = self.g as u32;
        let b: u32 = self.b as u32;
        assert((r << 16) | (g << 8) | b == r * 65536 + g * 256 + b) by (bit_vector)
            requires
                r < 256,
                g < 256,
                b < 256,
        ;
        (r << 16) | (g << 8) | b
    }
}

impl core::ops::Add for Color {
    type Output = Color;

    /// Adds two colors channel by channel; a channel that would pass 255
    /// stays at 255.
    fn add(self, other: Color) -> (sum: Color) {
        Color {
            r: self.r.saturating_add(other.r),
            g: self.g.saturating_add(other.g),
            b: self.b.saturating_add(other.b),
        }
    }
}

impl vstd::std_specs::ops::AddSpecImpl for Color {
    open spec fn obeys_add_spec() -> bool {
        true
    }

    open spec fn add_req(self, other: Color) -> bool {
        true
    }

    open spec fn add_spec(self, other: Color) -> Color {
        self.plus(other)
    }
}

} // verus!
