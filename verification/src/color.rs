//! Colours and their place in the image.
use crate::interval::Interval;
use crate::scalar::{Scalar, HIDDEN_BIT};
use crate::vec3::Vec3;
use vstd::arithmetic::div_mod::{
    lemma_basic_div, lemma_div_multiples_vanish_quotient, lemma_multiply_divide_lt,
};
use vstd::arithmetic::power2::{
    lemma2_to64, lemma2_to64_rest, lemma_pow2_adds, lemma_pow2_pos, lemma_pow2_strictly_increases,
    pow2,
};
use vstd::bits::lemma_u64_shr_is_div;
use vstd::prelude::*;

verus! {

/// Red, green and blue, each from 0 to 1.
pub type Color = Vec3;

/// The pattern of 0.999, the brightest that a channel is written as.
pub const BRIGHTEST_BITS: u64 = 0x3FEF_F7CE_D916_872B;

/// The character `0`.
pub const DIGIT_ZERO: u8 = 48;

/// The minus sign.
pub const MINUS: u8 = 45;

/// The space between two numbers of a line.
pub const SPACE: u8 = 32;

/// The end of a line.
pub const NEWLINE: u8 = 10;

/// The range that a channel is held to before it is written: from 0 to
/// 0.999.
pub open spec fn intensity() -> Interval {
    Interval { min: Scalar { bits: 0 }, max: Scalar { bits: BRIGHTEST_BITS } }
}

/// The level from 0 to 255 that a channel is written as: the channel is
/// clamped to the range from 0 to 0.999 and multiplied by 256, and the
/// whole part of that is the level. A channel that is not a number has
/// level 0.
///
/// The clamped channel is `significand / 2^(1075 - scale)`, so the whole
/// part of 256 times that is a quotient of whole numbers.
pub open spec fn level(channel: Scalar) -> int {
    let held = intensity().spec_clamp(channel);
    if held.nan() {
        0
    } else {
        (256 * held.significand()) / (pow2((1075 - held.scale()) as nat) as int)
    }
}

/// The decimal digits of a natural number, the highest first, as
/// characters.
pub open spec fn digits(n: nat) -> Seq<u8>
    decreases n,
{
    if n < 10 {
        seq![(DIGIT_ZERO + n) as u8]
    } else {
        digits(n / 10).push((DIGIT_ZERO + n % 10) as u8)
    }
}

/// A whole number in decimal, with a minus sign before a negative one.
pub open spec fn decimal(n: int) -> Seq<u8> {
    if n < 0 {
        seq![MINUS] + digits((-n) as nat)
    } else {
        digits(n as nat)
    }
}

/// The line of an image that holds one pixel: the levels of red, green and
/// blue in decimal, a space between them and a newline behind them.
pub open spec fn pixel_line(color: Color) -> Seq<u8> {
    decimal(level(color.x)) + seq![SPACE] + decimal(level(color.y)) + seq![SPACE] + decimal(
        level(color.z),
    ) + seq![NEWLINE]
}

/// Appends the digits of `n`.
fn push_digits(out: &mut Vec<u8>, n: u64)
    ensures
        final(out)@ == old(out)@ + digits(n as nat),
    decreases n,
{
    if n >= 10 {
        push_digits(out, n / 10);
    }
    let digit: u8 = (n % 10) as u8;
    out.push(DIGIT_ZERO + digit);
    proof {
        assert(final(out)@ =~= old(out)@ + digits(n as nat));
    }
}

/// Appends `n` in decimal.
pub fn push_decimal(out: &mut Vec<u8>, n: i32)
    ensures
        final(out)@ == old(out)@ + decimal(n as int),
{
    if n < 0 {
        out.push(MINUS);
        let magnitude: i64 = -(n as i64);
        push_digits(out, magnitude as u64);
        proof {
            assert(final(out)@ =~= old(out)@ + decimal(n as int));
        }
    } else {
        push_digits(out, n as u64);
    }
}

/// The level that a channel is written as.
pub fn channel_level(channel: Scalar) -> (r: u8)
    ensures
        r == level(channel),
{
    let range = Interval::new(Scalar::zero(), Scalar::from_bits(BRIGHTEST_BITS));
    let held = range.clamp(channel);
    if held.is_nan() {
        return 0;
    }
    let magnitude: u64 = held.abs().to_bits();
    let exponent: u64 = magnitude / HIDDEN_BIT;
    let fraction: u64 = magnitude % HIDDEN_BIT;
    assert(exponent == held.exponent() && exponent <= 1022);
    let (scale, significand): (u64, u64) = if exponent == 0 {
        (1, fraction)
    } else {
        (exponent, HIDDEN_BIT + fraction)
    };
    assert(scale == held.scale() && significand == held.significand());
    let shift: u64 = 1067 - scale;
    proof {
        let low = pow2(shift as nat) as int;
        lemma2_to64();
        lemma2_to64_rest();
        lemma_pow2_pos(shift as nat);
        lemma_pow2_adds(8, shift as nat);
        lemma_div_multiples_vanish_quotient(256, significand as int, low);
        assert(pow2((1075 - scale) as nat) == 256 * low);
        assert(level(channel) == significand as int / low);
        if shift > 45 {
            lemma_pow2_strictly_increases(45, shift as nat);
        }
        assert(low >= 0x2000_0000_0000);
        if shift >= 53 {
            if shift > 53 {
                lemma_pow2_strictly_increases(53, shift as nat);
            }
            lemma_basic_div(significand as int, low);
        } else {
            lemma_u64_shr_is_div(significand, shift);
            assert(significand < low * 256) by (nonlinear_arith)
                requires
                    significand < 0x20_0000_0000_0000,
                    low >= 0x2000_0000_0000,
            ;
            lemma_multiply_divide_lt(significand as int, low, 256);
        }
    }
    if shift >= 53 {
        0
    } else {
        (significand >> shift) as u8
    }
}

/// Appends the line of one pixel to the text of an image.
pub fn write_color(out: &mut Vec<u8>, color: Color)
    ensures
        final(out)@ == old(out)@ + pixel_line(color),
{
    push_decimal(out, channel_level(color.x) as i32);
    out.push(SPACE);
    push_decimal(out, channel_level(color.y) as i32);
    out.push(SPACE);
    push_decimal(out, channel_level(color.z) as i32);
    out.push(NEWLINE);
    proof {
        assert(final(out)@ =~= old(out)@ + pixel_line(color));
    }
}

} // verus!
