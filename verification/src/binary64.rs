//! Bit-level model of IEEE-754 binary64 values.
//!
//! Every real-valued synthesis parameter (frequency, amplitude, duration,
//! beats, curve coefficients) reaches the library as the raw 64-bit pattern
//! of a binary64 value: one sign bit, an 11-bit biased exponent and a 52-bit
//! fraction. The synthesis rules only ever compare such a value against zero
//! and one, clamp it to the unit range, or truncate it to an integer, and
//! each of those operations is an exact function of the bit pattern. This
//! module states them over the bits, following the IEEE-754 rules: in
//! particular, every ordered comparison with a NaN is false, and negative
//! zero compares equal to zero.

use vstd::prelude::*;

verus! {

/// The magnitude of a pattern: everything but the sign bit.
pub open spec fn magnitude(b: u64) -> u64 {
    b & 0x7FFF_FFFF_FFFF_FFFF
}

/// The pattern encodes a NaN: exponent all ones, fraction non-zero.
pub open spec fn is_nan(b: u64) -> bool {
    magnitude(b) > 0x7FF0_0000_0000_0000
}

/// The sign bit is set.
pub open spec fn is_negative(b: u64) -> bool {
    b >= 0x8000_0000_0000_0000
}

/// The biased exponent field.
pub open spec fn biased_exponent(b: u64) -> u64 {
    (b >> 52) & 0x7FF
}

/// The 53-bit significand of a normal value: the stored fraction with the
/// implicit leading one.
pub open spec fn significand(b: u64) -> u64 {
    (b & 0x000F_FFFF_FFFF_FFFF) | 0x0010_0000_0000_0000
}

/// The represented value is strictly below zero. False for NaN and for
/// negative zero.
pub open spec fn lt_zero(b: u64) -> bool {
    b > 0x8000_0000_0000_0000 && !is_nan(b)
}

/// The represented value is at most zero: either of the two zero patterns,
/// or strictly negative. False for NaN.
pub open spec fn le_zero(b: u64) -> bool {
    b == 0 || b == 0x8000_0000_0000_0000 || lt_zero(b)
}

/// The represented value is strictly above one. Positive finite patterns
/// order as their bits do, one is 0x3FF0_0000_0000_0000, and positive
/// infinity (0x7FF0_0000_0000_0000) lies above one; NaN patterns sit above
/// the infinity pattern and are excluded.
pub open spec fn gt_one(b: u64) -> bool {
    0x3FF0_0000_0000_0000 < b && b <= 0x7FF0_0000_0000_0000
}

/// The represented value lies strictly outside [-1, 1]. False for NaN: a
/// NaN fails both ordered comparisons that would flag it.
pub open spec fn outside_unit(b: u64) -> bool {
    !is_nan(b) && magnitude(b) > 0x3FF0_0000_0000_0000
}

/// Decides `v <= 0` on the represented value.
pub fn le_zero_bits(b: u64) -> (r: bool)
    ensures
        r == le_zero(b),
{
    b == 0 || b == 0x8000_0000_0000_0000
        || (b > 0x8000_0000_0000_0000 && (b & 0x7FFF_FFFF_FFFF_FFFF) <= 0x7FF0_0000_0000_0000)
}

/// Decides `v < 0` on the represented value.
pub fn lt_zero_bits(b: u64) -> (r: bool)
    ensures
        r == lt_zero(b),
{
    b > 0x8000_0000_0000_0000 && (b & 0x7FFF_FFFF_FFFF_FFFF) <= 0x7FF0_0000_0000_0000
}

/// Decides `v > 1` on the represented value.
pub fn gt_one_bits(b: u64) -> (r: bool)
    ensures
        r == gt_one(b),
{
    0x3FF0_0000_0000_0000 < b && b <= 0x7FF0_0000_0000_0000
}

/// Decides `v < -1 || v > 1` on the represented value.
pub fn outside_unit_bits(b: u64) -> (r: bool)
    ensures
        r == outside_unit(b),
{
    let m: u64 = b & 0x7FFF_FFFF_FFFF_FFFF;
    m <= 0x7FF0_0000_0000_0000 && m > 0x3FF0_0000_0000_0000
}

/// The pattern after clamping the represented value to [-1, 1]: values below
/// minus one become minus one (0xBFF0_0000_0000_0000), values above one
/// become one, and every other pattern - NaN included - passes through
/// unchanged.
pub open spec fn clamped_unit(b: u64) -> u64 {
    if is_nan(b) {
        b
    } else if b > 0xBFF0_0000_0000_0000 && b <= 0xFFF0_0000_0000_0000 {
        0xBFF0_0000_0000_0000
    } else if gt_one(b) {
        0x3FF0_0000_0000_0000
    } else {
        b
    }
}

/// Clamps the represented value to [-1, 1].
pub fn clamp_unit(b: u64) -> (r: u64)
    ensures
        r == clamped_unit(b),
{
    proof {
        assert((b & 0x7FFF_FFFF_FFFF_FFFF) <= 0x7FF0_0000_0000_0000
            ==> b <= 0xFFF0_0000_0000_0000) by (bit_vector);
    }
    let m: u64 = b & 0x7FFF_FFFF_FFFF_FFFF;
    if m > 0x7FF0_0000_0000_0000 {
        b
    } else if b > 0xBFF0_0000_0000_0000 {
        0xBFF0_0000_0000_0000
    } else if b > 0x3FF0_0000_0000_0000 && b <= 0x7FF0_0000_0000_0000 {
        0x3FF0_0000_0000_0000
    } else {
        b
    }
}

/// The represented value truncated toward zero and saturated to the 16-bit
/// PCM range [-32767, 32767]; NaN truncates to zero. Values of magnitude
/// below one have biased exponent under 1023 and truncate to zero; a biased
/// exponent of 1038 or more puts the magnitude at or beyond 32768, which
/// saturates; in between, the integer part is the significand shifted right
/// by the distance from the exponent to the fraction's width.
pub open spec fn pcm_trunc(b: u64) -> int {
    if is_nan(b) {
        0
    } else if biased_exponent(b) < 1023 {
        0
    } else if biased_exponent(b) >= 1038 {
        if is_negative(b) { -32767 } else { 32767 }
    } else {
        if is_negative(b) {
            -(trunc_magnitude(b) as int)
        } else {
            trunc_magnitude(b) as int
        }
    }
}

/// The integer part of the magnitude of a pattern whose biased exponent lies
/// in [1023, 1075): the significand shifted right past the fractional bits.
pub open spec fn trunc_magnitude(b: u64) -> u64 {
    significand(b) >> ((1075 - biased_exponent(b)) as u64)
}

/// Truncates the represented value toward zero into the 16-bit PCM range,
/// saturating at -32767 and 32767; NaN goes to zero.
pub fn trunc_to_pcm(b: u64) -> (r: i16)
    ensures
        r as int == pcm_trunc(b),
        -32767 <= r as int <= 32767,
{
    let m: u64 = b & 0x7FFF_FFFF_FFFF_FFFF;
    if m > 0x7FF0_0000_0000_0000 {
        return 0;
    }
    let e: u64 = (b >> 52) & 0x7FF;
    let neg: bool = b >= 0x8000_0000_0000_0000;
    if e < 1023 {
        return 0;
    }
    if e >= 1038 {
        return if neg { -32767 } else { 32767 };
    }
    let s: u64 = (b & 0x000F_FFFF_FFFF_FFFF) | 0x0010_0000_0000_0000;
    let shift: u64 = 1075 - e;
    let mag: u64 = s >> shift;
    proof {
        assert(s < 0x0020_0000_0000_0000) by (bit_vector)
            requires
                s == (b & 0x000F_FFFF_FFFF_FFFF) | 0x0010_0000_0000_0000,
        ;
        assert(s >> shift <= 32767) by (bit_vector)
            requires
                s < 0x0020_0000_0000_0000 && 38 <= shift && shift <= 52,
        ;
    }
    if neg {
        -(mag as i16)
    } else {
        mag as i16
    }
}

/// The represented value truncated toward zero and saturated to the range of
/// an unsigned 32-bit count: NaN and every value below one go to zero, and a
/// biased exponent of 1055 or more puts the magnitude at or beyond 2^32,
/// which saturates at 0xFFFF_FFFF.
pub open spec fn count_trunc(b: u64) -> int {
    if is_nan(b) {
        0
    } else if is_negative(b) {
        0
    } else if biased_exponent(b) < 1023 {
        0
    } else if biased_exponent(b) >= 1055 {
        0xFFFF_FFFF
    } else {
        trunc_magnitude(b) as int
    }
}

/// Truncates the represented value toward zero into an unsigned 32-bit
/// count, saturating below at zero and above at 0xFFFF_FFFF; NaN goes to
/// zero.
pub fn trunc_to_count(b: u64) -> (r: u32)
    ensures
        r as int == count_trunc(b),
{
    let m: u64 = b & 0x7FFF_FFFF_FFFF_FFFF;
    if m > 0x7FF0_0000_0000_0000 {
        return 0;
    }
    if b >= 0x8000_0000_0000_0000 {
        return 0;
    }
    let e: u64 = (b >> 52) & 0x7FF;
    if e < 1023 {
        return 0;
    }
    if e >= 1055 {
        return 0xFFFF_FFFF;
    }
    let s: u64 = (b & 0x000F_FFFF_FFFF_FFFF) | 0x0010_0000_0000_0000;
    let shift: u64 = 1075 - e;
    let mag: u64 = s >> shift;
    proof {
        assert(s < 0x0020_0000_0000_0000) by (bit_vector)
            requires
                s == (b & 0x000F_FFFF_FFFF_FFFF) | 0x0010_0000_0000_0000,
        ;
        assert(s >> shift <= 0xFFFF_FFFF) by (bit_vector)
            requires
                s < 0x0020_0000_0000_0000 && 21 <= shift && shift <= 52,
        ;
    }
    mag as u32
}

} // verus!
