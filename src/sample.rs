//! What the colimiter reads of an `f32` sample, stated over its IEEE-754 bit
//! pattern (`f32::to_bits`): the sign, the magnitude and whether it is a NaN.
use vstd::prelude::*;

verus! {

/// The sign bit of a single-precision float.
pub const SIGN_BIT: u32 = 0x8000_0000;

/// The bits of every magnitude: all but the sign.
pub const MAGNITUDE_MASK: u32 = 0x7fff_ffff;

/// The bits of positive infinity; a larger magnitude is a NaN.
pub const INFINITY_BITS: u32 = 0x7f80_0000;

/// The bits of `+0.0`: a silenced sample.
pub const ZERO_BITS: u32 = 0;

/// The bits of `|s|`: `s` with its sign bit cleared.
pub open spec fn magnitude_of(s: u32) -> u32 {
    s & MAGNITUDE_MASK
}

/// `s` is a NaN: its exponent is all ones and its mantissa is not zero.
pub open spec fn is_nan_bits(s: u32) -> bool {
    magnitude_of(s) > INFINITY_BITS
}

/// `s` has its sign bit set.
pub open spec fn is_negative_bits(s: u32) -> bool {
    s >= SIGN_BIT
}

/// `t` is a float `>= 0`: not a NaN, and either `-0.0` or without a sign.
pub open spec fn is_threshold(t: u32) -> bool {
    !is_nan_bits(t) && (!is_negative_bits(t) || magnitude_of(t) == 0)
}

/// The bits of `|s|`.
pub fn magnitude(s: u32) -> (r: u32)
    ensures
        r == magnitude_of(s),
        r < SIGN_BIT,
{
    let r = s & MAGNITUDE_MASK;
    assert(s & 0x7fff_ffffu32 < 0x8000_0000u32) by (bit_vector);
    r
}

/// Whether `s` is a NaN.
pub fn is_nan(s: u32) -> (r: bool)
    ensures
        r == is_nan_bits(s),
{
    magnitude(s) > INFINITY_BITS
}

/// Whether `s` has its sign bit set.
pub fn is_negative(s: u32) -> (r: bool)
    ensures
        r == is_negative_bits(s),
{
    s >= SIGN_BIT
}

/// Whether `t` can serve as a threshold: a float `>= 0`.
pub fn is_valid_threshold(t: u32) -> (r: bool)
    ensures
        r == is_threshold(t),
{
    !is_nan(t) && (!is_negative(t) || magnitude(t) == 0)
}

} // verus!
