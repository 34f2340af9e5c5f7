//! The colimiter's rule for one sample: a sample whose magnitude exceeds the
//! threshold moves toward zero by the threshold; any other sample is silenced.
use vstd::prelude::*;
use crate::sample::{
    is_nan, is_nan_bits, is_negative, is_negative_bits, is_threshold, magnitude, magnitude_of,
    ZERO_BITS,
};

verus! {

/// What becomes of one sample under a given threshold `t`.
#[derive(Clone, Copy, Debug, PartialEq, Eq, Structural)]
pub enum Attenuation {
    /// The output is `0.0`.
    Silence,
    /// The sample is positive and above the threshold: the output is `s - t`.
    Lower,
    /// The sample is negative and below `-t`: the output is `s + t`.
    Raise,
}

/// The float comparison `|s| > t`, for a threshold `t >= 0`: false when `s` is
/// a NaN, else the order of the magnitudes' bit patterns.
pub open spec fn exceeds(s: u32, t: u32) -> bool {
    !is_nan_bits(s) && magnitude_of(s) > magnitude_of(t)
}

/// The rule: silence unless `|s| > t`; otherwise move toward zero by `t`,
/// keeping the sign of `s`.
pub open spec fn attenuation_of(s: u32, t: u32) -> Attenuation {
    if !exceeds(s, t) {
        Attenuation::Silence
    } else if is_negative_bits(s) {
        Attenuation::Raise
    } else {
        Attenuation::Lower
    }
}

/// Decides what becomes of sample `s` under threshold `t`.
pub fn attenuation(s: u32, t: u32) -> (r: Attenuation)
    requires
        is_threshold(t),
    ensures
        r == attenuation_of(s, t),
        r == Attenuation::Silence <==> (is_nan_bits(s) || magnitude_of(s) <= magnitude_of(t)),
        r == Attenuation::Lower <==> (exceeds(s, t) && !is_negative_bits(s)),
        r == Attenuation::Raise <==> (exceeds(s, t) && is_negative_bits(s)),
{
    if is_nan(s) || magnitude(s) <= magnitude(t) {
        Attenuation::Silence
    } else if is_negative(s) {
        Attenuation::Raise
    } else {
        Attenuation::Lower
    }
}

/// A silenced sample stays silenced: the output `0.0` of a sample that the
/// rule silenced is silenced again when it is fed back under the same
/// threshold.
pub proof fn lemma_silence_is_stable(s: u32, t: u32)
    requires
        is_threshold(t),
        attenuation_of(s, t) == Attenuation::Silence,
    ensures
        attenuation_of(ZERO_BITS, t) == Attenuation::Silence,
{
    assert(0u32 & 0x7fff_ffffu32 == 0u32) by (bit_vector);
}

} // verus!
