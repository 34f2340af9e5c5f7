//! The peak of a block: the largest magnitude among its samples, taken before
//! they are attenuated, and handed on only while someone watches the meter.
use vstd::prelude::*;
use crate::sample::{is_nan, is_nan_bits, magnitude, magnitude_of};

verus! {

/// The magnitude that sample `s` brings to the peak: its own, or none for a NaN
/// (a NaN compares greater than nothing).
pub open spec fn contribution(s: u32) -> u32 {
    if is_nan_bits(s) {
        0
    } else {
        magnitude_of(s)
    }
}

/// The largest magnitude among `samples`, NaNs left out; `0.0` for none.
pub open spec fn max_magnitude(samples: Seq<u32>) -> u32
    decreases samples.len(),
{
    if samples.len() == 0 {
        0
    } else {
        let rest = max_magnitude(samples.drop_last());
        let last = contribution(samples.last());
        if last > rest {
            last
        } else {
            rest
        }
    }
}

/// The peak is the true maximum: `max_magnitude` of a block, which
/// `PeakHold::finish_block` hands out for the samples observed, bounds the
/// magnitude of each sample that is not a NaN and is the magnitude of one of
/// them, unless it is the `0.0` of an empty or silent block.
pub proof fn lemma_max_magnitude_is_maximum(samples: Seq<u32>)
    ensures
        forall|i: int|
            0 <= i < samples.len() && !is_nan_bits(#[trigger] samples[i]) ==> magnitude_of(
                samples[i],
            ) <= max_magnitude(samples),
        max_magnitude(samples) == 0 || exists|i: int|
            0 <= i < samples.len() && !is_nan_bits(samples[i]) && magnitude_of(samples[i])
                == max_magnitude(samples),
    decreases samples.len(),
{
    if samples.len() > 0 {
        let rest = samples.drop_last();
        lemma_max_magnitude_is_maximum(rest);
        assert forall|i: int|
            0 <= i < samples.len() && !is_nan_bits(#[trigger] samples[i]) implies magnitude_of(
            samples[i],
        ) <= max_magnitude(samples) by {
            if i < samples.len() - 1 {
                assert(samples[i] == rest[i]);
            }
        }
        if max_magnitude(samples) != 0 {
            if contribution(samples.last()) > max_magnitude(rest) {
                assert(!is_nan_bits(samples[samples.len() - 1]));
            } else {
                let k = choose|k: int|
                    0 <= k < rest.len() && !is_nan_bits(rest[k]) && magnitude_of(rest[k])
                        == max_magnitude(rest);
                assert(samples[k] == rest[k]);
            }
        }
    }
}

/// The running peak of the block being processed.
pub struct PeakHold {
    /// The largest magnitude seen so far, as float bits.
    peak: u32,
    /// The samples seen since the block began.
    seen: Ghost<Seq<u32>>,
}

impl PeakHold {
    /// The samples seen since the block began.
    pub closed spec fn seen(&self) -> Seq<u32> {
        self.seen@
    }

    /// The peak so far.
    pub closed spec fn peak_spec(&self) -> u32 {
        self.peak
    }

    /// The peak is the largest magnitude among the samples seen.
    pub closed spec fn wf(&self) -> bool {
        self.peak == max_magnitude(self.seen@)
    }

    /// A peak hold at the start of a block: nothing seen, peak `0.0`.
    pub fn new() -> (r: PeakHold)
        ensures
            r.wf(),
            r.seen() == Seq::<u32>::empty(),
            r.peak_spec() == 0,
    {
        PeakHold { peak: 0, seen: Ghost(Seq::empty()) }
    }

    /// The peak so far, as float bits.
    pub fn peak(&self) -> (r: u32)
        requires
            self.wf(),
        ensures
            r == self.peak_spec(),
            r == max_magnitude(self.seen()),
    {
        self.peak
    }

    /// Takes sample `s` into the peak, by its magnitude before attenuation.
    pub fn observe(&mut self, s: u32)
        requires
            old(self).wf(),
        ensures
            final(self).wf(),
            final(self).seen() == old(self).seen().push(s),
            final(self).peak_spec() == max_magnitude(old(self).seen().push(s)),
    {
        let ghost before = self.seen@;
        let a = magnitude(s);
        if !is_nan(s) && a > self.peak {
            self.peak = a;
        }
        self.seen = Ghost(before.push(s));
        assert(self.seen@.drop_last() == before);
    }

    /// Ends the block: hands out the peak when the meter is `observed`, nothing
    /// otherwise, and starts the next block from `0.0`.
    pub fn finish_block(&mut self, observed: bool) -> (r: Option<u32>)
        requires
            old(self).wf(),
        ensures
            r == (if observed { Some(max_magnitude(old(self).seen())) } else { None::<u32> }),
            final(self).wf(),
            final(self).seen() == Seq::<u32>::empty(),
            final(self).peak_spec() == 0,
    {
        let p = self.peak;
        self.peak = 0;
        self.seen = Ghost(Seq::empty());
        if observed {
            Some(p)
        } else {
            None
        }
    }
}

} // verus!
