//! The per-sample step of the processing loop: decide each sample's
//! attenuation under the frame's threshold and take it into the block's peak.
use vstd::prelude::*;
use crate::peak::{lemma_max_magnitude_is_maximum, max_magnitude, PeakHold};
use crate::rule::{attenuation, attenuation_of, Attenuation};
use crate::sample::{is_nan_bits, is_threshold, magnitude_of};

verus! {

/// The state that the audio thread keeps between samples of a block.
pub struct ColimiterCore {
    peak: PeakHold,
}

impl ColimiterCore {
    /// The samples taken since the block began.
    pub closed spec fn seen(&self) -> Seq<u32> {
        self.peak.seen()
    }

    /// The held peak is that of the samples taken.
    pub closed spec fn wf(&self) -> bool {
        self.peak.wf()
    }

    /// A core at the start of a block.
    pub fn new() -> (r: ColimiterCore)
        ensures
            r.wf(),
            r.seen() == Seq::<u32>::empty(),
    {
        ColimiterCore { peak: PeakHold::new() }
    }

    /// The peak of the samples taken so far in this block, as float bits.
    pub fn peak(&self) -> (r: u32)
        requires
            self.wf(),
        ensures
            r == max_magnitude(self.seen()),
    {
        self.peak.peak()
    }

    /// Processes sample `s` under the frame's threshold `t`: returns what
    /// becomes of it and takes its magnitude, before attenuation, into the peak.
    pub fn process_sample(&mut self, s: u32, t: u32) -> (r: Attenuation)
        requires
            old(self).wf(),
            is_threshold(t),
        ensures
            r == attenuation_of(s, t),
            final(self).wf(),
            final(self).seen() == old(self).seen().push(s),
    {
        self.peak.observe(s);
        attenuation(s, t)
    }

    /// Ends the block: the peak to publish while the meter is `observed`,
    /// nothing otherwise; the next block starts afresh.
    pub fn finish_block(&mut self, observed: bool) -> (r: Option<u32>)
        requires
            old(self).wf(),
        ensures
            r == (if observed { Some(max_magnitude(old(self).seen())) } else { None::<u32> }),
            final(self).wf(),
            final(self).seen() == Seq::<u32>::empty(),
    {
        self.peak.finish_block(observed)
    }
}

/// The largest magnitude over all channels of a block, NaNs left out; `0.0`
/// for none.
pub open spec fn block_peak(channels: Seq<Vec<u32>>) -> u32
    decreases channels.len(),
{
    if channels.len() == 0 {
        0
    } else {
        let rest = block_peak(channels.drop_last());
        let last = max_magnitude(channels.last()@);
        if last > rest {
            last
        } else {
            rest
        }
    }
}

/// The peak of a block is its true maximum: `block_peak` bounds the magnitude
/// of every sample of every channel that is not a NaN, and is the magnitude of
/// one of them unless it is the `0.0` of an empty or silent block.
pub proof fn lemma_block_peak_is_maximum(channels: Seq<Vec<u32>>)
    ensures
        forall|c: int, i: int|
            0 <= c < channels.len() && 0 <= i < channels[c]@.len() && !is_nan_bits(
                #[trigger] channels[c]@[i],
            ) ==> magnitude_of(channels[c]@[i]) <= block_peak(channels),
        block_peak(channels) == 0 || exists|c: int, i: int|
            0 <= c < channels.len() && 0 <= i < channels[c]@.len() && !is_nan_bits(
                channels[c]@[i],
            ) && magnitude_of(channels[c]@[i]) == block_peak(channels),
    decreases channels.len(),
{
    if channels.len() > 0 {
        let rest = channels.drop_last();
        let last = channels.last()@;
        lemma_block_peak_is_maximum(rest);
        lemma_max_magnitude_is_maximum(last);
        assert forall|c: int, i: int|
            0 <= c < channels.len() && 0 <= i < channels[c]@.len() && !is_nan_bits(
                #[trigger] channels[c]@[i],
            ) implies magnitude_of(channels[c]@[i]) <= block_peak(channels) by {
            if c < channels.len() - 1 {
                assert(channels[c] == rest[c]);
            }
        }
        if block_peak(channels) != 0 {
            if max_magnitude(last) > block_peak(rest) {
                let i = choose|i: int|
                    0 <= i < last.len() && !is_nan_bits(last[i]) && magnitude_of(last[i])
                        == max_magnitude(last);
                assert(channels[channels.len() - 1]@[i] == last[i]);
            } else {
                let (c, i) = choose|c: int, i: int|
                    0 <= c < rest.len() && 0 <= i < rest[c]@.len() && !is_nan_bits(rest[c]@[i])
                        && magnitude_of(rest[c]@[i]) == block_peak(rest);
                assert(channels[c] == rest[c]);
            }
        }
    }
}

/// Processes a whole block: `channels[c][i]` is sample `i` of channel `c`, and
/// `thresholds[i]` the threshold of frame `i`. Returns what becomes of each
/// sample, laid out as the input, and the block's peak when the meter is
/// `observed`.
pub fn colimit_block(channels: &Vec<Vec<u32>>, thresholds: &Vec<u32>, observed: bool) -> (r: (
    Vec<Vec<Attenuation>>,
    Option<u32>,
))
    requires
        forall|c: int| 0 <= c < channels@.len() ==> (#[trigger] channels@[c])@.len()
            == thresholds@.len(),
        forall|i: int| 0 <= i < thresholds@.len() ==> is_threshold(#[trigger] thresholds@[i]),
    ensures
        r.0@.len() == channels@.len(),
        forall|c: int| 0 <= c < channels@.len() ==> (#[trigger] r.0@[c])@.len()
            == thresholds@.len(),
        forall|c: int, i: int|
            0 <= c < channels@.len() && 0 <= i < thresholds@.len() ==> (#[trigger] r.0@[c]@[i])
                == attenuation_of(channels@[c]@[i], thresholds@[i]),
        r.1 == (if observed { Some(block_peak(channels@)) } else { None::<u32> }),
{
    let mut out: Vec<Vec<Attenuation>> = Vec::new();
    let mut best: u32 = 0;
    let mut c: usize = 0;
    while c < channels.len()
        invariant
            c <= channels@.len(),
            out@.len() == c,
            forall|k: int| 0 <= k < channels@.len() ==> (#[trigger] channels@[k])@.len()
                == thresholds@.len(),
            forall|i: int| 0 <= i < thresholds@.len() ==> is_threshold(#[trigger] thresholds@[i]),
            forall|k: int| 0 <= k < c ==> (#[trigger] out@[k])@.len() == thresholds@.len(),
            forall|k: int, i: int|
                0 <= k < c && 0 <= i < thresholds@.len() ==> (#[trigger] out@[k]@[i])
                    == attenuation_of(channels@[k]@[i], thresholds@[i]),
            best == block_peak(channels@.subrange(0, c as int)),
        decreases channels@.len() - c,
    {
        let samples = &channels[c];
        let mut hold = PeakHold::new();
        let mut row: Vec<Attenuation> = Vec::new();
        let mut i: usize = 0;
        while i < samples.len()
            invariant
                samples@ == channels@[c as int]@,
                samples@.len() == thresholds@.len(),
                i <= samples@.len(),
                forall|k: int| 0 <= k < thresholds@.len() ==> is_threshold(#[trigger] thresholds@[k]),
                hold.wf(),
                hold.seen() == samples@.subrange(0, i as int),
                row@.len() == i,
                forall|k: int| 0 <= k < i ==> (#[trigger] row@[k]) == attenuation_of(
                    samples@[k],
                    thresholds@[k],
                ),
            decreases samples@.len() - i,
        {
            let s = samples[i];
            hold.observe(s);
            row.push(attenuation(s, thresholds[i]));
            i += 1;
            assert(samples@.subrange(0, i as int) == samples@.subrange(0, i - 1).push(s));
        }
        assert(samples@.subrange(0, i as int) == samples@);
        let p = hold.peak();
        proof {
            let done = channels@.subrange(0, c + 1);
            assert(done.drop_last() == channels@.subrange(0, c as int));
            assert(done.last() == channels@[c as int]);
        }
        if p > best {
            best = p;
        }
        out.push(row);
        c += 1;
    }
    assert(channels@.subrange(0, c as int) == channels@);
    let published = if observed {
        Some(best)
    } else {
        None
    };
    (out, published)
}

} // verus!
