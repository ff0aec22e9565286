//! Samples as plain values.
//!
//! A processed sample is carried as the 32 bits of its single-precision
//! encoding. A recorded sample is a signed 16-bit integer, stored least
//! significant byte first.

use vstd::prelude::*;

verus! {

/// The encoding of the sample 0.0.
pub const SILENCE: u32 = 0;

/// The encoding of the sample -0.0, which is silent too.
pub const NEGATIVE_ZERO: u32 = 0x8000_0000;

/// The sample rate of a recording.
pub const RECORDED_SAMPLE_RATE: u32 = 16000;

/// Whether the encoded sample differs from zero: every encoding does, but
/// those of 0.0 and -0.0.
pub open spec fn spec_is_audible(sample: u32) -> bool {
    sample != SILENCE && sample != NEGATIVE_ZERO
}

#[verifier::when_used_as_spec(spec_is_audible)]
pub fn is_audible(sample: u32) -> (audible: bool)
    ensures
        audible == spec_is_audible(sample),
{
    sample != SILENCE && sample != NEGATIVE_ZERO
}

/// The number of samples of `samples` that differ from zero.
pub open spec fn audible_count(samples: Seq<u32>) -> nat
    decreases samples.len(),
{
    if samples.len() == 0 {
        0
    } else {
        audible_count(samples.drop_last()) + if spec_is_audible(samples.last()) {
            1nat
        } else {
            0nat
        }
    }
}

/// Counting never finds more samples than there are.
pub proof fn lemma_audible_count_bounded(samples: Seq<u32>)
    ensures
        audible_count(samples) <= samples.len(),
    decreases samples.len(),
{
    if samples.len() > 0 {
        lemma_audible_count_bounded(samples.drop_last());
    }
}

/// Counts the samples that differ from zero.
pub fn count_audible(samples: &[u32]) -> (count: usize)
    ensures
        count as nat == audible_count(samples@),
{
    let mut count: usize = 0;
    let mut i: usize = 0;
    while i < samples.len()
        invariant
            i <= samples@.len(),
            count as nat == audible_count(samples@.take(i as int)),
            count <= i,
        decreases samples@.len() - i,
    {
        assert(samples@.take(i as int + 1).drop_last() =~= samples@.take(i as int));
        if is_audible(samples[i]) {
            count = count + 1;
        }
        i = i + 1;
    }
    assert(samples@.take(i as int) =~= samples@);
    count
}

/// The signed 16-bit integer whose least significant byte is `low` and whose
/// most significant byte is `high`.
pub open spec fn spec_pcm_s16le(low: u8, high: u8) -> int {
    if high >= 128 {
        low + 256 * high - 65536
    } else {
        low + 256 * high
    }
}

/// Decodes one recorded sample from its two bytes.
pub fn pcm_s16le(low: u8, high: u8) -> (sample: i16)
    ensures
        sample as int == spec_pcm_s16le(low, high),
{
    let unsigned: i32 = low as i32 + 256 * (high as i32);
    if high >= 128 {
        (unsigned - 65536) as i16
    } else {
        unsigned as i16
    }
}

/// A recording that is read sample by sample: raw signed 16-bit samples,
/// least significant byte first, without a header.
pub struct RecordedStream {
    pub data: Vec<u8>,
    pub position: usize,
}

impl RecordedStream {
    /// Whether two bytes are left at the position.
    pub open spec fn has_next(&self) -> bool {
        self.position + 2 <= self.data@.len()
    }

    /// The sample at the position.
    pub open spec fn current(&self) -> int
        recommends
            self.has_next(),
    {
        spec_pcm_s16le(self.data@[self.position as int], self.data@[self.position + 1])
    }

    /// A stream over `data`, at its start.
    pub fn new(data: Vec<u8>) -> (stream: RecordedStream)
        ensures
            stream.data@ == data@,
            stream.position == 0,
    {
        RecordedStream { data, position: 0 }
    }

    /// The next sample, or `None` at the end of the recording. A single
    /// trailing byte is not a sample.
    pub fn next_sample(&mut self) -> (sample: Option<i16>)
        ensures
            final(self).data@ == old(self).data@,
            sample is Some <==> old(self).has_next(),
            sample matches Some(value) ==> value as int == old(self).current(),
            final(self).position == if old(self).has_next() {
                old(self).position + 2
            } else {
                old(self).position as int
            },
    {
        let len = self.data.len();
        if self.position <= len && len - self.position >= 2 {
            let sample = pcm_s16le(self.data[self.position], self.data[self.position + 1]);
            self.position = self.position + 2;
            Some(sample)
        } else {
            None
        }
    }

    /// The sample rate of a recording.
    pub fn sample_rate(&self) -> (rate: u32)
        ensures
            rate == RECORDED_SAMPLE_RATE,
    {
        RECORDED_SAMPLE_RATE
    }
}

} // verus!
