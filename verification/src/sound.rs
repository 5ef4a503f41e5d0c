use crate::audio::{decode_sample, signed_sample};
use vstd::prelude::*;

verus! {

/// `dasp_sample::Sample::to_sample`, from `i8` to `u16`: the sample is
/// shifted to start at zero, then moves up by eight bits. Trusted.
#[verifier::external_body]
fn i8_to_u16(sample: i8) -> (wide: u16)
    ensures
        wide == (sample + 0x80) * 0x100,
{
    dasp_sample::Sample::to_sample::<u16>(sample)
}

/// One frame's 256 samples, played once on one channel at 15360 samples
/// a second and handed out as unsigned 16-bit samples.
pub struct SampleBufferSource {
    inner_sample_buffer: [u8; 256],
    index: usize,
}

impl SampleBufferSource {
    /// The samples, as bytes.
    pub closed spec fn buffer(&self) -> Seq<u8> {
        self.inner_sample_buffer@
    }

    /// How many samples have been handed out.
    pub closed spec fn index(&self) -> nat {
        self.index as nat
    }

    /// How many samples have been handed out.
    pub fn position(&self) -> (position: usize)
        ensures
            position == self.index(),
    {
        self.index
    }

    /// How many samples come after the next one.
    pub fn current_frame_len(&self) -> (remaining: Option<usize>)
        requires
            self.index() < 256,
        ensures
            remaining == Some((256 - self.index() - 1) as usize),
    {
        Some(self.inner_sample_buffer.len() - self.index - 1)
    }

    pub fn channels(&self) -> (channels: u16)
        ensures
            channels == 1,
    {
        1
    }

    /// Samples per second.
    pub fn sample_rate(&self) -> (rate: u32)
        ensures
            rate == 15360,
    {
        256 * 60
    }

    /// How long the buffer plays, in nanoseconds: a sixtieth of a
    /// second, rounded down.
    pub fn total_duration(&self) -> (nanos: Option<u64>)
        ensures
            nanos == Some(16_666_666u64),
    {
        Some(16666666)
    }

    /// Hands out the next sample, widened to 16 bits without a sign,
    /// until all have been handed out.
    pub fn next(&mut self) -> (sample: Option<u16>)
        ensures
            final(self).buffer() == old(self).buffer(),
            old(self).index() < 256 ==> final(self).index() == old(self).index() + 1 && sample
                == Some(
                ((signed_sample(old(self).buffer()[old(self).index() as int]) + 0x80) * 0x100) as u16,
            ),
            old(self).index() >= 256 ==> final(self).index() == old(self).index() && sample is None,
    {
        if self.index >= 256 {
            return None;
        }
        let sample = decode_sample(self.inner_sample_buffer[self.index]);
        self.index += 1;
        Some(i8_to_u16(sample))
    }
}

impl From<[u8; 256]> for SampleBufferSource {
    /// A source that has `sample_buffer` still to play.
    fn from(sample_buffer: [u8; 256]) -> (source: SampleBufferSource)
        ensures
            source.buffer() == sample_buffer@,
            source.index() == 0,
    {
        SampleBufferSource { index: 0, inner_sample_buffer: sample_buffer }
    }
}

impl vstd::std_specs::convert::FromSpecImpl<[u8; 256]> for SampleBufferSource {
    open spec fn obeys_from_spec() -> bool {
        true
    }

    closed spec fn from_spec(sample_buffer: [u8; 256]) -> SampleBufferSource {
        SampleBufferSource { index: 0, inner_sample_buffer: sample_buffer }
    }
}

} // verus!
