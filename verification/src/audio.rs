use crate::memory::{be16, Memory};
use crate::vm::{AUDIO_BUFFER_SIZE, AUDIO_SAMPLES_PER_SECOND};
use vstd::prelude::*;

verus! {

/// How a buffer of samples is to be played.
#[derive(Clone, Copy, Debug, PartialEq, Eq, Structural)]
pub struct AudioConfig {
    /// Samples per second.
    pub sample_rate: u32,
    pub channels: u16,
}

impl Default for AudioConfig {
    /// One channel at 15360 samples a second.
    fn default() -> (config: AudioConfig)
        ensures
            config.sample_rate == AUDIO_SAMPLES_PER_SECOND,
            config.channels == 1,
    {
        AudioConfig { sample_rate: AUDIO_SAMPLES_PER_SECOND, channels: 1 }
    }
}

/// A byte of sound read as a signed number in two's complement.
pub open spec fn signed_sample(byte: u8) -> int {
    if byte < 0x80 {
        byte as int
    } else {
        byte - 0x100
    }
}

/// Where the sound's page starts: the register's two bytes times 256.
pub open spec fn audio_base(memory: Seq<u8>, register: int) -> int {
    be16(memory, register) * 0x100
}

/// The 256 samples of the sound's page.
pub open spec fn audio_window(memory: Seq<u8>, register: int) -> Seq<u8> {
    memory.subrange(audio_base(memory, register), audio_base(memory, register) + 0x100)
}

/// Some sample is not zero.
pub open spec fn audible(samples: Seq<u8>) -> bool {
    exists|i: int| 0 <= i < samples.len() && #[trigger] samples[i] != 0
}

/// A byte of sound as a signed sample.
pub fn decode_sample(byte: u8) -> (sample: i8)
    ensures
        sample == signed_sample(byte),
{
    let sample = byte as i8;
    assert(sample == (if byte < 0x80u8 {
        byte as int
    } else {
        byte as int - 0x100
    })) by (bit_vector)
        requires
            sample == byte as i8,
    ;
    sample
}

/// `dasp_sample::Sample::to_sample`, from `i8` to `i16`: the sample
/// moves up by eight bits, so that the widest `i8` becomes the widest
/// `i16`. Trusted.
#[verifier::external_body]
fn i8_to_i16(sample: i8) -> (wide: i16)
    ensures
        wide == sample * 0x100,
{
    dasp_sample::Sample::to_sample::<i16>(sample)
}

/// Reads the sound's page out of memory.
pub struct AudioHandler {
    config: AudioConfig,
    memory_register_addr: usize,
}

impl AudioHandler {
    /// How the samples are to be played.
    pub closed spec fn config(&self) -> AudioConfig {
        self.config
    }

    /// Where the page of the sound is chosen.
    pub closed spec fn register(&self) -> int {
        self.memory_register_addr as int
    }

    /// The register and the page that it chooses lie inside `memory`.
    pub open spec fn page_in(&self, memory: Seq<u8>) -> bool {
        &&& 0 <= self.register()
        &&& self.register() + 2 <= memory.len()
        &&& audio_base(memory, self.register()) + 0x100 <= memory.len()
    }

    /// A handler that looks up the sound's page at `memory_register_addr`.
    pub fn new(memory_register_addr: usize) -> (handler: AudioHandler)
        ensures
            handler.register() == memory_register_addr,
            handler.config() == (AudioConfig { sample_rate: AUDIO_SAMPLES_PER_SECOND, channels: 1 }),
    {
        AudioHandler { config: AudioConfig::default(), memory_register_addr }
    }

    /// Where the page of the sound is chosen.
    pub fn memory_register_addr(&self) -> (addr: usize)
        ensures
            addr == self.register(),
    {
        self.memory_register_addr
    }

    /// How the samples are to be played.
    pub fn audio_config(&self) -> (config: AudioConfig)
        ensures
            config == self.config(),
    {
        self.config
    }

    /// The frame's sound, ready to be queued for playing, unless every
    /// sample of it is zero: silence is not queued.
    pub fn append_buffer_to_sink(&self, memory: &Memory) -> (queued: Option<
        SampleBufferSource<AUDIO_BUFFER_SIZE>,
    >)
        requires
            self.page_in(memory@),
        ensures
            queued is Some <==> audible(audio_window(memory@, self.register())),
            queued matches Some(source) ==> {
                &&& source.buffer() == audio_window(memory@, self.register())
                &&& source.index() == 0
                &&& source.config() == self.config()
            },
    {
        let buffer = self.get_sample_buffer(memory);
        let mut i: usize = 0;
        while i < AUDIO_BUFFER_SIZE
            invariant
                i <= AUDIO_BUFFER_SIZE,
                buffer@ == audio_window(memory@, self.register()),
                forall|j: int| 0 <= j < i ==> buffer@[j] == 0,
            decreases AUDIO_BUFFER_SIZE - i,
        {
            if buffer[i] != 0 {
                return Some(SampleBufferSource::new(buffer, self.config));
            }
            i += 1;
        }
        None
    }

    /// The 256 samples of the sound's page.
    pub fn get_sample_buffer(&self, memory: &Memory) -> (buffer: [u8; AUDIO_BUFFER_SIZE])
        requires
            self.page_in(memory@),
        ensures
            buffer@ == audio_window(memory@, self.register()),
    {
        let selector = memory.read_16_bits(self.memory_register_addr);
        assert((selector as usize) << 8 == selector * 0x100) by (bit_vector);
        let audio_addr = (selector as usize) << 8;
        let mut arr = [0u8; AUDIO_BUFFER_SIZE];
        let mut i: usize = 0;
        while i < AUDIO_BUFFER_SIZE
            invariant
                i <= AUDIO_BUFFER_SIZE,
                audio_addr == audio_base(memory@, self.register()),
                audio_addr + AUDIO_BUFFER_SIZE <= memory@.len(),
                forall|j: int| 0 <= j < i ==> arr@[j] == memory@[audio_addr + j],
            decreases AUDIO_BUFFER_SIZE - i,
        {
            arr[i] = memory[audio_addr + i];
            i += 1;
        }
        assert(arr@ =~= audio_window(memory@, self.register()));
        arr
    }
}

/// A buffer of `N` samples that is played once, from its first sample to
/// its last.
pub struct SampleBufferSource<const N: usize> {
    buffer: [u8; N],
    index: usize,
    config: AudioConfig,
}

impl<const N: usize> SampleBufferSource<N> {
    /// The samples, as bytes.
    pub closed spec fn buffer(&self) -> Seq<u8> {
        self.buffer@
    }

    /// How many samples have been handed out.
    pub closed spec fn index(&self) -> nat {
        self.index as nat
    }

    /// How the samples are to be played.
    pub closed spec fn config(&self) -> AudioConfig {
        self.config
    }

    /// A source that has `buffer` still to play.
    pub fn new(buffer: [u8; N], config: AudioConfig) -> (source: SampleBufferSource<N>)
        ensures
            source.buffer() == buffer@,
            source.index() == 0,
            source.config() == config,
    {
        SampleBufferSource { buffer, index: 0, config }
    }

    /// How many samples are left to hand out, if any is.
    pub fn current_frame_len(&self) -> (remaining: Option<usize>)
        ensures
            remaining == (if self.index() < N {
                Some((N - self.index()) as usize)
            } else {
                None
            }),
    {
        if self.index >= self.buffer.len() {
            None
        } else {
            Some(self.buffer.len() - self.index)
        }
    }

    pub fn channels(&self) -> (channels: u16)
        ensures
            channels == self.config().channels,
    {
        self.config.channels
    }

    /// Samples per second.
    pub fn sample_rate(&self) -> (rate: u32)
        ensures
            rate == self.config().sample_rate,
    {
        self.config.sample_rate
    }

    /// How long the whole buffer plays, in nanoseconds, rounded down.
    pub fn total_duration(&self) -> (nanos: Option<u64>)
        requires
            self.config().sample_rate > 0,
            N * 1_000_000_000 <= u64::MAX,
        ensures
            nanos == Some(((N * 1_000_000_000) / (self.config().sample_rate as int)) as u64),
    {
        let samples = self.buffer.len() as u64;
        let duration_nanos = (samples * 1_000_000_000) / (self.config.sample_rate as u64);
        Some(duration_nanos)
    }

    /// Hands out the next sample, widened to 16 bits, until all have
    /// been handed out.
    pub fn next(&mut self) -> (sample: Option<i16>)
        ensures
            final(self).buffer() == old(self).buffer(),
            final(self).config() == old(self).config(),
            old(self).index() < N ==> final(self).index() == old(self).index() + 1 && sample
                == Some((signed_sample(old(self).buffer()[old(self).index() as int]) * 0x100) as i16),
            old(self).index() >= N ==> final(self).index() == old(self).index() && sample is None,
    {
        if self.index >= self.buffer.len() {
            return None;
        }
        let sample_u8 = self.buffer[self.index];
        let sample_i8 = decode_sample(sample_u8);
        self.index += 1;
        Some(i8_to_i16(sample_i8))
    }
}

} // verus!
