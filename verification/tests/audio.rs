use bytepusher::audio::{decode_sample, AudioConfig, AudioHandler, SampleBufferSource};
use bytepusher::memory::Memory;
use bytepusher::sound;

#[test]
fn default_config() {
    let config = AudioConfig::default();
    assert_eq!(config.sample_rate, 15360);
    assert_eq!(config.channels, 1);
}

#[test]
fn bytes_are_signed_samples() {
    assert_eq!(decode_sample(0x00), 0);
    assert_eq!(decode_sample(0x01), 1);
    assert_eq!(decode_sample(0x7F), 127);
    assert_eq!(decode_sample(0x80), -128);
    assert_eq!(decode_sample(0xFF), -1);
}

#[test]
fn sample_buffer_is_the_chosen_page() {
    let mut memory = Memory::new(0x400);
    memory.write_16_bits(6, 0x0002);
    for i in 0..256usize {
        memory.write8(0x200 + i, i as u8);
    }
    memory.write8(0x1FF, 0xEE);
    memory.write8(0x300, 0xEE);
    let handler = AudioHandler::new(6);
    let buffer = handler.get_sample_buffer(&memory);
    for i in 0..256usize {
        assert_eq!(buffer[i], i as u8);
    }
}

#[test]
fn alternating_samples_decode_to_0_and_minus_128() {
    // The selector stands behind page 0, so that the page can hold any samples.
    let mut memory = Memory::new(0x102);
    memory.write_16_bits(0x100, 0);
    for i in 0..256usize {
        memory.write8(i, if i % 2 == 0 { 0x00 } else { 0x80 });
    }
    let handler = AudioHandler::new(0x100);
    let buffer = handler.get_sample_buffer(&memory);
    for i in 0..256usize {
        assert_eq!(decode_sample(buffer[i]), if i % 2 == 0 { 0 } else { -128 });
    }
    let mut source = handler.append_buffer_to_sink(&memory).unwrap();
    for i in 0..256usize {
        assert_eq!(source.next(), Some(if i % 2 == 0 { 0 } else { -32768 }));
    }
    assert_eq!(source.next(), None);
}

#[test]
fn alternating_samples_in_page_one() {
    let mut memory = Memory::new(0x200);
    memory.write_16_bits(6, 1);
    for i in 0..256usize {
        memory.write8(0x100 + i, if i % 2 == 0 { 0x00 } else { 0x80 });
    }
    let handler = AudioHandler::new(6);
    let mut source = handler.append_buffer_to_sink(&memory).unwrap();
    for i in 0..256usize {
        assert_eq!(source.next(), Some(if i % 2 == 0 { 0 } else { -32768 }));
    }
    assert_eq!(source.next(), None);
}

#[test]
fn silent_page_zero_is_not_queued() {
    let memory = Memory::new(0x100);
    let handler = AudioHandler::new(6);
    assert_eq!(handler.get_sample_buffer(&memory), [0u8; 256]);
    assert!(handler.append_buffer_to_sink(&memory).is_none());
}

#[test]
fn silence_is_not_queued() {
    let mut memory = Memory::new(0x1000);
    memory.write_16_bits(6, 0x0008);
    memory.write8(0x7FF, 1);
    memory.write8(0x900, 1);
    let handler = AudioHandler::new(6);
    assert_eq!(handler.get_sample_buffer(&memory), [0u8; 256]);
    assert!(handler.append_buffer_to_sink(&memory).is_none());
}

#[test]
fn one_sample_makes_a_buffer_audible() {
    let mut memory = Memory::new(0x1000);
    memory.write_16_bits(6, 0x0008);
    memory.write8(0x8FF, 0x40);
    let handler = AudioHandler::new(6);
    let mut source = handler.append_buffer_to_sink(&memory).unwrap();
    assert_eq!(source.channels(), 1);
    assert_eq!(source.sample_rate(), 15360);
    assert_eq!(source.current_frame_len(), Some(256));
    for _ in 0..255 {
        assert_eq!(source.next(), Some(0));
    }
    assert_eq!(source.current_frame_len(), Some(1));
    assert_eq!(source.next(), Some(0x4000));
    assert_eq!(source.current_frame_len(), None);
    assert_eq!(source.next(), None);
    assert_eq!(source.next(), None);
}

#[test]
fn samples_are_widened_to_16_bits() {
    let config = AudioConfig { sample_rate: 8000, channels: 2 };
    let mut source = SampleBufferSource::new([0x00, 0x01, 0x7F, 0x80, 0xFF], config);
    assert_eq!(source.channels(), 2);
    assert_eq!(source.sample_rate(), 8000);
    assert_eq!(source.current_frame_len(), Some(5));
    assert_eq!(source.next(), Some(0));
    assert_eq!(source.next(), Some(256));
    assert_eq!(source.next(), Some(32512));
    assert_eq!(source.current_frame_len(), Some(2));
    assert_eq!(source.next(), Some(-32768));
    assert_eq!(source.next(), Some(-256));
    assert_eq!(source.next(), None);
    assert_eq!(source.current_frame_len(), None);
}

#[test]
fn samples_are_widened_as_the_sample_crate_does() {
    let mut bytes = [0u8; 256];
    for i in 0..256usize {
        bytes[i] = i as u8;
    }
    let mut source = SampleBufferSource::new(bytes, AudioConfig::default());
    let mut unsigned = sound::SampleBufferSource::from(bytes);
    for i in 0..256usize {
        let sample = bytes[i] as i8;
        assert_eq!(source.next(), Some(dasp_sample::conv::i8::to_i16(sample)));
        assert_eq!(unsigned.next(), Some(dasp_sample::conv::i8::to_u16(sample)));
    }
}

#[test]
fn total_duration_of_a_frame() {
    let source = SampleBufferSource::new([0u8; 256], AudioConfig::default());
    assert_eq!(source.total_duration(), Some(16_666_666));
    let source = SampleBufferSource::new([0u8; 3], AudioConfig { sample_rate: 2, channels: 1 });
    assert_eq!(source.total_duration(), Some(1_500_000_000));
    let source = SampleBufferSource::new([0u8; 0], AudioConfig { sample_rate: 7, channels: 1 });
    assert_eq!(source.total_duration(), Some(0));
    assert_eq!(source.current_frame_len(), None);
}

#[test]
fn unsigned_source_plays_256_samples() {
    let mut bytes = [0u8; 256];
    bytes[0] = 0x00;
    bytes[1] = 0x80;
    bytes[2] = 0x7F;
    bytes[3] = 0xFF;
    bytes[4] = 0x01;
    let mut source = sound::SampleBufferSource::from(bytes);
    assert_eq!(source.channels(), 1);
    assert_eq!(source.sample_rate(), 15360);
    assert_eq!(source.total_duration(), Some(16_666_666));
    assert_eq!(source.current_frame_len(), Some(255));
    assert_eq!(source.position(), 0);
    assert_eq!(source.next(), Some(0x8000));
    assert_eq!(source.next(), Some(0x0000));
    assert_eq!(source.next(), Some(0xFF00));
    assert_eq!(source.next(), Some(0x7F00));
    assert_eq!(source.next(), Some(0x8100));
    assert_eq!(source.current_frame_len(), Some(250));
    for _ in 5..256 {
        assert_eq!(source.next(), Some(0x8000));
    }
    assert_eq!(source.next(), None);
    assert_eq!(source.next(), None);
}
