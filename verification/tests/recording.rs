use crispy_core::recording::{parse_wav_info, CHANNELS, SAMPLE_RATE};

#[test]
fn recording_constants() {
    assert_eq!(SAMPLE_RATE, 48000);
    assert_eq!(CHANNELS, 2);
}

fn test_wav_bytes(sample_rate: u32, channels: u16, bits_per_sample: u16, num_samples: u32) -> Vec<u8> {
    let bytes_per_sample = (bits_per_sample / 8) as u32;
    let data_size = num_samples * channels as u32 * bytes_per_sample;
    let file_size = 36 + data_size;

    let mut buf = Vec::new();
    buf.extend_from_slice(b"RIFF");
    buf.extend_from_slice(&file_size.to_le_bytes());
    buf.extend_from_slice(b"WAVE");
    // fmt chunk
    buf.extend_from_slice(b"fmt ");
    buf.extend_from_slice(&16u32.to_le_bytes());
    buf.extend_from_slice(&1u16.to_le_bytes()); // PCM
    buf.extend_from_slice(&channels.to_le_bytes());
    buf.extend_from_slice(&sample_rate.to_le_bytes());
    let byte_rate = sample_rate * channels as u32 * bytes_per_sample;
    buf.extend_from_slice(&byte_rate.to_le_bytes());
    let block_align = channels * (bits_per_sample / 8);
    buf.extend_from_slice(&block_align.to_le_bytes());
    buf.extend_from_slice(&bits_per_sample.to_le_bytes());
    // data chunk, silence
    buf.extend_from_slice(b"data");
    buf.extend_from_slice(&data_size.to_le_bytes());
    buf.extend(vec![0u8; data_size as usize]);
    buf
}

fn duration_seconds(bytes: &[u8]) -> Option<f64> {
    let info = parse_wav_info(bytes)?;
    let frames = info.frame_count()?;
    Some(frames as f64 / info.sample_rate as f64)
}

#[test]
fn wav_duration_48khz_stereo_16bit() {
    // 48000 samples/channel = exactly 1 second at 48kHz
    let bytes = test_wav_bytes(48000, 2, 16, 48000);
    let duration = duration_seconds(&bytes).unwrap();
    assert!((duration - 1.0).abs() < 0.001, "Expected ~1.0s, got {}", duration);
}

#[test]
fn wav_duration_44100hz_mono_16bit() {
    // 44100 samples = exactly 1 second at 44.1kHz
    let bytes = test_wav_bytes(44100, 1, 16, 44100);
    let duration = duration_seconds(&bytes).unwrap();
    assert!((duration - 1.0).abs() < 0.001, "Expected ~1.0s, got {}", duration);
}

#[test]
fn wav_duration_5_seconds() {
    let bytes = test_wav_bytes(48000, 2, 16, 48000 * 5);
    let duration = duration_seconds(&bytes).unwrap();
    assert!((duration - 5.0).abs() < 0.001, "Expected ~5.0s, got {}", duration);
}

#[test]
fn wav_duration_returns_none_for_non_wav_file() {
    assert!(parse_wav_info(b"this is not a wav file").is_none());
}

#[test]
fn wav_duration_with_extra_chunks() {
    // A WAV with a LIST chunk between the fmt and data chunks.
    let sample_rate: u32 = 48000;
    let channels: u16 = 2;
    let bits_per_sample: u16 = 16;
    let num_samples: u32 = 48000; // 1 second
    let bytes_per_sample = (bits_per_sample / 8) as u32;
    let data_size = num_samples * channels as u32 * bytes_per_sample;

    let list_content = b"INFOIART\x05\x00\x00\x00Test\x00";
    let list_chunk_size = list_content.len() as u32;

    let fmt_chunk_size: u32 = 16;
    let file_size = 4 + (8 + fmt_chunk_size) + (8 + list_chunk_size) + 8 + data_size;

    let mut buf = Vec::new();
    buf.extend_from_slice(b"RIFF");
    buf.extend_from_slice(&file_size.to_le_bytes());
    buf.extend_from_slice(b"WAVE");
    // fmt chunk
    buf.extend_from_slice(b"fmt ");
    buf.extend_from_slice(&fmt_chunk_size.to_le_bytes());
    buf.extend_from_slice(&1u16.to_le_bytes());
    buf.extend_from_slice(&channels.to_le_bytes());
    buf.extend_from_slice(&sample_rate.to_le_bytes());
    let byte_rate = sample_rate * channels as u32 * bytes_per_sample;
    buf.extend_from_slice(&byte_rate.to_le_bytes());
    let block_align = channels * (bits_per_sample / 8);
    buf.extend_from_slice(&block_align.to_le_bytes());
    buf.extend_from_slice(&bits_per_sample.to_le_bytes());
    // LIST chunk (extra chunk before data)
    buf.extend_from_slice(b"LIST");
    buf.extend_from_slice(&list_chunk_size.to_le_bytes());
    buf.extend_from_slice(list_content);
    // data chunk
    buf.extend_from_slice(b"data");
    buf.extend_from_slice(&data_size.to_le_bytes());
    buf.extend(vec![0u8; data_size as usize]);

    let duration = duration_seconds(&buf).unwrap();
    assert!((duration - 1.0).abs() < 0.001, "Expected ~1.0s, got {}", duration);
}

#[test]
fn wav_duration_returns_none_for_truncated_header() {
    // Only the RIFF preamble, no fmt or data chunks.
    let mut buf = Vec::new();
    buf.extend_from_slice(b"RIFF");
    buf.extend_from_slice(&100u32.to_le_bytes());
    buf.extend_from_slice(b"WAVE");
    assert!(parse_wav_info(&buf).is_none());
}

#[test]
fn wav_info_reports_the_fmt_fields() {
    let bytes = test_wav_bytes(44100, 2, 24, 1000);
    let info = parse_wav_info(&bytes).unwrap();
    assert_eq!(info.sample_rate, 44100);
    assert_eq!(info.channels, 2);
    assert_eq!(info.bits_per_sample, 24);
    assert_eq!(info.data_size, 1000 * 2 * 3);
    assert_eq!(info.frame_count(), Some(1000));
}

#[test]
fn wav_info_rejects_truncated_fmt_chunk() {
    // A fmt chunk whose declared size runs past the file end fails the
    // scan outright.
    let mut buf = Vec::new();
    buf.extend_from_slice(b"RIFF");
    buf.extend_from_slice(&100u32.to_le_bytes());
    buf.extend_from_slice(b"WAVE");
    buf.extend_from_slice(b"fmt ");
    buf.extend_from_slice(&16u32.to_le_bytes());
    buf.extend_from_slice(&[0u8; 4]); // only 4 of the 16 declared bytes
    assert!(parse_wav_info(&buf).is_none());
}

#[test]
fn wav_frame_count_undefined_for_sub_byte_samples() {
    let bytes = test_wav_bytes(8000, 1, 16, 10);
    let mut info = parse_wav_info(&bytes).unwrap();
    info.bits_per_sample = 4;
    assert_eq!(info.frame_count(), None);
}
