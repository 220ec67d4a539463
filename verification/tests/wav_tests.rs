//! Tests of the WAV header parser and the DMA buffer fillers.

use edgecore::audio::{fill_chunk, fill_square_wave};
use edgecore::wav::{parse_wav_header, WavError, WavInfo};

fn riff_wave_prefix() -> Vec<u8> {
    let mut buf = Vec::new();
    buf.extend_from_slice(b"RIFF");
    buf.extend_from_slice(&[0, 0, 0, 0]);
    buf.extend_from_slice(b"WAVE");
    buf
}

fn fmt_chunk(channels: u16, sample_rate: u32, bits: u16) -> Vec<u8> {
    let mut chunk = Vec::new();
    chunk.extend_from_slice(b"fmt ");
    chunk.extend_from_slice(&16u32.to_le_bytes());
    chunk.extend_from_slice(&1u16.to_le_bytes());
    chunk.extend_from_slice(&channels.to_le_bytes());
    chunk.extend_from_slice(&sample_rate.to_le_bytes());
    chunk.extend_from_slice(&(sample_rate * 4).to_le_bytes());
    chunk.extend_from_slice(&4u16.to_le_bytes());
    chunk.extend_from_slice(&bits.to_le_bytes());
    chunk
}

#[test]
fn parses_a_minimal_header() {
    let mut buf = riff_wave_prefix();
    buf.extend_from_slice(&fmt_chunk(2, 44100, 16));
    buf.extend_from_slice(b"data");
    buf.extend_from_slice(&1000u32.to_le_bytes());
    let info = parse_wav_header(&buf).unwrap();
    assert_eq!(
        info,
        WavInfo {
            sample_rate: 44100,
            bits_per_sample: 16,
            channels: 2,
            data_offset: 44,
            data_len: 1000,
        }
    );
}

#[test]
fn skips_unknown_chunks_with_odd_padding() {
    let mut buf = riff_wave_prefix();
    // An unknown chunk with an odd size: one pad byte follows its body.
    buf.extend_from_slice(b"LIST");
    buf.extend_from_slice(&3u32.to_le_bytes());
    buf.extend_from_slice(&[9, 9, 9, 0]);
    buf.extend_from_slice(&fmt_chunk(1, 11025, 8));
    buf.extend_from_slice(b"data");
    buf.extend_from_slice(&7u32.to_le_bytes());
    buf.extend_from_slice(&[0; 7]);
    let info = parse_wav_header(&buf).unwrap();
    assert_eq!(info.sample_rate, 11025);
    assert_eq!(info.bits_per_sample, 8);
    assert_eq!(info.channels, 1);
    assert_eq!(info.data_offset, 12 + 8 + 4 + 8 + 16 + 8);
    assert_eq!(info.data_len, 7);
}

#[test]
fn data_before_fmt_reports_zero_format() {
    let mut buf = riff_wave_prefix();
    buf.extend_from_slice(b"data");
    buf.extend_from_slice(&4u32.to_le_bytes());
    buf.extend_from_slice(&[1, 2, 3, 4]);
    buf.extend_from_slice(&fmt_chunk(2, 48000, 24));
    let info = parse_wav_header(&buf).unwrap();
    assert_eq!(info.sample_rate, 0);
    assert_eq!(info.bits_per_sample, 0);
    assert_eq!(info.channels, 0);
    assert_eq!(info.data_offset, 20);
    assert_eq!(info.data_len, 4);
}

#[test]
fn rejects_a_short_buffer() {
    assert_eq!(parse_wav_header(&[0u8; 43]), Err(WavError::TooSmall));
}

#[test]
fn rejects_a_wrong_riff_tag() {
    let mut buf = riff_wave_prefix();
    buf[3] = b'X';
    buf.resize(44, 0);
    assert_eq!(parse_wav_header(&buf), Err(WavError::NotRiff));
}

#[test]
fn rejects_a_wrong_wave_tag() {
    let mut buf = riff_wave_prefix();
    buf[11] = b'X';
    buf.resize(44, 0);
    assert_eq!(parse_wav_header(&buf), Err(WavError::NotWave));
}

#[test]
fn rejects_a_fmt_chunk_past_the_end() {
    let mut buf = riff_wave_prefix();
    buf.extend_from_slice(b"fmt ");
    buf.extend_from_slice(&100u32.to_le_bytes());
    buf.extend_from_slice(&[0; 24]);
    assert_eq!(parse_wav_header(&buf), Err(WavError::FmtTruncated));
}

#[test]
fn rejects_fmt_fields_past_the_end() {
    // The chunk itself fits its declared eight bytes, but the sixteen
    // bytes the format fields are read from run past the end.
    let mut buf = riff_wave_prefix();
    buf.extend_from_slice(b"LIST");
    buf.extend_from_slice(&4u32.to_le_bytes());
    buf.extend_from_slice(&[0; 4]);
    buf.extend_from_slice(b"fmt ");
    buf.extend_from_slice(&8u32.to_le_bytes());
    buf.extend_from_slice(&[0; 12]);
    // Here body = 32 in a 44-byte buffer: the eight declared bytes fit,
    // the sixteen fixed field bytes do not.
    assert_eq!(buf.len(), 44);
    assert_eq!(parse_wav_header(&buf), Err(WavError::FmtTruncated));
}

#[test]
fn reports_a_missing_data_chunk() {
    let mut buf = riff_wave_prefix();
    buf.extend_from_slice(&fmt_chunk(2, 22050, 16));
    buf.extend_from_slice(b"LIST");
    buf.extend_from_slice(&4u32.to_le_bytes());
    buf.extend_from_slice(&[0; 4]);
    assert_eq!(parse_wav_header(&buf), Err(WavError::NoData));
}

#[test]
fn square_wave_fills_whole_frames() {
    let mut buffer = [1u8; 18];
    fill_square_wave(&mut buffer, 1, 4);
    // Four samples per cycle: two high frames, then two low frames.
    let expected: [u8; 16] = [
        0xff, 0x7f, 0xff, 0x7f, 0xff, 0x7f, 0xff, 0x7f, 0x00, 0x80, 0x00, 0x80, 0x00, 0x80, 0x00,
        0x80,
    ];
    assert_eq!(&buffer[..16], &expected);
    // The two bytes after the last whole frame are untouched.
    assert_eq!(&buffer[16..], &[1, 1]);
}

#[test]
fn square_wave_440_at_44100() {
    let mut buffer = [0u8; 400];
    fill_square_wave(&mut buffer, 440, 44100);
    // 44100 / 440 = 100 samples per cycle: frames 0..=49 high, 50..=99 low.
    assert_eq!(&buffer[0..4], &[0xff, 0x7f, 0xff, 0x7f]);
    assert_eq!(&buffer[49 * 4..49 * 4 + 4], &[0xff, 0x7f, 0xff, 0x7f]);
    assert_eq!(&buffer[50 * 4..50 * 4 + 4], &[0x00, 0x80, 0x00, 0x80]);
    assert_eq!(&buffer[99 * 4..99 * 4 + 4], &[0x00, 0x80, 0x00, 0x80]);
}

#[test]
fn fill_chunk_copies_and_pads() {
    let mut tx = [0xaau8; 8];
    let pcm: [u8; 10] = [1, 2, 3, 4, 5, 6, 7, 8, 9, 10];
    let chunk = fill_chunk(&mut tx, &pcm, 6);
    assert_eq!(chunk, 4);
    assert_eq!(tx, [7, 8, 9, 10, 0, 0, 0, 0]);
}

#[test]
fn fill_chunk_takes_a_full_buffer() {
    let mut tx = [0u8; 4];
    let pcm: [u8; 10] = [1, 2, 3, 4, 5, 6, 7, 8, 9, 10];
    let chunk = fill_chunk(&mut tx, &pcm, 0);
    assert_eq!(chunk, 4);
    assert_eq!(tx, [1, 2, 3, 4]);
}

#[test]
fn fill_chunk_at_the_end_zeroes_everything() {
    let mut tx = [7u8; 3];
    let pcm: [u8; 2] = [5, 6];
    let chunk = fill_chunk(&mut tx, &pcm, 2);
    assert_eq!(chunk, 0);
    assert_eq!(tx, [0, 0, 0]);
}
