//! Minimal WAV header parsing for the SD-card audio players.
//!
//! [`parse_wav_header`] walks the RIFF chunk list of a buffer that holds
//! the start of a WAV file, remembers the format fields of the last
//! `fmt ` chunk seen, and stops at the first `data` chunk. The whole
//! parse is specified by [`wav_parse`], a direct statement of the chunk
//! walk over the byte sequence.

use vstd::prelude::*;

verus! {

/// Minimal WAV header info: the format fields of the last `fmt ` chunk
/// before the `data` chunk, and where the sample data lives.
#[derive(PartialEq, Eq, Structural, Clone, Copy, Debug)]
pub struct WavInfo {
    /// Sample rate in Hz, zero if no `fmt ` chunk preceded `data`.
    pub sample_rate: u32,
    /// Bits per sample, zero if no `fmt ` chunk preceded `data`.
    pub bits_per_sample: u16,
    /// Channel count, zero if no `fmt ` chunk preceded `data`.
    pub channels: u16,
    /// Offset of the first sample byte inside the parsed buffer.
    pub data_offset: usize,
    /// Length in bytes of the `data` chunk, as its header declares it.
    pub data_len: usize,
}

/// Why a buffer does not parse as a WAV header.
#[derive(PartialEq, Eq, Structural, Clone, Copy, Debug)]
pub enum WavError {
    /// Fewer than the forty-four bytes a minimal header needs.
    TooSmall,
    /// The buffer does not start with the `RIFF` tag.
    NotRiff,
    /// The RIFF form type is not `WAVE`.
    NotWave,
    /// A `fmt ` chunk, or the sixteen fixed bytes its fields live in,
    /// runs past the end of the buffer.
    FmtTruncated,
    /// The chunk list ended without a `data` chunk.
    NoData,
}

/// The little-endian sixteen-bit value at offset `i`.
pub open spec fn le16(b: Seq<u8>, i: int) -> int {
    b[i] + 0x100 * b[i + 1]
}

/// The little-endian thirty-two-bit value at offset `i`.
pub open spec fn le32(b: Seq<u8>, i: int) -> int {
    b[i] + 0x100 * b[i + 1] + 0x10000 * b[i + 2] + 0x1000000 * b[i + 3]
}

/// The four bytes at offset `i` are the tag `(t0, t1, t2, t3)`.
pub open spec fn tag_at(b: Seq<u8>, i: int, t0: u8, t1: u8, t2: u8, t3: u8) -> bool {
    b[i] == t0 && b[i + 1] == t1 && b[i + 2] == t2 && b[i + 3] == t3
}

/// Where the chunk walk stands after a chunk whose body starts at `body`
/// and is `size` bytes long: past the body and its pad byte if the size
/// is odd, capped at the end of the buffer.
pub open spec fn wav_next(blen: int, body: int, size: int) -> int {
    let past = body + size + if size % 2 == 1 {
        1int
    } else {
        0int
    };
    if past > blen {
        blen
    } else {
        past
    }
}

/// The chunk walk from offset `idx`, carrying the format fields read so
/// far. Each step consumes one chunk header; a `fmt ` chunk replaces the
/// carried fields, the first `data` chunk ends the walk.
pub open spec fn wav_scan(b: Seq<u8>, idx: int, sr: u32, ch: u16, bps: u16) -> Result<
    WavInfo,
    WavError,
>
    decreases b.len() - idx when 0 <= idx <= b.len()
{
    if idx + 8 > b.len() {
        Err(WavError::NoData)
    } else {
        let size = le32(b, idx + 4);
        let body = idx + 8;
        if tag_at(b, idx, 102, 109, 116, 32) {  // `fmt `
            if body + size > b.len() || body + 16 > b.len() {
                Err(WavError::FmtTruncated)
            } else {
                wav_scan(
                    b,
                    wav_next(b.len() as int, body, size),
                    le32(b, body + 4) as u32,
                    le16(b, body + 2) as u16,
                    le16(b, body + 14) as u16,
                )
            }
        } else if tag_at(b, idx, 100, 97, 116, 97) {  // `data`
            Ok(
                WavInfo {
                    sample_rate: sr,
                    bits_per_sample: bps,
                    channels: ch,
                    data_offset: body as usize,
                    data_len: size as usize,
                },
            )
        } else {
            wav_scan(b, wav_next(b.len() as int, body, size), sr, ch, bps)
        }
    }
}

/// What [`parse_wav_header`] returns for a byte sequence: the minimal
/// length and tag checks, then the chunk walk from offset twelve.
pub open spec fn wav_parse(b: Seq<u8>) -> Result<WavInfo, WavError> {
    if b.len() < 44 {
        Err(WavError::TooSmall)
    } else if !tag_at(b, 0, 82, 73, 70, 70) {  // `RIFF`
        Err(WavError::NotRiff)
    } else if !tag_at(b, 8, 87, 65, 86, 69) {  // `WAVE`
        Err(WavError::NotWave)
    } else {
        wav_scan(b, 12, 0, 0, 0)
    }
}

/// Read the little-endian sixteen-bit value at offset `i`.
fn read_le16(buf: &[u8], i: usize) -> (value: u16)
    requires
        i + 2 <= buf@.len(),
    ensures
        value == le16(buf@, i as int),
{
    // Reading the length bounds the view by usize::MAX for the index
    // arithmetic below.
    let _n: usize = buf.len();
    buf[i] as u16 + 0x100 * (buf[i + 1] as u16)
}

/// Read the little-endian thirty-two-bit value at offset `i`.
fn read_le32(buf: &[u8], i: usize) -> (value: u32)
    requires
        i + 4 <= buf@.len(),
    ensures
        value == le32(buf@, i as int),
{
    let _n: usize = buf.len();
    let b3 = buf[i + 3] as u32;
    buf[i] as u32 + 0x100 * (buf[i + 1] as u32) + 0x10000 * (buf[i + 2] as u32) + 0x1000000 * b3
}

/// Whether the four bytes at offset `i` are the given tag.
fn tag_matches(buf: &[u8], i: usize, t0: u8, t1: u8, t2: u8, t3: u8) -> (matches: bool)
    requires
        i + 4 <= buf@.len(),
    ensures
        matches == tag_at(buf@, i as int, t0, t1, t2, t3),
{
    let _n: usize = buf.len();
    buf[i] == t0 && buf[i + 1] == t1 && buf[i + 2] == t2 && buf[i + 3] == t3
}

/// Parse the start of a WAV file: check the RIFF/WAVE framing, walk the
/// chunk list, and return the format and data location of the first
/// `data` chunk, or say exactly why there is none.
pub fn parse_wav_header(buf: &[u8]) -> (result: Result<WavInfo, WavError>)
    ensures
        result == wav_parse(buf@),
{
    if buf.len() < 44 {
        return Err(WavError::TooSmall);
    }
    if !tag_matches(buf, 0, 82, 73, 70, 70) {
        return Err(WavError::NotRiff);
    }
    if !tag_matches(buf, 8, 87, 65, 86, 69) {
        return Err(WavError::NotWave);
    }

    let mut idx: usize = 12;
    let mut sample_rate: u32 = 0;
    let mut bits_per_sample: u16 = 0;
    let mut num_channels: u16 = 0;

    while idx <= buf.len() - 8
        invariant
            44 <= buf@.len(),
            12 <= idx <= buf@.len(),
            wav_parse(buf@) == wav_scan(
                buf@,
                idx as int,
                sample_rate,
                num_channels,
                bits_per_sample,
            ),
        decreases buf@.len() - idx,
    {
        let size = read_le32(buf, idx + 4);
        let size_bytes = size as usize;
        let body = idx + 8;

        if tag_matches(buf, idx, 102, 109, 116, 32) {
            if size_bytes > buf.len() - body || 16 > buf.len() - body {
                return Err(WavError::FmtTruncated);
            }
            num_channels = read_le16(buf, body + 2);
            sample_rate = read_le32(buf, body + 4);
            bits_per_sample = read_le16(buf, body + 14);
        } else if tag_matches(buf, idx, 100, 97, 116, 97) {
            return Ok(
                WavInfo {
                    sample_rate,
                    bits_per_sample,
                    channels: num_channels,
                    data_offset: body,
                    data_len: size_bytes,
                },
            );
        }

        // Advance past the chunk body and its pad byte, capped at the end
        // of the buffer; a capped position ends the walk just the same.
        let mut next = body.saturating_add(size_bytes);
        if size_bytes % 2 == 1 {
            next = next.saturating_add(1);
        }
        if next > buf.len() {
            next = buf.len();
        }
        assert(next == wav_next(buf@.len() as int, body as int, size as int));
        idx = next;
    }
    Err(WavError::NoData)
}

} // verus!
