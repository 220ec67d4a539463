//! Filling DMA transmit buffers for the I2S audio examples: a generated
//! stereo square wave, and chunked streaming of PCM data with zero
//! padding on the final chunk.

use vstd::prelude::*;

verus! {

/// Whether the square wave is in its high half during sample `frame` of a
/// cycle `samples_per_cycle` samples long.
pub open spec fn square_wave_high(frame: int, samples_per_cycle: int) -> bool {
    frame % samples_per_cycle < samples_per_cycle / 2
}

/// Byte `k` of the square-wave buffer: frames are four bytes (16-bit left
/// sample then 16-bit right sample, little endian), high half-cycles carry
/// the maximum positive sample `0x7fff`, low ones the maximum negative
/// `0x8000`.
pub open spec fn square_wave_byte(k: int, samples_per_cycle: int) -> u8 {
    let high = square_wave_high(k / 4, samples_per_cycle);
    if k % 2 == 0 {
        if high {
            0xffu8
        } else {
            0x00u8
        }
    } else {
        if high {
            0x7fu8
        } else {
            0x80u8
        }
    }
}

/// Fill `buffer` with a stereo square wave at `freq_hz` for the given
/// sample rate. Every whole four-byte frame is written; bytes after the
/// last whole frame are left as they were.
pub fn fill_square_wave(buffer: &mut [u8], freq_hz: u32, sample_rate: u32)
    requires
        1 <= freq_hz <= sample_rate,
    ensures
        final(buffer)@.len() == old(buffer)@.len(),
        forall|k: int|
            0 <= k < (old(buffer)@.len() / 4) * 4 ==> final(buffer)@[k] == square_wave_byte(
                k,
                sample_rate as int / freq_hz as int,
            ),
        forall|k: int|
            (old(buffer)@.len() / 4) * 4 <= k < old(buffer)@.len() ==> final(buffer)@[k] == old(
                buffer,
            )@[k],
{
    let samples_per_cycle = (sample_rate / freq_hz) as usize;
    let half_cycle = samples_per_cycle / 2;
    let frames = buffer.len() / 4;
    let mut i: usize = 0;

    proof {
        assert(sample_rate as int / freq_hz as int >= 1) by (nonlinear_arith)
            requires
                1 <= freq_hz <= sample_rate,
        ;
        assert(4 * (buffer@.len() / 4) <= buffer@.len()) by (nonlinear_arith);
    }

    while i < frames
        invariant
            frames == buffer@.len() / 4,
            i <= frames,
            samples_per_cycle == sample_rate as int / freq_hz as int,
            half_cycle == samples_per_cycle / 2,
            samples_per_cycle >= 1,
            4 * frames <= buffer@.len() <= usize::MAX,
            buffer@.len() == old(buffer)@.len(),
            forall|k: int|
                0 <= k < 4 * i ==> buffer@[k] == square_wave_byte(k, samples_per_cycle as int),
            forall|k: int| 4 * frames <= k < buffer@.len() ==> buffer@[k] == old(buffer)@[k],
        decreases frames - i,
    {
        let high = (i % samples_per_cycle) < half_cycle;
        let lo: u8 = if high {
            0xff
        } else {
            0x00
        };
        let hi: u8 = if high {
            0x7f
        } else {
            0x80
        };
        proof {
            assert(i * 4 + 3 < buffer@.len());
            assert((i * 4 as int) / 4 == i && (i * 4 as int + 1) / 4 == i && (i * 4 as int + 2) / 4
                == i && (i * 4 as int + 3) / 4 == i) by (nonlinear_arith);
            assert((i * 4 as int) % 2 == 0 && (i * 4 as int + 1) % 2 == 1 && (i * 4 as int + 2) % 2
                == 0 && (i * 4 as int + 3) % 2 == 1) by (nonlinear_arith);
        }
        buffer[i * 4] = lo;
        buffer[i * 4 + 1] = hi;
        buffer[i * 4 + 2] = lo;
        buffer[i * 4 + 3] = hi;
        i = i + 1;
    }
}

/// Copy the next chunk of `pcm`, starting at `offset`, into the transmit
/// buffer, zero-padding whatever the chunk does not cover. Returns the
/// number of PCM bytes consumed: the whole buffer, or what is left of
/// `pcm`, whichever is shorter.
pub fn fill_chunk(tx: &mut [u8], pcm: &[u8], offset: usize) -> (chunk: usize)
    requires
        offset <= pcm@.len(),
    ensures
        final(tx)@.len() == old(tx)@.len(),
        chunk == if old(tx)@.len() <= pcm@.len() - offset {
            old(tx)@.len() as int
        } else {
            pcm@.len() - offset
        },
        forall|k: int| 0 <= k < chunk ==> final(tx)@[k] == pcm@[offset + k],
        forall|k: int| chunk <= k < final(tx)@.len() ==> final(tx)@[k] == 0,
{
    let remaining = pcm.len() - offset;
    let chunk = if tx.len() <= remaining {
        tx.len()
    } else {
        remaining
    };

    let mut k: usize = 0;
    while k < chunk
        invariant
            chunk <= tx@.len(),
            offset + chunk <= pcm@.len() <= usize::MAX,
            k <= chunk,
            tx@.len() == old(tx)@.len(),
            forall|j: int| 0 <= j < k ==> tx@[j] == pcm@[offset + j],
        decreases chunk - k,
    {
        tx[k] = pcm[offset + k];
        k = k + 1;
    }

    let mut z: usize = chunk;
    while z < tx.len()
        invariant
            chunk <= z <= tx@.len(),
            tx@.len() == old(tx)@.len(),
            forall|j: int| 0 <= j < chunk ==> tx@[j] == pcm@[offset + j],
            forall|j: int| chunk <= j < z ==> tx@[j] == 0,
        decreases tx@.len() - z,
    {
        tx[z] = 0;
        z = z + 1;
    }

    chunk
}

} // verus!
