//! Signal codec: decoding a WAV-container byte buffer into raw PCM.
//!
//! The pipeline's canonical container is a RIFF/WAVE file with a plain
//! 16-byte PCM `fmt ` chunk followed directly by the `data` chunk (the
//! layout every common 16-bit PCM writer emits). Anything else is
//! rejected as an unsupported format; further containers are an
//! extension point, not a requirement.

use vstd::prelude::*;
use vstd::arithmetic::div_mod::lemma_fundamental_div_mod;
use crate::pcm::PcmBuffer;

verus! {

/// Error for a byte buffer that is not a supported container.
#[derive(Clone, Copy, Debug, PartialEq, Eq)]
pub enum DecodeError {
    UnsupportedFormat,
}

/// Little-endian 16-bit value at byte offset `off`.
pub open spec fn le16(s: Seq<u8>, off: int) -> int {
    s[off] + 256 * s[off + 1]
}

/// Little-endian 32-bit value at byte offset `off`.
pub open spec fn le32(s: Seq<u8>, off: int) -> int {
    s[off] + 256 * s[off + 1] + 65536 * s[off + 2] + 16777216 * s[off + 3]
}

/// The signed 16-bit sample a little-endian 16-bit value encodes.
pub open spec fn s16_of(v: int) -> int {
    if v < 32768 {
        v
    } else {
        v - 65536
    }
}

/// The sample stored at byte offset `off`.
pub open spec fn sample_at(s: Seq<u8>, off: int) -> i16 {
    s16_of(le16(s, off)) as i16
}

/// Whether the buffer carries the canonical WAV layout: RIFF/WAVE tag,
/// a 16-byte PCM `fmt ` chunk declaring 16-bit samples, a positive
/// channel count and rate, and a `data` chunk at offset 36.
pub open spec fn wav_header_valid(s: Seq<u8>) -> bool {
    &&& s.len() >= 44
    &&& s[0] == 82u8 && s[1] == 73u8 && s[2] == 70u8 && s[3] == 70u8  // "RIFF"
    &&& s[8] == 87u8 && s[9] == 65u8 && s[10] == 86u8 && s[11] == 69u8  // "WAVE"
    &&& s[12] == 102u8 && s[13] == 109u8 && s[14] == 116u8 && s[15] == 32u8  // "fmt "
    &&& le32(s, 16) == 16
    &&& le16(s, 20) == 1
    &&& le16(s, 22) >= 1
    &&& le32(s, 24) >= 1
    &&& le16(s, 34) == 16
    &&& s[36] == 100u8 && s[37] == 97u8 && s[38] == 116u8 && s[39] == 97u8  // "data"
}

/// Channel count declared by the header.
pub open spec fn wav_channels(s: Seq<u8>) -> int {
    le16(s, 22)
}

/// Sample rate declared by the header.
pub open spec fn wav_rate(s: Seq<u8>) -> int {
    le32(s, 24)
}

/// Usable payload bytes: the declared data size, capped by what the
/// buffer actually holds after the 44-byte header.
pub open spec fn wav_use_bytes(s: Seq<u8>) -> int {
    let declared = le32(s, 40);
    let avail = s.len() - 44;
    if declared <= avail {
        declared
    } else {
        avail
    }
}

/// Number of decoded samples: the usable payload in whole samples,
/// rounded down to a whole number of frames.
pub open spec fn wav_sample_count(s: Seq<u8>) -> int {
    let total = wav_use_bytes(s) / 2;
    (total / wav_channels(s)) * wav_channels(s)
}

/// The decoded sample sequence.
pub open spec fn wav_samples(s: Seq<u8>) -> Seq<i16> {
    Seq::new(wav_sample_count(s) as nat, |k: int| sample_at(s, 44 + 2 * k))
}

/// Read a little-endian 16-bit value.
fn read_le16(b: &Vec<u8>, off: usize) -> (v: u16)
    requires
        off + 2 <= b@.len(),
    ensures
        v as int == le16(b@, off as int),
{
    let n = b.len();
    proof {
        assert(off + 2 <= n);
    }
    (b[off] as u16) + 256 * (b[off + 1] as u16)
}

/// Read a little-endian 32-bit value.
fn read_le32(b: &Vec<u8>, off: usize) -> (v: u32)
    requires
        off + 4 <= b@.len(),
    ensures
        v as int == le32(b@, off as int),
{
    let n = b.len();
    proof {
        assert(off + 4 <= n);
    }
    (b[off] as u32) + 256 * (b[off + 1] as u32) + 65536 * (b[off + 2] as u32) + 16777216 * (b[
        off + 3] as u32)
}

/// Reinterpret an unsigned 16-bit value as the signed sample it encodes.
fn to_sample(v: u16) -> (r: i16)
    ensures
        r as int == s16_of(v as int),
{
    if v < 32768 {
        v as i16
    } else {
        ((v as i32) - 65536) as i16
    }
}

/// Decode a WAV-container byte buffer into raw multi-channel PCM.
///
/// Succeeds exactly on buffers in the canonical layout, returning their
/// samples with the declared channel count and rate; every other buffer
/// fails with `UnsupportedFormat`.
pub fn decode(bytes: &Vec<u8>) -> (r: Result<PcmBuffer, DecodeError>)
    ensures
        r is Ok <==> wav_header_valid(bytes@),
        r matches Ok(p) ==> {
            &&& p.channels as int == wav_channels(bytes@)
            &&& p.sample_rate as int == wav_rate(bytes@)
            &&& p.samples@ == wav_samples(bytes@)
            &&& p.wf()
        },
        r is Err ==> r == Err::<PcmBuffer, DecodeError>(DecodeError::UnsupportedFormat),
{
    if bytes.len() < 44 {
        return Err(DecodeError::UnsupportedFormat);
    }
    if !(bytes[0] == 82 && bytes[1] == 73 && bytes[2] == 70 && bytes[3] == 70) {
        return Err(DecodeError::UnsupportedFormat);
    }
    if !(bytes[8] == 87 && bytes[9] == 65 && bytes[10] == 86 && bytes[11] == 69) {
        return Err(DecodeError::UnsupportedFormat);
    }
    if !(bytes[12] == 102 && bytes[13] == 109 && bytes[14] == 116 && bytes[15] == 32) {
        return Err(DecodeError::UnsupportedFormat);
    }
    if read_le32(bytes, 16) != 16 {
        return Err(DecodeError::UnsupportedFormat);
    }
    if read_le16(bytes, 20) != 1 {
        return Err(DecodeError::UnsupportedFormat);
    }
    let channels = read_le16(bytes, 22);
    if channels == 0 {
        return Err(DecodeError::UnsupportedFormat);
    }
    let rate = read_le32(bytes, 24);
    if rate == 0 {
        return Err(DecodeError::UnsupportedFormat);
    }
    if read_le16(bytes, 34) != 16 {
        return Err(DecodeError::UnsupportedFormat);
    }
    if !(bytes[36] == 100 && bytes[37] == 97 && bytes[38] == 116 && bytes[39] == 97) {
        return Err(DecodeError::UnsupportedFormat);
    }
    let declared = read_le32(bytes, 40) as usize;
    let avail = bytes.len() - 44;
    let use_bytes = if declared <= avail {
        declared
    } else {
        avail
    };
    let total = use_bytes / 2;
    let frames = total / (channels as usize);
    proof {
        lemma_fundamental_div_mod(total as int, channels as int);
        assert((total as int / channels as int) * (channels as int) <= total as int) by (nonlinear_arith)
            requires
                channels as int >= 1,
                total as int >= 0,
                total as int == (channels as int) * (total as int / channels as int) + (
                total as int % channels as int),
                total as int % channels as int >= 0;
    }
    let count = frames * (channels as usize);
    proof {
        assert(count as int == wav_sample_count(bytes@));
        vstd::arithmetic::div_mod::lemma_mod_multiples_basic(frames as int, channels as int);
        assert(count as int % channels as int == 0);
    }
    let mut samples: Vec<i16> = Vec::new();
    let mut k: usize = 0;
    while k < count
        invariant
            k <= count,
            2 * count <= use_bytes <= bytes@.len() - 44,
            bytes@.len() <= usize::MAX,
            samples@.len() == k as int,
            forall|j: int| 0 <= j < k ==> samples@[j] == sample_at(bytes@, 44 + 2 * j),
        decreases count - k,
    {
        let v = read_le16(bytes, 44 + 2 * k);
        samples.push(to_sample(v));
        k += 1;
    }
    proof {
        assert(samples@ =~= wav_samples(bytes@));
    }
    Ok(PcmBuffer { samples, channels, sample_rate: rate })
}

} // verus!
