//! The PCM buffer exchanged between pipeline stages: an ordered sample
//! sequence tagged with its channel count and sample rate.

use vstd::prelude::*;

verus! {

/// A buffer of interleaved signed 16-bit-domain samples.
///
/// Well-formed buffers have at least one channel, a positive sample rate,
/// and a sample count that divides evenly into frames.
pub struct PcmBuffer {
    pub samples: Vec<i16>,
    pub channels: u16,
    pub sample_rate: u32,
}

impl PcmBuffer {
    /// Channel count and rate are positive and the samples divide evenly
    /// into frames of one sample per channel.
    pub open spec fn wf(self) -> bool {
        &&& 1 <= self.channels
        &&& 1 <= self.sample_rate
        &&& (self.samples@.len() as int) % (self.channels as int) == 0
    }

}

} // verus!
