//! Denoiser: frame-based spectral denoising of mono PCM at its native
//! rate.
//!
//! The framing policy is verified here: input is cut into frames of the
//! denoising model's native length, the first frame is passed through
//! unprocessed to avoid leading-edge warm-up artifacts, every later
//! frame is replaced by the denoised output, and a trailing partial
//! frame is dropped rather than zero-padded. Only the per-frame call
//! into the outside denoising model is trusted.

use vstd::prelude::*;
use vstd::arithmetic::div_mod::lemma_fundamental_div_mod;

verus! {

/// Samples processed per denoiser frame (the model's native length).
pub const FRAME_SIZE: usize = 480;

/// Declares the outside recurrent denoiser state so it can be held in
/// a field; its contents stay opaque.
#[verifier::external_type_specification]
#[verifier::external_body]
pub struct ExDenoiseState<'a>(nnnoiseless::DenoiseState<'a>);

/// A running spectral denoiser.
pub struct Denoiser {
    state: Box<nnnoiseless::DenoiseState<'static>>,
}

impl Denoiser {
    /// Relies on `nnnoiseless::DenoiseState::new`: builds the default
    /// recurrent model state.
    #[verifier::external_body]
    pub fn new() -> (d: Denoiser) {
        Denoiser { state: nnnoiseless::DenoiseState::new() }
    }

    /// Relies on `nnnoiseless::DenoiseState::process_frame`: fills an
    /// output slice of the native frame length from an input slice of
    /// the same length, in the 16-bit amplitude domain. The output
    /// depends on the state left by earlier frames, so nothing beyond
    /// its length is promised.
    #[verifier::external_body]
    fn process_frame(&mut self, frame: &Vec<i16>) -> (out: Vec<i16>)
        requires
            frame@.len() == 480,
        ensures
            out@.len() == 480,
    {
        let input: Vec<_> = frame.iter().map(|&x| x.into()).collect();
        let mut buf = vec![Default::default(); 480];
        self.state.process_frame(&mut buf, &input);
        buf.iter().map(|&x| x as i16).collect()
    }
}

/// Denoise a mono buffer frame by frame.
///
/// The output holds exactly the whole frames of the input: its length
/// is the input length rounded down to a multiple of the frame size.
/// The first frame is the input's own first frame, unprocessed.
pub fn denoise_frames(d: &mut Denoiser, samples: &Vec<i16>) -> (out: Vec<i16>)
    ensures
        out@.len() == (samples@.len() as int / 480) * 480,
        samples@.len() >= 480 ==> out@.subrange(0, 480) == samples@.subrange(0, 480),
{
    let total_frames = samples.len() / FRAME_SIZE;
    proof {
        lemma_fundamental_div_mod(samples@.len() as int, 480);
    }
    let mut out: Vec<i16> = Vec::new();
    let mut f: usize = 0;
    while f < total_frames
        invariant
            samples@.len() <= usize::MAX,
            total_frames == samples@.len() as int / 480,
            total_frames * 480 <= samples@.len(),
            f <= total_frames,
            out@.len() == f as int * 480,
            f >= 1 && samples@.len() >= 480 ==> out@.subrange(0, 480) == samples@.subrange(
                0,
                480,
            ),
        decreases total_frames - f,
    {
        proof {
            assert(f * 480 + 480 <= total_frames * 480) by (nonlinear_arith)
                requires f + 1 <= total_frames;
        }
        let base = f * FRAME_SIZE;
        let mut frame: Vec<i16> = Vec::new();
        let mut c: usize = 0;
        while c < FRAME_SIZE
            invariant
                samples@.len() <= usize::MAX,
                base + 480 <= samples@.len(),
                c <= 480,
                frame@.len() == c as int,
                forall|j: int| 0 <= j < c ==> frame@[j] == samples@[base + j],
            decreases 480 - c,
        {
            frame.push(samples[base + c]);
            c += 1;
        }
        let processed = d.process_frame(&frame);
        let chunk = if f == 0 {
            frame
        } else {
            processed
        };
        let ghost out_before = out@;
        let mut k: usize = 0;
        while k < FRAME_SIZE
            invariant
                chunk@.len() == 480,
                k <= 480,
                out@ == out_before + chunk@.subrange(0, k as int),
            decreases 480 - k,
        {
            out.push(chunk[k]);
            k += 1;
            proof {
                assert(out@ =~= out_before + chunk@.subrange(0, k as int));
            }
        }
        proof {
            assert(out@ =~= out_before + chunk@);
            if f == 0 {
                assert(out@.subrange(0, 480) =~= samples@.subrange(0, 480));
            } else {
                assert(out@.subrange(0, 480) =~= out_before.subrange(0, 480));
            }
        }
        f += 1;
    }
    out
}

} // verus!
