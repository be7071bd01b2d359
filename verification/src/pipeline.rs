//! Audio conditioning pipeline: decode (when starting from container
//! bytes), down-mix to integer-domain mono at the native capture rate,
//! optional pre-denoise normalization, denoising (or pass-through),
//! resampling to the canonical 16 kHz with band-pass filtering, and
//! optional post-resample normalization — in that fixed order.
//!
//! Denoising runs at the original capture rate before any band
//! limiting; normalization is toggleable both before and after because
//! denoising can alter peak amplitude.

use vstd::prelude::*;
use vstd::arithmetic::div_mod::{lemma_div_nonincreasing, lemma_fundamental_div_mod};
use vstd::arithmetic::mul::lemma_mul_inequality;
use crate::denoise::{denoise_frames, Denoiser};
use crate::dsp::{normalize, normalized};
use crate::options::AudioProcessingOptions;
use crate::pcm::PcmBuffer;
use crate::resample::{band_pass, band_passed, downmix_to_mono, mono_of, resample_to_target, resampled};
use crate::wav::{decode, wav_channels, wav_header_valid, wav_rate, wav_sample_count, wav_samples, DecodeError};

verus! {

/// The mono sequence entering the denoise stage: down-mixed, and
/// normalized when requested.
pub open spec fn pre_stage(samples: Seq<i16>, ch: int, opts: AudioProcessingOptions) -> Seq<i16> {
    let mono = mono_of(samples, ch);
    if opts.spec_normalize() {
        normalized(mono)
    } else {
        mono
    }
}

/// The whole pipeline without the denoise stage (denoising disabled is
/// a pass-through in the integer domain).
pub open spec fn conditioned_passthrough(
    samples: Seq<i16>,
    ch: int,
    rate: int,
    opts: AudioProcessingOptions,
) -> Seq<i16> {
    let pre = pre_stage(samples, ch, opts);
    let conv = resampled(pre, rate, 16000);
    let filt = band_passed(conv, opts.spec_low_pass() as int, opts.spec_high_pass() as int, 16000);
    if opts.spec_normalize() {
        normalized(filt)
    } else {
        filt
    }
}

/// Output length of the pipeline when denoising runs: the mono length
/// is truncated to whole denoiser frames before rate conversion.
pub open spec fn conditioned_denoised_len(samples_len: int, ch: int, rate: int) -> int {
    let mono_len = samples_len / ch;
    let dn_len = (mono_len / 480) * 480;
    (dn_len * 16000) / rate
}

/// Condition already-decoded samples at a known channel count and rate
/// (the live microphone path, which never round-trips a container).
///
/// The result is always canonical mono 16 kHz. With denoising disabled
/// the content is the exact staged composition; with denoising enabled
/// the denoiser state decides sample values, but the stage structure
/// still fixes the output length.
pub fn condition_samples(
    samples: Vec<i16>,
    channels: u16,
    sample_rate: u32,
    options: &AudioProcessingOptions,
    denoiser: &mut Denoiser,
) -> (r: PcmBuffer)
    requires
        channels >= 1,
        sample_rate >= 1,
        samples@.len() * 16000 <= usize::MAX,
    ensures
        r.channels == 1,
        r.sample_rate == 16000,
        r.wf(),
        !options.spec_denoise() ==> r.samples@ == conditioned_passthrough(
            samples@,
            channels as int,
            sample_rate as int,
            *options,
        ),
        options.spec_denoise() ==> r.samples@.len() == conditioned_denoised_len(
            samples@.len() as int,
            channels as int,
            sample_rate as int,
        ),
{
    let buf = PcmBuffer { samples, channels, sample_rate };
    let mono = downmix_to_mono(&buf);
    let mut pre = mono.samples;
    if options.normalize_enabled() {
        normalize(&mut pre);
    }
    proof {
        lemma_div_nonincreasing(buf.samples@.len() as int, channels as int);
        assert(pre@.len() <= buf.samples@.len());
    }
    if options.denoise_enabled() {
        let dn = denoise_frames(denoiser, &pre);
        proof {
            lemma_fundamental_div_mod(pre@.len() as int, 480);
            assert((pre@.len() as int / 480) * 480 <= pre@.len()) by (nonlinear_arith)
                requires
                    pre@.len() as int == 480 * (pre@.len() as int / 480) + pre@.len() as int
                        % 480,
                    pre@.len() as int % 480 >= 0;
            lemma_mul_inequality(dn@.len() as int, buf.samples@.len() as int, 16000);
            lemma_div_nonincreasing(dn@.len() as int * 16000, sample_rate as int);
        }
        let nb = PcmBuffer { samples: dn, channels: 1, sample_rate };
        let conv = resample_to_target(&nb);
        let mut filtered = band_pass(&conv.samples, options.low_pass(), options.high_pass(), 16000);
        if options.normalize_enabled() {
            normalize(&mut filtered);
        }
        PcmBuffer { samples: filtered, channels: 1, sample_rate: 16000 }
    } else {
        proof {
            lemma_mul_inequality(pre@.len() as int, buf.samples@.len() as int, 16000);
            lemma_div_nonincreasing(pre@.len() as int * 16000, sample_rate as int);
        }
        let nb = PcmBuffer { samples: pre, channels: 1, sample_rate };
        let conv = resample_to_target(&nb);
        let mut filtered = band_pass(&conv.samples, options.low_pass(), options.high_pass(), 16000);
        if options.normalize_enabled() {
            normalize(&mut filtered);
        }
        PcmBuffer { samples: filtered, channels: 1, sample_rate: 16000 }
    }
}

/// Condition a WAV-container byte buffer: decode, then run the sample
/// pipeline on the decoded buffer's own channel count and rate.
///
/// Succeeds exactly when the container decodes; any failure aborts the
/// whole pipeline with the decode error and no partial result.
pub fn condition_bytes(
    bytes: &Vec<u8>,
    options: &AudioProcessingOptions,
    denoiser: &mut Denoiser,
) -> (r: Result<PcmBuffer, DecodeError>)
    requires
        bytes@.len() * 16000 <= usize::MAX,
    ensures
        r is Ok <==> wav_header_valid(bytes@),
        r matches Ok(p) ==> {
            &&& p.channels == 1
            &&& p.sample_rate == 16000
            &&& p.wf()
            &&& !options.spec_denoise() ==> p.samples@ == conditioned_passthrough(
                wav_samples(bytes@),
                wav_channels(bytes@),
                wav_rate(bytes@),
                *options,
            )
            &&& options.spec_denoise() ==> p.samples@.len() == conditioned_denoised_len(
                wav_sample_count(bytes@),
                wav_channels(bytes@),
                wav_rate(bytes@),
            )
        },
        r is Err ==> r == Err::<PcmBuffer, DecodeError>(DecodeError::UnsupportedFormat),
{
    let decoded = match decode(bytes) {
        Ok(p) => p,
        Err(e) => {
            return Err(e);
        },
    };
    proof {
        let s = bytes@;
        let ch = wav_channels(s);
        let t = crate::wav::wav_use_bytes(s) / 2;
        lemma_fundamental_div_mod(t, ch);
        assert((t / ch) * ch <= t) by (nonlinear_arith)
            requires
                ch >= 1,
                t >= 0,
                t == ch * (t / ch) + t % ch,
                t % ch >= 0;
        lemma_div_nonincreasing(crate::wav::wav_use_bytes(s), 2);
        assert(decoded.samples@.len() <= bytes@.len());
        lemma_mul_inequality(decoded.samples@.len() as int, bytes@.len() as int, 16000);
    }
    Ok(
        condition_samples(
            decoded.samples,
            decoded.channels,
            decoded.sample_rate,
            options,
            denoiser,
        ),
    )
}

} // verus!
