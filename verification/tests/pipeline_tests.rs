//! Tests for the signal codec, DSP stages and conditioning pipeline.

use super_mouse_ai::denoise::{denoise_frames, Denoiser, FRAME_SIZE};
use super_mouse_ai::dsp::{normalize, peak};
use super_mouse_ai::options::AudioProcessingOptions;
use super_mouse_ai::pcm::PcmBuffer;
use super_mouse_ai::pipeline::{condition_bytes, condition_samples};
use super_mouse_ai::resample::{band_pass, downmix_to_mono, resample_and_filter, resample_to_target};
use super_mouse_ai::wav::{decode, DecodeError};

/// A canonical 44-byte-header PCM16 WAV byte buffer.
fn make_wav(channels: u16, sample_rate: u32, samples: &[i16]) -> Vec<u8> {
    let data_len = (samples.len() * 2) as u32;
    let mut b: Vec<u8> = Vec::new();
    b.extend_from_slice(b"RIFF");
    b.extend_from_slice(&(36 + data_len).to_le_bytes());
    b.extend_from_slice(b"WAVE");
    b.extend_from_slice(b"fmt ");
    b.extend_from_slice(&16u32.to_le_bytes());
    b.extend_from_slice(&1u16.to_le_bytes());
    b.extend_from_slice(&channels.to_le_bytes());
    b.extend_from_slice(&sample_rate.to_le_bytes());
    let byte_rate = sample_rate * channels as u32 * 2;
    b.extend_from_slice(&byte_rate.to_le_bytes());
    b.extend_from_slice(&(channels * 2).to_le_bytes());
    b.extend_from_slice(&16u16.to_le_bytes());
    b.extend_from_slice(b"data");
    b.extend_from_slice(&data_len.to_le_bytes());
    for s in samples {
        b.extend_from_slice(&s.to_le_bytes());
    }
    b
}

fn sine_48k_mono_1s() -> Vec<i16> {
    let mut v = Vec::new();
    for n in 0..48000u32 {
        let t = n as f64 / 48000.0;
        let x = (2.0 * std::f64::consts::PI * 440.0 * t).sin() * 10000.0;
        v.push(x as i16);
    }
    v
}

#[test]
fn decode_roundtrips_header_and_samples() {
    let samples: Vec<i16> = vec![1, -1, 2, -2, 30000, -30000];
    let bytes = make_wav(2, 44100, &samples);
    let p = decode(&bytes).expect("canonical wav must decode");
    assert_eq!(p.channels, 2);
    assert_eq!(p.sample_rate, 44100);
    assert_eq!(p.samples, samples);
}

#[test]
fn decode_rejects_short_buffer() {
    let bytes = vec![0u8; 20];
    assert!(matches!(decode(&bytes), Err(DecodeError::UnsupportedFormat)));
}

#[test]
fn decode_rejects_bad_magic() {
    let mut bytes = make_wav(1, 16000, &[0, 0]);
    bytes[0] = b'X';
    assert!(matches!(decode(&bytes), Err(DecodeError::UnsupportedFormat)));
}

#[test]
fn decode_rejects_non_pcm16() {
    let mut bytes = make_wav(1, 16000, &[0, 0]);
    bytes[34] = 8; // bits per sample
    assert!(matches!(decode(&bytes), Err(DecodeError::UnsupportedFormat)));
}

#[test]
fn decode_drops_trailing_partial_frame() {
    // Three samples declared over two channels: the odd sample is cut.
    let samples: Vec<i16> = vec![5, 6, 7];
    let bytes = make_wav(2, 8000, &samples);
    let p = decode(&bytes).expect("decodes");
    assert_eq!(p.samples, vec![5, 6]);
}

// Decode followed by the resampler/filter stage always lands on the
// canonical tag, whatever the input channel count or rate.
#[test]
fn decode_then_resample_is_canonical_mono_16k() {
    for (ch, rate) in [(1u16, 8000u32), (2, 44100), (2, 48000), (1, 32000)] {
        let n = (rate as usize / 100) * ch as usize;
        let samples: Vec<i16> = (0..n).map(|i| ((i % 97) as i16 - 48) * 100).collect();
        let bytes = make_wav(ch, rate, &samples);
        let p = decode(&bytes).expect("decodes");
        let out = resample_and_filter(&p, 3000, 200);
        assert_eq!(out.channels, 1);
        assert_eq!(out.sample_rate, 16000);
    }
}

#[test]
fn downmix_averages_frames() {
    let p = PcmBuffer { samples: vec![10, 20, 30, 40], channels: 2, sample_rate: 8000 };
    let m = downmix_to_mono(&p);
    assert_eq!(m.samples, vec![15, 35]);
    assert_eq!(m.channels, 1);
    assert_eq!(m.sample_rate, 8000);
}

#[test]
fn downmix_truncates_toward_zero() {
    let p = PcmBuffer { samples: vec![-3, -4, 3, 4], channels: 2, sample_rate: 8000 };
    let m = downmix_to_mono(&p);
    assert_eq!(m.samples, vec![-3, 3]);
}

#[test]
fn resample_halves_at_double_rate() {
    let p = PcmBuffer {
        samples: vec![0, 1, 2, 3, 4, 5, 6, 7],
        channels: 1,
        sample_rate: 32000,
    };
    let out = resample_to_target(&p);
    assert_eq!(out.sample_rate, 16000);
    assert_eq!(out.samples, vec![0, 2, 4, 6]);
}

#[test]
fn resample_keeps_all_at_target_rate() {
    let p = PcmBuffer { samples: vec![9, 8, 7], channels: 1, sample_rate: 16000 };
    let out = resample_to_target(&p);
    assert_eq!(out.samples, vec![9, 8, 7]);
}

#[test]
fn band_pass_attenuates_dc() {
    // A constant (zero-frequency) signal must be strongly attenuated by
    // the high-pass section.
    let s: Vec<i16> = vec![20000; 2000];
    let out = band_pass(&s, 3000, 200, 16000);
    assert_eq!(out.len(), s.len());
    let tail_peak = out[1000..].iter().map(|x| (*x as i32).abs()).max().unwrap();
    assert!(tail_peak < 2000, "dc tail peak was {tail_peak}");
}

#[test]
fn normalize_scales_peak_to_full_range() {
    let mut v: Vec<i16> = vec![100, -200, 50];
    normalize(&mut v);
    assert_eq!(v, vec![16383, -32767, 8191]);
}

#[test]
fn normalize_leaves_silence_unchanged() {
    let mut v: Vec<i16> = vec![0, 0, 0];
    normalize(&mut v);
    assert_eq!(v, vec![0, 0, 0]);
}

// Normalization is idempotent: the second call changes nothing.
#[test]
fn normalize_twice_equals_once() {
    let cases: Vec<Vec<i16>> = vec![
        vec![100, -200, 50],
        vec![1, 2, 3, -32768],
        vec![0, 0],
        vec![7],
        vec![32767, -32767],
        vec![-1, 1, -2, 2, 12345],
    ];
    for case in cases {
        let mut once = case.clone();
        normalize(&mut once);
        let mut twice = once.clone();
        normalize(&mut twice);
        assert_eq!(twice, once, "input {case:?}");
    }
}

// Denoising preserves sample count modulo frame truncation, and the
// first frame passes through unprocessed.
#[test]
fn denoise_truncates_to_whole_frames_and_passes_first_frame() {
    let n = FRAME_SIZE * 3 + 123;
    let input: Vec<i16> = (0..n).map(|i| ((i * 37) % 20000) as i16 - 10000).collect();
    let mut d = Denoiser::new();
    let out = denoise_frames(&mut d, &input);
    assert_eq!(out.len(), (input.len() / FRAME_SIZE) * FRAME_SIZE);
    assert_eq!(&out[..FRAME_SIZE], &input[..FRAME_SIZE]);
}

#[test]
fn denoise_of_short_input_is_empty() {
    let input: Vec<i16> = vec![5; FRAME_SIZE - 1];
    let mut d = Denoiser::new();
    let out = denoise_frames(&mut d, &input);
    assert!(out.is_empty());
}

// The denoiser must actually transform later frames: a pipeline run
// with denoising cannot equal the pass-through run sample for sample.
#[test]
fn denoiser_changes_later_frames() {
    let input: Vec<i16> = (0..FRAME_SIZE * 4)
        .map(|i| (((i * 31) % 15000) as i16) - 7500)
        .collect();
    let mut d = Denoiser::new();
    let out = denoise_frames(&mut d, &input);
    assert_eq!(out.len(), input.len());
    assert_ne!(&out[FRAME_SIZE..], &input[FRAME_SIZE..]);
}

// End-to-end: a one-second 440 Hz sine at mono 48 kHz conditions to a
// non-empty canonical buffer, and denoising measurably alters the
// output against the pass-through run.
#[test]
fn condition_sine_end_to_end() {
    let samples = sine_48k_mono_1s();
    let bytes = make_wav(1, 48000, &samples);

    let default_opts = AudioProcessingOptions::default();
    let mut d1 = Denoiser::new();
    let conditioned = condition_bytes(&bytes, &default_opts, &mut d1).expect("decodes");
    assert_eq!(conditioned.channels, 1);
    assert_eq!(conditioned.sample_rate, 16000);
    assert!(!conditioned.samples.is_empty());

    let plain_opts = AudioProcessingOptions {
        normalize_result: Some(false),
        denoise_audio: Some(false),
        low_pass_value: None,
        high_pass_value: None,
    };
    let mut d2 = Denoiser::new();
    let plain = condition_bytes(&bytes, &plain_opts, &mut d2).expect("decodes");
    assert_eq!(plain.sample_rate, 16000);

    let peak_denoised = peak(&conditioned.samples);
    let peak_plain = peak(&plain.samples);
    assert_ne!(
        peak_denoised, peak_plain,
        "denoising must measurably alter the signal"
    );
}

#[test]
fn condition_bytes_propagates_decode_error() {
    let bytes = vec![1u8, 2, 3];
    let opts = AudioProcessingOptions::default();
    let mut d = Denoiser::new();
    assert!(matches!(
        condition_bytes(&bytes, &opts, &mut d),
        Err(DecodeError::UnsupportedFormat)
    ));
}

#[test]
fn condition_samples_passthrough_is_deterministic() {
    let samples: Vec<i16> = (0..4000).map(|i| ((i % 701) as i16 - 350) * 40).collect();
    let opts = AudioProcessingOptions {
        normalize_result: Some(true),
        denoise_audio: Some(false),
        low_pass_value: Some(2000),
        high_pass_value: Some(300),
    };
    let mut d1 = Denoiser::new();
    let a = condition_samples(samples.clone(), 2, 44100, &opts, &mut d1);
    let mut d2 = Denoiser::new();
    let b = condition_samples(samples, 2, 44100, &opts, &mut d2);
    assert_eq!(a.samples, b.samples);
    assert_eq!(a.channels, 1);
    assert_eq!(a.sample_rate, 16000);
}
