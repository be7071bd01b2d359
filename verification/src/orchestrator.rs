//! Transcription orchestrator: drains the shared capture buffer or
//! takes a supplied buffer, runs the conditioning pipeline, plans the
//! parameter set handed to the recognition engine, and packages the
//! engine's segments into a formatted result.
//!
//! The engine itself is an opaque capability invoked by the caller;
//! everything decided here — thread-count sanitization, beam width,
//! which samples reach the engine, token filtering and formatting —
//! is verified.

use vstd::prelude::*;
use crate::capture::CaptureBuffer;
use crate::denoise::Denoiser;
use crate::options::{AudioProcessingOptions, TranscribeOptions, TranscriptionFormat};
use crate::pcm::PcmBuffer;
use crate::pipeline::{condition_samples, conditioned_denoised_len, conditioned_passthrough};
use crate::transcript::{srt_from, texts_from, vtt_from, Transcript, Utterance};
use vstd::string::StrSliceExecFns;

verus! {

/// Relies on `num_cpus::get`: the number of available logical CPUs of
/// the current system, documented to always be at least 1.
#[verifier::external_body]
pub fn cpu_count() -> (n: usize)
    ensures
        1 <= n,
{
    num_cpus::get()
}

/// A requested thread count of zero means "unspecified": it must never
/// reach the engine as a literal zero.
pub open spec fn spec_sanitize_threads(requested: Option<u16>) -> Option<u16> {
    match requested {
        Some(t) => if t == 0 {
            None
        } else {
            Some(t)
        },
        None => None,
    }
}

/// Sanitize the requested engine thread count.
pub fn sanitize_threads(requested: Option<u16>) -> (r: Option<u16>)
    ensures
        r == spec_sanitize_threads(requested),
        r != Some(0u16),
{
    match requested {
        Some(0) => None,
        t => t,
    }
}

/// The parameter set handed to the recognition engine.
pub struct EngineParams {
    /// Beam width for beam-search decoding.
    pub beam_size: i32,
    /// Worker threads; never zero.
    pub threads: i32,
    pub translate: bool,
    pub word_timestamps: bool,
    pub initial_prompt: Option<String>,
    pub language: Option<String>,
}

/// A CPU count narrowed into the engine's signed 32-bit parameter
/// space.
pub open spec fn spec_clamped_cpus(cpus: int) -> int {
    if cpus > 0x7fffffff {
        0x7fffffff
    } else {
        cpus
    }
}

/// Plan the engine parameter set from the transcription options.
///
/// The thread count is sanitized: an absent or zero request falls back
/// to the machine's CPU count, so the engine never sees zero. The beam
/// width defaults to 5 and a requested width is capped by the CPU
/// count.
pub fn plan_engine_params(options: TranscribeOptions, beam_size: Option<i32>, cpus: usize) -> (p:
    EngineParams)
    requires
        1 <= cpus,
    ensures
        p.threads != 0,
        1 <= p.threads,
        ({
            let sane = spec_sanitize_threads(options.threads);
            &&& sane matches Some(t) ==> p.threads == t as int
            &&& sane is None ==> p.threads == spec_clamped_cpus(cpus as int)
        }),
        ({
            let c = spec_clamped_cpus(cpus as int);
            &&& beam_size is None ==> p.beam_size == 5
            &&& beam_size matches Some(d) ==> p.beam_size == if d < c {
                d as int
            } else {
                c
            }
        }),
        p.translate == (options.translate == Some(true)),
        p.word_timestamps == (options.individual_word_timestamps == Some(true)),
        p.initial_prompt == options.initial_prompt,
        p.language == options.language,
{
    let cpu_i32: i32 = if cpus > 0x7fffffff {
        0x7fffffff
    } else {
        cpus as i32
    };
    let threads: i32 = match sanitize_threads(options.threads) {
        Some(t) => t as i32,
        None => cpu_i32,
    };
    let beam: i32 = match beam_size {
        Some(d) => if d < cpu_i32 {
            d
        } else {
            cpu_i32
        },
        None => 5,
    };
    let translate = match options.translate {
        Some(true) => true,
        _ => false,
    };
    let word_timestamps = match options.individual_word_timestamps {
        Some(true) => true,
        _ => false,
    };
    EngineParams {
        beam_size: beam,
        threads,
        translate,
        word_timestamps,
        initial_prompt: options.initial_prompt,
        language: options.language,
    }
}

/// Atomically take the capture buffer's contents together with its
/// recorded tag, and condition them into canonical engine input.
///
/// The buffer is left empty with its tag intact, so chunks appended
/// for a newer session are never lost.
pub fn drain_and_condition(
    buf: &mut CaptureBuffer,
    options: &AudioProcessingOptions,
    denoiser: &mut Denoiser,
) -> (r: PcmBuffer)
    requires
        old(buf).channels >= 1,
        old(buf).sample_rate >= 1,
        old(buf).samples@.len() * 16000 <= usize::MAX,
    ensures
        final(buf).samples@ == Seq::<i16>::empty(),
        final(buf).channels == old(buf).channels,
        final(buf).sample_rate == old(buf).sample_rate,
        r.channels == 1,
        r.sample_rate == 16000,
        r.wf(),
        !options.spec_denoise() ==> r.samples@ == conditioned_passthrough(
            old(buf).samples@,
            old(buf).channels as int,
            old(buf).sample_rate as int,
            *options,
        ),
        options.spec_denoise() ==> r.samples@.len() == conditioned_denoised_len(
            old(buf).samples@.len() as int,
            old(buf).channels as int,
            old(buf).sample_rate as int,
        ),
{
    let (samples, channels, sample_rate) = buf.drain();
    condition_samples(samples, channels, sample_rate, options, denoiser)
}

/// Whether a token text is a special engine marker (it opens with
/// `[_`) that word-level output drops.
pub fn is_special_token(text: &String) -> (b: bool)
    ensures
        b == (text@.len() >= 2 && text@[0] == '[' && text@[1] == '_'),
{
    let s = text.as_str();
    if s.unicode_len() < 2 {
        false
    } else {
        s.get_char(0) == '[' && s.get_char(1) == '_'
    }
}

/// Package the engine's segments into a transcript.
pub fn build_transcript(
    utterances: Vec<Utterance>,
    word_utterances: Option<Vec<Utterance>>,
    processing_time_ms: u64,
) -> (t: Transcript)
    ensures
        t.utterances == utterances,
        t.word_utterances == word_utterances,
        t.processing_time_ms == processing_time_ms,
{
    Transcript { utterances, word_utterances, processing_time_ms }
}

/// Render a transcript in the requested format (plain text when no
/// format was requested), paired with the processing duration.
pub fn format_transcript(transcript: &Transcript, format: Option<TranscriptionFormat>) -> (r: (
    String,
    u64,
))
    ensures
        r.1 == transcript.processing_time_ms,
        ({
            let f = match format {
                Some(f) => f,
                None => TranscriptionFormat::Text,
            };
            &&& f is Text ==> r.0@ == texts_from(transcript.utterances@, 0)
            &&& f is SRT ==> r.0@ == srt_from(transcript.utterances@, 0)
            &&& f is VTT ==> r.0@ == "WEBVTT\n\n"@ + vtt_from(transcript.utterances@, 0)
        }),
{
    let f = match format {
        Some(f) => f,
        None => TranscriptionFormat::Text,
    };
    (f.convert_transcript(transcript), transcript.processing_time_ms)
}

} // verus!
