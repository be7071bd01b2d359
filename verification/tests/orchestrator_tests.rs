//! Tests for the orchestrator, transcript rendering, option types,
//! sound bank, events and host-facing decisions.

use super_mouse_ai::capture::{CaptureBuffer, CaptureController};
use super_mouse_ai::denoise::Denoiser;
use super_mouse_ai::events::{is_modkey, ModKeyPayload, MouseMoveEvent, TranscriptionProgressEvent};
use super_mouse_ai::hardware::{
    effective_vram_bytes, model_is_apple, paste_modifier_for_os, placeholder_device_name,
    PasteModifier,
};
use super_mouse_ai::options::{
    AudioProcessingOptions, TextPostProcessing, TextProcessOptions, TranscribeOptions,
    TranscriptionFormat,
};
use super_mouse_ai::orchestrator::{
    build_transcript, cpu_count, drain_and_condition, format_transcript, is_special_token,
    plan_engine_params, sanitize_threads,
};
use super_mouse_ai::soundmap::InnerSoundMapState;
use super_mouse_ai::transcript::{render_u64, Transcript, Utterance};

fn utt(start: i64, stop: i64, text: &str) -> Utterance {
    Utterance { start, stop, text: text.to_string() }
}

// A requested thread count of zero never reaches the engine: it is
// treated as unspecified and falls back to the CPU count.
#[test]
fn zero_threads_is_sanitized() {
    assert_eq!(sanitize_threads(Some(0)), None);
    assert_eq!(sanitize_threads(Some(4)), Some(4));
    assert_eq!(sanitize_threads(None), None);

    let mut opts = TranscribeOptions::default();
    opts.threads = Some(0);
    let p = plan_engine_params(opts, None, 8);
    assert_ne!(p.threads, 0);
    assert_eq!(p.threads, 8);

    let mut opts2 = TranscribeOptions::default();
    opts2.threads = Some(3);
    let p2 = plan_engine_params(opts2, None, 8);
    assert_eq!(p2.threads, 3);
}

#[test]
fn engine_params_beam_and_flags() {
    let mut opts = TranscribeOptions::default();
    opts.translate = Some(true);
    opts.individual_word_timestamps = Some(true);
    opts.language = Some("en".to_string());
    let p = plan_engine_params(opts, None, 4);
    assert_eq!(p.beam_size, 5);
    assert!(p.translate);
    assert!(p.word_timestamps);
    assert_eq!(p.language.as_deref(), Some("en"));

    let p2 = plan_engine_params(TranscribeOptions::default(), Some(100), 4);
    assert_eq!(p2.beam_size, 4);
    let p3 = plan_engine_params(TranscribeOptions::default(), Some(2), 4);
    assert_eq!(p3.beam_size, 2);
}

#[test]
fn cpu_count_is_positive() {
    assert!(cpu_count() >= 1);
}

#[test]
fn special_tokens_are_recognized() {
    assert!(is_special_token(&"[_BEG_]".to_string()));
    assert!(!is_special_token(&"hello".to_string()));
    assert!(!is_special_token(&"[".to_string()));
    assert!(!is_special_token(&"".to_string()));
}

#[test]
fn transcript_as_text_joins_with_newlines() {
    let t = build_transcript(vec![utt(0, 50, "first"), utt(50, 100, "second")], None, 12);
    assert_eq!(t.as_text(), "first\nsecond");
    assert_eq!(t.processing_time_ms, 12);
}

#[test]
fn transcript_srt_exact_rendering() {
    let t = build_transcript(vec![utt(0, 100, "hello"), utt(100, 365, "there")], None, 0);
    let expected = "1\n00:00:00,000 --> 00:00:01,000\nhello\n\n\
                    2\n00:00:01,000 --> 00:00:03,650\nthere\n\n";
    assert_eq!(t.as_srt(), expected);
}

#[test]
fn transcript_vtt_exact_rendering() {
    let t = build_transcript(vec![utt(-5, 360000, "x")], None, 0);
    // A negative start clamps to zero; an hour boundary carries.
    let expected = "WEBVTT\n\n00:00:00.000 --> 01:00:00.000\nx\n\n";
    assert_eq!(t.as_vtt(), expected);
}

#[test]
fn format_transcript_dispatches_and_defaults_to_text() {
    let t = build_transcript(vec![utt(0, 100, "a")], None, 9);
    let (text, ms) = format_transcript(&t, None);
    assert_eq!(text, "a");
    assert_eq!(ms, 9);
    let (srt, _) = format_transcript(&t, Some(TranscriptionFormat::SRT));
    assert_eq!(srt, "1\n00:00:00,000 --> 00:00:01,000\na\n\n");
    let (vtt, _) = format_transcript(&t, Some(TranscriptionFormat::VTT));
    assert!(vtt.starts_with("WEBVTT\n\n"));
}

#[test]
fn convert_transcript_matches_direct_calls() {
    let t = Transcript {
        utterances: vec![utt(0, 100, "a"), utt(100, 200, "b")],
        word_utterances: None,
        processing_time_ms: 1,
    };
    assert_eq!(TranscriptionFormat::Text.convert_transcript(&t), t.as_text());
    assert_eq!(TranscriptionFormat::SRT.convert_transcript(&t), t.as_srt());
    assert_eq!(TranscriptionFormat::VTT.convert_transcript(&t), t.as_vtt());
}

#[test]
fn render_u64_decimal() {
    assert_eq!(render_u64(0), "0");
    assert_eq!(render_u64(7), "7");
    assert_eq!(render_u64(1234567890), "1234567890");
}

#[test]
fn drain_and_condition_empties_buffer() {
    let mut buf = CaptureBuffer::new();
    let mut ctl = CaptureController::new(true);
    let s = ctl.start_capture();
    let chunk: Vec<i16> = (0..960).map(|i| (i % 100) as i16 * 50).collect();
    assert!(ctl.accept_chunk(&mut buf, &chunk, s.started));

    let opts = AudioProcessingOptions {
        normalize_result: None,
        denoise_audio: Some(false),
        low_pass_value: None,
        high_pass_value: None,
    };
    let mut d = Denoiser::new();
    let out = drain_and_condition(&mut buf, &opts, &mut d);
    assert!(buf.samples.is_empty());
    assert_eq!(buf.sample_rate, 48000);
    assert_eq!(out.channels, 1);
    assert_eq!(out.sample_rate, 16000);
    assert_eq!(out.samples.len(), 960 * 16000 / 48000);
}

#[test]
fn into_options_maps_choices() {
    assert_eq!(TextPostProcessing::Skip.into_options(), None);
    assert_eq!(
        TextPostProcessing::Default.into_options(),
        Some(TextProcessOptions::default())
    );
    let custom = TextProcessOptions {
        removed_words: Some(vec!["um".to_string()]),
        decorated_words: None,
        replace_inter_sentence_newlines: Some(false),
    };
    assert_eq!(
        TextPostProcessing::Custom(custom.clone()).into_options(),
        Some(custom)
    );
}

#[test]
fn audio_options_defaults() {
    let o = AudioProcessingOptions::default();
    assert!(!o.normalize_enabled());
    assert!(o.denoise_enabled());
    assert_eq!(o.low_pass(), 3000);
    assert_eq!(o.high_pass(), 200);
}

#[test]
fn sound_map_lookup_and_fallback() {
    let mut bank = InnerSoundMapState::with_map(vec![
        ("default_alert".to_string(), "/sounds/alert.mp3".to_string()),
    ]);
    // Direct name is missing, the default_ fallback is found.
    assert_eq!(
        bank.get_sound_path(&"alert".to_string()),
        Some(&"/sounds/alert.mp3".to_string())
    );
    assert_eq!(bank.get_sound_path(&"missing".to_string()), None);

    bank.insert_with_default("start".to_string(), "/sounds/start.mp3".to_string());
    assert_eq!(
        bank.get_sound_path(&"start".to_string()),
        Some(&"/sounds/start.mp3".to_string())
    );
    assert_eq!(
        bank.get_sound_path(&"default_start".to_string()),
        Some(&"/sounds/start.mp3".to_string())
    );
}

#[test]
fn modifier_keys_are_classified() {
    for name in [
        "Command", "LAlt", "LControl", "LMeta", "LOption", "LShift", "RAlt", "RControl",
        "RMeta", "ROption", "RShift",
    ] {
        assert!(is_modkey(&name.to_string()), "{name} is a modifier");
    }
    assert!(!is_modkey(&"KeyA".to_string()));
    assert!(!is_modkey(&"Space".to_string()));
}

#[test]
fn event_payload_builders() {
    let p = ModKeyPayload::pressed("LShift".to_string());
    assert!(p.is_pressed);
    assert_eq!(p.key, "LShift");
    let r = ModKeyPayload::released("LShift".to_string());
    assert!(!r.is_pressed);
    let m = MouseMoveEvent::with_payload(10, -4);
    assert_eq!((m.x, m.y), (10, -4));
    let t = TranscriptionProgressEvent::with_payload(55);
    assert_eq!(t.0, 55);
}

#[test]
fn paste_modifier_by_os() {
    assert_eq!(
        paste_modifier_for_os(&"macos".to_string()),
        Some(PasteModifier::Meta)
    );
    assert_eq!(
        paste_modifier_for_os(&"linux".to_string()),
        Some(PasteModifier::Control)
    );
    assert_eq!(
        paste_modifier_for_os(&"windows".to_string()),
        Some(PasteModifier::Control)
    );
    assert_eq!(paste_modifier_for_os(&"redox".to_string()), None);
}

#[test]
fn vram_reporting_rules() {
    assert_eq!(effective_vram_bytes(0, true, 16_000_000_000), 16_000_000_000);
    assert_eq!(effective_vram_bytes(0, false, 16_000_000_000), 0);
    assert_eq!(effective_vram_bytes(8_000_000_000, true, 16_000_000_000), 8_000_000_000);
    assert!(model_is_apple(&"Apple M2".to_string()));
    assert!(!model_is_apple(&"GeForce".to_string()));
}

#[test]
fn device_placeholder_name() {
    assert_eq!(placeholder_device_name(0), "Unknown Input Device #1");
    assert_eq!(placeholder_device_name(41), "Unknown Input Device #42");
}
