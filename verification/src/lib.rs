//! Core of a voice-to-text assistant.
//!
//! The library covers three tightly coupled pieces: the audio conditioning
//! pipeline (decode, denoise, resample with band-pass filtering, normalize),
//! the microphone capture state machine, and the transcription-model
//! lifecycle manager, together with the small option and event types the
//! surrounding application exchanges with them.
//!
//! Samples are kept in the signed 16-bit integer amplitude domain
//! throughout; the inference engine's float representation is obtained by
//! the caller at the engine boundary.

pub mod capture;
pub mod denoise;
pub mod dsp;
pub mod events;
pub mod hardware;
pub mod model;
pub mod options;
pub mod orchestrator;
pub mod pcm;
pub mod pipeline;
pub mod resample;
pub mod soundmap;
pub mod transcript;
pub mod wav;
