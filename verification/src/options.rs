//! Option records handed to the conditioning pipeline and the
//! transcription orchestrator, and small shared enums.

use vstd::prelude::*;

verus! {

/// Options for conditioning audio before inference.
///
/// Every field is optional; an absent field takes the documented default:
/// `normalize_result` false, `denoise_audio` true, `low_pass_value` 3000,
/// `high_pass_value` 200.
#[derive(Clone, Copy, Debug, PartialEq, Eq)]
pub struct AudioProcessingOptions {
    /// Whether to normalize peak amplitude, both before denoising and
    /// after the final resample. Defaults to `false`.
    pub normalize_result: Option<bool>,
    /// Whether to run the spectral denoiser. Defaults to `true`.
    pub denoise_audio: Option<bool>,
    /// Low-pass cutoff in Hz (maximum frequency kept). Defaults to `3000`.
    pub low_pass_value: Option<u32>,
    /// High-pass cutoff in Hz (minimum frequency kept). Defaults to `200`.
    pub high_pass_value: Option<u32>,
}

impl AudioProcessingOptions {
    /// Whether normalization is requested once defaults are applied.
    pub open spec fn spec_normalize(self) -> bool {
        match self.normalize_result {
            Some(b) => b,
            None => false,
        }
    }

    /// Whether denoising is requested once defaults are applied.
    pub open spec fn spec_denoise(self) -> bool {
        match self.denoise_audio {
            Some(b) => b,
            None => true,
        }
    }

    /// The effective low-pass cutoff once defaults are applied.
    pub open spec fn spec_low_pass(self) -> u32 {
        match self.low_pass_value {
            Some(v) => v,
            None => 3000u32,
        }
    }

    /// The effective high-pass cutoff once defaults are applied.
    pub open spec fn spec_high_pass(self) -> u32 {
        match self.high_pass_value {
            Some(v) => v,
            None => 200u32,
        }
    }

    pub fn normalize_enabled(&self) -> (b: bool)
        ensures
            b == self.spec_normalize(),
    {
        match self.normalize_result {
            Some(b) => b,
            None => false,
        }
    }

    pub fn denoise_enabled(&self) -> (b: bool)
        ensures
            b == self.spec_denoise(),
    {
        match self.denoise_audio {
            Some(b) => b,
            None => true,
        }
    }

    pub fn low_pass(&self) -> (v: u32)
        ensures
            v == self.spec_low_pass(),
    {
        match self.low_pass_value {
            Some(v) => v,
            None => 3000,
        }
    }

    pub fn high_pass(&self) -> (v: u32)
        ensures
            v == self.spec_high_pass(),
    {
        match self.high_pass_value {
            Some(v) => v,
            None => 200,
        }
    }
}

impl Default for AudioProcessingOptions {
    /// All fields absent, so every stage takes its documented default.
    fn default() -> (r: Self)
        ensures
            r.normalize_result is None,
            r.denoise_audio is None,
            r.low_pass_value is None,
            r.high_pass_value is None,
    {
        AudioProcessingOptions {
            normalize_result: None,
            denoise_audio: None,
            low_pass_value: None,
            high_pass_value: None,
        }
    }
}

/// Output format for a finished transcription.
#[derive(Clone, Copy, Debug, PartialEq, Eq)]
pub enum TranscriptionFormat {
    Text,
    SRT,
    VTT,
}

impl Default for TranscriptionFormat {
    fn default() -> (r: Self)
        ensures
            r is Text,
    {
        TranscriptionFormat::Text
    }
}

/// Options for the transcription call itself. All fields are optional.
#[derive(Clone, Debug, PartialEq, Eq)]
pub struct TranscribeOptions {
    pub translate: Option<bool>,
    pub individual_word_timestamps: Option<bool>,
    pub threads: Option<u16>,
    pub initial_prompt: Option<String>,
    pub language: Option<String>,
    pub format: Option<TranscriptionFormat>,
    pub include_callback: Option<bool>,
}

impl Default for TranscribeOptions {
    fn default() -> (r: Self)
        ensures
            r.translate is None,
            r.individual_word_timestamps is None,
            r.threads is None,
            r.initial_prompt is None,
            r.language is None,
            r.format is None,
            r.include_callback is None,
    {
        TranscribeOptions {
            translate: None,
            individual_word_timestamps: None,
            threads: None,
            initial_prompt: None,
            language: None,
            format: None,
            include_callback: None,
        }
    }
}

/// Ways a word can be decorated by the external post-processing stage.
#[derive(Clone, Copy, Debug, PartialEq, Eq)]
pub enum TextDecoration {
    Bold,
    Italics,
    Underline,
    Strikethrough,
    Mark,
}

/// Options for the external text post-processing stage.
#[derive(Clone, Debug, PartialEq, Eq)]
pub struct TextProcessOptions {
    /// Words that will be removed from the transcript.
    pub removed_words: Option<Vec<String>>,
    /// Words to wrap in a decoration without changing their meaning.
    pub decorated_words: Option<Vec<(TextDecoration, String)>>,
    pub replace_inter_sentence_newlines: Option<bool>,
}

impl Default for TextProcessOptions {
    fn default() -> (r: Self)
        ensures
            r.removed_words is None,
            r.decorated_words is None,
            r.replace_inter_sentence_newlines is None,
    {
        TextProcessOptions {
            removed_words: None,
            decorated_words: None,
            replace_inter_sentence_newlines: None,
        }
    }
}

/// Choice of text post-processing after a transcription.
#[derive(Clone, Debug, PartialEq, Eq)]
pub enum TextPostProcessing {
    Skip,
    Default,
    Custom(TextProcessOptions),
}

impl TextPostProcessing {
    /// Turn the choice into concrete options: `None` when skipped, the
    /// default options for `Default`, and the given options for `Custom`.
    pub fn into_options(self) -> (r: Option<TextProcessOptions>)
        ensures
            self is Skip <==> r is None,
            self is Default ==> {
                &&& r matches Some(o)
                &&& o.removed_words is None
                &&& o.decorated_words is None
                &&& o.replace_inter_sentence_newlines is None
            },
            self matches TextPostProcessing::Custom(o) ==> r == Some(o),
    {
        match self {
            TextPostProcessing::Skip => None,
            TextPostProcessing::Default => Some(TextProcessOptions::default()),
            TextPostProcessing::Custom(o) => Some(o),
        }
    }
}

/// Whether the microphone is currently being captured.
#[derive(Clone, Copy, Debug, PartialEq, Eq)]
pub enum RecordingState {
    Stopped,
    Recording,
}

/// The mouse button a global click event reports.
#[derive(Clone, Copy, Debug, PartialEq, Eq)]
pub enum MouseButtonType {
    Left,
    Middle,
    Right,
}

} // verus!
