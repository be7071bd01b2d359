//! Transcript data and its text renderings.
//!
//! A transcript is an ordered sequence of utterances with start/stop
//! offsets in centiseconds plus a processing-duration measurement,
//! optionally with word-level utterances. It converts to plain text or
//! to the SRT / VTT subtitle formats without losing the timing data;
//! the renderings, including decimal and timestamp formatting, are
//! verified character by character.

use vstd::prelude::*;
use vstd::arithmetic::div_mod::{lemma_div_is_ordered, lemma_mod_bound};
use crate::options::TranscriptionFormat;

verus! {

/// One recognized segment: text with start/stop offsets in
/// centiseconds.
#[derive(Debug, Clone)]
pub struct Utterance {
    pub start: i64,
    pub stop: i64,
    pub text: String,
}

/// A finished transcription: segments, optional word-level segments,
/// and how long inference took.
#[derive(Debug, Clone)]
pub struct Transcript {
    pub utterances: Vec<Utterance>,
    pub word_utterances: Option<Vec<Utterance>>,
    pub processing_time_ms: u64,
}

/// The decimal digit character for `d`.
pub open spec fn digit_lit(d: int) -> Seq<char> {
    if d == 0 {
        "0"@
    } else if d == 1 {
        "1"@
    } else if d == 2 {
        "2"@
    } else if d == 3 {
        "3"@
    } else if d == 4 {
        "4"@
    } else if d == 5 {
        "5"@
    } else if d == 6 {
        "6"@
    } else if d == 7 {
        "7"@
    } else if d == 8 {
        "8"@
    } else {
        "9"@
    }
}

/// The decimal rendering of a nonnegative number.
pub open spec fn dec_seq(n: int) -> Seq<char>
    decreases n,
{
    if n < 10 {
        digit_lit(n)
    } else {
        dec_seq(n / 10) + digit_lit(n % 10)
    }
}

/// Decimal rendering padded to at least two digits.
pub open spec fn pad2_seq(n: int) -> Seq<char> {
    if n < 10 {
        "0"@ + dec_seq(n)
    } else {
        dec_seq(n)
    }
}

/// Decimal rendering padded to at least three digits.
pub open spec fn pad3_seq(n: int) -> Seq<char> {
    if n < 10 {
        "00"@ + dec_seq(n)
    } else if n < 100 {
        "0"@ + dec_seq(n)
    } else {
        dec_seq(n)
    }
}

/// `HH:MM:SS<sep>mmm` for a centisecond offset; a negative offset
/// renders as zero.
pub open spec fn ts_seq(cs: int, comma: bool) -> Seq<char> {
    let ms = (if cs < 0 {
        0
    } else {
        cs
    }) * 10;
    pad2_seq(ms / 3600000) + ":"@ + pad2_seq((ms / 60000) % 60) + ":"@ + pad2_seq(
        (ms / 1000) % 60,
    ) + (if comma {
        ","@
    } else {
        "."@
    }) + pad3_seq(ms % 1000)
}

/// The utterance texts from position `i` on, joined by newlines.
pub open spec fn texts_from(us: Seq<Utterance>, i: int) -> Seq<char>
    decreases us.len() - i,
{
    if i < 0 || i >= us.len() {
        Seq::empty()
    } else if i == us.len() - 1 {
        us[i].text@
    } else {
        us[i].text@ + "\n"@ + texts_from(us, i + 1)
    }
}

/// One SRT entry: 1-based index, comma timestamps, text, blank line.
pub open spec fn srt_entry(u: Utterance, idx: int) -> Seq<char> {
    dec_seq(idx) + "\n"@ + ts_seq(u.start as int, true) + " --> "@ + ts_seq(u.stop as int, true)
        + "\n"@ + u.text@ + "\n\n"@
}

/// The SRT entries from position `i` on.
pub open spec fn srt_from(us: Seq<Utterance>, i: int) -> Seq<char>
    decreases us.len() - i,
{
    if i < 0 || i >= us.len() {
        Seq::empty()
    } else {
        srt_entry(us[i], i + 1) + srt_from(us, i + 1)
    }
}

/// One VTT cue: dot timestamps, text, blank line.
pub open spec fn vtt_entry(u: Utterance) -> Seq<char> {
    ts_seq(u.start as int, false) + " --> "@ + ts_seq(u.stop as int, false) + "\n"@ + u.text@
        + "\n\n"@
}

/// The VTT cues from position `i` on.
pub open spec fn vtt_from(us: Seq<Utterance>, i: int) -> Seq<char>
    decreases us.len() - i,
{
    if i < 0 || i >= us.len() {
        Seq::empty()
    } else {
        vtt_entry(us[i]) + vtt_from(us, i + 1)
    }
}

/// The single digit `d` as a string slice.
fn digit_str(d: u64) -> (r: &'static str)
    requires
        d < 10,
    ensures
        r@ == digit_lit(d as int),
{
    if d == 0 {
        "0"
    } else if d == 1 {
        "1"
    } else if d == 2 {
        "2"
    } else if d == 3 {
        "3"
    } else if d == 4 {
        "4"
    } else if d == 5 {
        "5"
    } else if d == 6 {
        "6"
    } else if d == 7 {
        "7"
    } else if d == 8 {
        "8"
    } else {
        "9"
    }
}

/// Append the decimal rendering of `n`.
fn push_dec(out: &mut String, n: u64)
    ensures
        final(out)@ == old(out)@ + dec_seq(n as int),
    decreases n,
{
    if n < 10 {
        out.append(digit_str(n));
    } else {
        push_dec(out, n / 10);
        out.append(digit_str(n % 10));
        proof {
            lemma_mod_bound(n as int, 10);
            assert(out@ =~= old(out)@ + dec_seq(n as int));
        }
    }
}

/// Append `n` padded to at least two digits.
fn push_pad2(out: &mut String, n: u64)
    ensures
        final(out)@ == old(out)@ + pad2_seq(n as int),
{
    if n < 10 {
        out.append("0");
    }
    push_dec(out, n);
    proof {
        assert(out@ =~= old(out)@ + pad2_seq(n as int));
    }
}

/// Append `n` padded to at least three digits.
fn push_pad3(out: &mut String, n: u64)
    ensures
        final(out)@ == old(out)@ + pad3_seq(n as int),
{
    if n < 10 {
        out.append("00");
    } else if n < 100 {
        out.append("0");
    }
    push_dec(out, n);
    proof {
        assert(out@ =~= old(out)@ + pad3_seq(n as int));
    }
}

/// Append the `HH:MM:SS,mmm` (or `.mmm`) rendering of a centisecond
/// offset.
fn push_timestamp(out: &mut String, cs: i64, comma: bool)
    ensures
        final(out)@ == old(out)@ + ts_seq(cs as int, comma),
{
    let nn: u128 = if cs < 0 {
        0
    } else {
        cs as u128
    };
    let ms: u128 = nn * 10;
    proof {
        assert(ms <= 0xffff_ffff_ffff_ffff_ffff);
        lemma_div_is_ordered(ms as int, 0xffff_ffff_ffff_ffff_ffff, 3600000);
        lemma_mod_bound(ms as int / 60000, 60);
        lemma_mod_bound(ms as int / 1000, 60);
        lemma_mod_bound(ms as int, 1000);
        vstd::arithmetic::div_mod::lemma_div_pos_is_pos(ms as int, 3600000);
        vstd::arithmetic::div_mod::lemma_div_pos_is_pos(ms as int, 60000);
        vstd::arithmetic::div_mod::lemma_div_pos_is_pos(ms as int, 1000);
    }
    let h: u64 = (ms / 3600000) as u64;
    let m: u64 = ((ms / 60000) % 60) as u64;
    let s: u64 = ((ms / 1000) % 60) as u64;
    let milli: u64 = (ms % 1000) as u64;
    push_pad2(out, h);
    out.append(":");
    push_pad2(out, m);
    out.append(":");
    push_pad2(out, s);
    if comma {
        out.append(",");
    } else {
        out.append(".");
    }
    push_pad3(out, milli);
    proof {
        assert(out@ =~= old(out)@ + ts_seq(cs as int, comma));
    }
}

impl Transcript {
    /// The utterance texts joined by newlines, timing dropped.
    pub fn as_text(&self) -> (r: String)
        ensures
            r@ == texts_from(self.utterances@, 0),
    {
        let mut out = String::new();
        let n = self.utterances.len();
        let mut i: usize = 0;
        while i < n
            invariant
                n == self.utterances@.len(),
                i <= n,
                out@ + texts_from(self.utterances@, i as int) == texts_from(self.utterances@, 0),
            decreases n - i,
        {
            out.append(self.utterances[i].text.as_str());
            if i + 1 < n {
                out.append("\n");
            }
            i += 1;
            proof {
                assert(out@ + texts_from(self.utterances@, i as int) =~= texts_from(
                    self.utterances@,
                    0,
                ));
            }
        }
        proof {
            assert(out@ =~= texts_from(self.utterances@, 0));
        }
        out
    }

    /// The transcript in SRT subtitle form.
    #[verifier::rlimit(100)]
    #[verifier::spinoff_prover]
    pub fn as_srt(&self) -> (r: String)
        ensures
            r@ == srt_from(self.utterances@, 0),
    {
        let mut out = String::new();
        let n = self.utterances.len();
        let mut i: usize = 0;
        while i < n
            invariant
                n == self.utterances@.len(),
                i <= n,
                out@ + srt_from(self.utterances@, i as int) == srt_from(self.utterances@, 0),
            decreases n - i,
        {
            push_dec(&mut out, (i + 1) as u64);
            out.append("\n");
            push_timestamp(&mut out, self.utterances[i].start, true);
            out.append(" --> ");
            push_timestamp(&mut out, self.utterances[i].stop, true);
            out.append("\n");
            out.append(self.utterances[i].text.as_str());
            out.append("\n\n");
            i += 1;
            proof {
                assert(out@ + srt_from(self.utterances@, i as int) =~= srt_from(
                    self.utterances@,
                    0,
                ));
            }
        }
        proof {
            assert(out@ =~= srt_from(self.utterances@, 0));
        }
        out
    }

    /// The transcript in VTT subtitle form.
    #[verifier::rlimit(100)]
    #[verifier::spinoff_prover]
    pub fn as_vtt(&self) -> (r: String)
        ensures
            r@ == "WEBVTT\n\n"@ + vtt_from(self.utterances@, 0),
    {
        let mut out = String::from_str("WEBVTT\n\n");
        let n = self.utterances.len();
        let mut i: usize = 0;
        while i < n
            invariant
                n == self.utterances@.len(),
                i <= n,
                out@ + vtt_from(self.utterances@, i as int) == "WEBVTT\n\n"@ + vtt_from(
                    self.utterances@,
                    0,
                ),
            decreases n - i,
        {
            push_timestamp(&mut out, self.utterances[i].start, false);
            out.append(" --> ");
            push_timestamp(&mut out, self.utterances[i].stop, false);
            out.append("\n");
            out.append(self.utterances[i].text.as_str());
            out.append("\n\n");
            i += 1;
            proof {
                assert(out@ + vtt_from(self.utterances@, i as int) =~= "WEBVTT\n\n"@ + vtt_from(
                    self.utterances@,
                    0,
                ));
            }
        }
        proof {
            assert(out@ =~= "WEBVTT\n\n"@ + vtt_from(self.utterances@, 0));
        }
        out
    }
}

impl TranscriptionFormat {
    /// Render a transcript in this format.
    pub fn convert_transcript(self, transcript: &Transcript) -> (r: String)
        ensures
            self is Text ==> r@ == texts_from(transcript.utterances@, 0),
            self is SRT ==> r@ == srt_from(transcript.utterances@, 0),
            self is VTT ==> r@ == "WEBVTT\n\n"@ + vtt_from(transcript.utterances@, 0),
    {
        match self {
            TranscriptionFormat::Text => transcript.as_text(),
            TranscriptionFormat::SRT => transcript.as_srt(),
            TranscriptionFormat::VTT => transcript.as_vtt(),
        }
    }
}


/// The decimal rendering of a number as an owned string.
pub fn render_u64(n: u64) -> (r: String)
    ensures
        r@ == dec_seq(n as int),
{
    let mut out = String::new();
    push_dec(&mut out, n);
    out
}

} // verus!
