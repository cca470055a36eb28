//! The transcript data model and its three renderings.
//!
//! A [`Transcript`] holds the recognized speech of one transcription run:
//! per-segment utterances, optionally per-token word utterances, and the
//! wall-clock processing time. The renderings are pure functions of the
//! segment utterances alone; they never consult the word utterances.
//!
//! Rendering rules fixed here:
//! - plain text: each utterance's text trimmed of ASCII whitespace, joined by
//!   a single space, with no timestamps or indices;
//! - SRT: for each utterance a 1-based index line, a
//!   `HH:MM:SS,mmm --> HH:MM:SS,mmm` line, the raw text, and a blank line;
//! - VTT: a `WEBVTT` header line and a blank line, then for each utterance a
//!   `HH:MM:SS.mmm --> HH:MM:SS.mmm` line, the raw text, and a blank line.

use vstd::prelude::*;

use crate::strutil::{spec_trim, str_eq, trim_ascii};
use crate::timefmt::{push_dec, push_timestamp, spec_dec, spec_timestamp};

verus! {

/// One contiguous span of recognized speech, with its start and stop time in
/// centiseconds (the engine's native unit).
#[derive(Debug)]
pub struct Utterance {
    pub text: String,
    pub start: i64,
    pub stop: i64,
}

impl Utterance {
    /// Times are non-negative offsets and the span does not run backwards.
    pub open spec fn wf(self) -> bool {
        0 <= self.start && self.start <= self.stop
    }
}

/// Every utterance in the sequence is well formed.
pub open spec fn all_wf(us: Seq<Utterance>) -> bool {
    forall|i: int| 0 <= i < us.len() ==> us[i].wf()
}

/// The sequence is ordered by non-decreasing start time.
pub open spec fn starts_ordered(us: Seq<Utterance>) -> bool {
    forall|i: int| 0 <= i < us.len() - 1 ==> #[trigger] us[i].start <= us[i + 1].start
}

/// The result of one successful transcription run.
#[derive(Debug)]
pub struct Transcript {
    /// Recognized speech, one entry per engine segment, in segment order.
    pub utterances: Vec<Utterance>,
    /// Word-level entries, present if and only if word-level timestamps were
    /// requested for the run.
    pub word_utterances: Option<Vec<Utterance>>,
    /// Wall-clock time the run took, in milliseconds.
    pub processing_time_ms: u64,
}

impl Transcript {
    /// The transcript invariant: at least one utterance, every utterance well
    /// formed, utterances ordered by start time, and any word-level entries
    /// well formed.
    pub open spec fn wf(self) -> bool {
        &&& self.utterances@.len() >= 1
        &&& all_wf(self.utterances@)
        &&& starts_ordered(self.utterances@)
        &&& (self.word_utterances matches Some(ws) ==> all_wf(ws@))
    }
}

/// The plain-text rendering of the utterances from position `i` on: trimmed
/// texts joined by single spaces.
pub open spec fn spec_text_from(us: Seq<Utterance>, i: int) -> Seq<char>
    decreases us.len() - i,
{
    if i < 0 || i >= us.len() {
        Seq::empty()
    } else if i == us.len() - 1 {
        spec_trim(us[i].text@)
    } else {
        spec_trim(us[i].text@) + " "@ + spec_text_from(us, i + 1)
    }
}

/// The plain-text rendering of a transcript's utterances.
pub open spec fn spec_text(us: Seq<Utterance>) -> Seq<char> {
    spec_text_from(us, 0)
}

/// One SRT block: index line, timestamp line, raw text, blank separator.
pub open spec fn spec_srt_block(u: Utterance, idx: nat) -> Seq<char> {
    spec_dec(idx) + "\n"@ + spec_timestamp(u.start as int, true) + " --> "@ + spec_timestamp(
        u.stop as int,
        true,
    ) + "\n"@ + u.text@ + "\n\n"@
}

/// The SRT blocks of the utterances from position `i` on, numbered from
/// `i + 1`.
pub open spec fn spec_srt_from(us: Seq<Utterance>, i: int) -> Seq<char>
    decreases us.len() - i,
{
    if i < 0 || i >= us.len() {
        Seq::empty()
    } else {
        spec_srt_block(us[i], (i + 1) as nat) + spec_srt_from(us, i + 1)
    }
}

/// The SRT rendering of a transcript's utterances, indices restarting at 1.
pub open spec fn spec_srt(us: Seq<Utterance>) -> Seq<char> {
    spec_srt_from(us, 0)
}

/// One VTT cue: timestamp line with a period separator, raw text, blank
/// separator.
pub open spec fn spec_vtt_block(u: Utterance) -> Seq<char> {
    spec_timestamp(u.start as int, false) + " --> "@ + spec_timestamp(u.stop as int, false) + "\n"@
        + u.text@ + "\n\n"@
}

/// The VTT cues of the utterances from position `i` on.
pub open spec fn spec_vtt_from(us: Seq<Utterance>, i: int) -> Seq<char>
    decreases us.len() - i,
{
    if i < 0 || i >= us.len() {
        Seq::empty()
    } else {
        spec_vtt_block(us[i]) + spec_vtt_from(us, i + 1)
    }
}

/// The VTT rendering: the `WEBVTT` header line, a blank line, then the cues.
pub open spec fn spec_vtt(us: Seq<Utterance>) -> Seq<char> {
    "WEBVTT\n\n"@ + spec_vtt_from(us, 0)
}

/// Law: a VTT rendering always begins with the literal header line `WEBVTT`,
/// whatever the utterances are.
pub proof fn lemma_vtt_starts_with_header(us: Seq<Utterance>)
    ensures
        spec_vtt(us).len() >= 7,
        spec_vtt(us).subrange(0, 7) == "WEBVTT\n"@,
{
    reveal_strlit("WEBVTT\n\n");
    reveal_strlit("WEBVTT\n");
    assert(spec_vtt(us).subrange(0, 7) =~= "WEBVTT\n"@);
}

impl Transcript {
    /// The plain-text rendering: trimmed utterance texts joined by single
    /// spaces.
    pub fn as_text(&self) -> (r: String)
        ensures
            r@ == spec_text(self.utterances@),
    {
        let mut out = String::new();
        let n = self.utterances.len();
        let mut i: usize = 0;
        while i < n
            invariant
                i <= n,
                n == self.utterances@.len(),
                spec_text(self.utterances@) == out@ + spec_text_from(self.utterances@, i as int),
            decreases n - i,
    {
            let ghost prev = out@;
            let t = trim_ascii(self.utterances[i].text.as_str());
            out.append(t);
            if i + 1 < n {
                out.append(" ");
                proof {
                    assert(prev + spec_text_from(self.utterances@, i as int) =~= out@
                        + spec_text_from(self.utterances@, i as int + 1));
                }
            } else {
                proof {
                    assert(prev + spec_text_from(self.utterances@, i as int) =~= out@
                        + spec_text_from(self.utterances@, i as int + 1));
                }
            }
            i = i + 1;
        }
        proof {
            assert(out@ + spec_text_from(self.utterances@, n as int) =~= out@);
        }
        out
    }

    /// The SRT rendering: 1-based index, `HH:MM:SS,mmm --> HH:MM:SS,mmm`
    /// line, text, blank line, for each utterance in order.
    pub fn as_srt(&self) -> (r: String)
        requires
            all_wf(self.utterances@),
        ensures
            r@ == spec_srt(self.utterances@),
    {
        let mut out = String::new();
        let n = self.utterances.len();
        let mut i: usize = 0;
        while i < n
            invariant
                i <= n,
                n == self.utterances@.len(),
                all_wf(self.utterances@),
                spec_srt(self.utterances@) == out@ + spec_srt_from(self.utterances@, i as int),
            decreases n - i,
        {
            let ghost prev = out@;
            let u = &self.utterances[i];
            push_dec(&mut out, (i + 1) as u64);
            out.append("\n");
            push_timestamp(&mut out, u.start, true);
            out.append(" --> ");
            push_timestamp(&mut out, u.stop, true);
            out.append("\n");
            out.append(u.text.as_str());
            out.append("\n\n");
            proof {
                let us = self.utterances@;
                assert(out@ =~= prev + spec_srt_block(us[i as int], (i + 1) as nat));
                assert(prev + spec_srt_from(us, i as int) =~= (prev + spec_srt_block(
                    us[i as int],
                    (i + 1) as nat,
                )) + spec_srt_from(us, i as int + 1));
            }
            i = i + 1;
        }
        proof {
            assert(out@ + spec_srt_from(self.utterances@, n as int) =~= out@);
        }
        out
    }

    /// The VTT rendering: the `WEBVTT` header, a blank line, then for each
    /// utterance a `HH:MM:SS.mmm --> HH:MM:SS.mmm` line, text, blank line.
    pub fn as_vtt(&self) -> (r: String)
        requires
            all_wf(self.utterances@),
        ensures
            r@ == spec_vtt(self.utterances@),
    {
        let mut out = String::new();
        out.append("WEBVTT\n\n");
        let n = self.utterances.len();
        let mut i: usize = 0;
        while i < n
            invariant
                i <= n,
                n == self.utterances@.len(),
                all_wf(self.utterances@),
                spec_vtt(self.utterances@) == out@ + spec_vtt_from(self.utterances@, i as int),
            decreases n - i,
        {
            let ghost prev = out@;
            let u = &self.utterances[i];
            push_timestamp(&mut out, u.start, false);
            out.append(" --> ");
            push_timestamp(&mut out, u.stop, false);
            out.append("\n");
            out.append(u.text.as_str());
            out.append("\n\n");
            proof {
                let us = self.utterances@;
                assert(out@ =~= prev + spec_vtt_block(us[i as int]));
                assert(prev + spec_vtt_from(us, i as int) =~= (prev + spec_vtt_block(us[i as int]))
                    + spec_vtt_from(us, i as int + 1));
            }
            i = i + 1;
        }
        proof {
            assert(out@ + spec_vtt_from(self.utterances@, n as int) =~= out@);
        }
        out
    }
}

/// The rendering a command-line caller gets for a `response_format` choice:
/// `srt` and `vtt` select themselves; an absent or any other value selects
/// plain text.
pub open spec fn spec_cli_rendering(us: Seq<Utterance>, format: Option<&str>) -> Seq<char> {
    match format {
        Some(f) => if f@ == "srt"@ {
            spec_srt(us)
        } else if f@ == "vtt"@ {
            spec_vtt(us)
        } else {
            spec_text(us)
        },
        None => spec_text(us),
    }
}

impl Transcript {
    /// Decides whether every utterance satisfies the time invariant the
    /// renderings rely on; callers outside verified code test this before
    /// rendering.
    pub fn times_valid(&self) -> (r: bool)
        ensures
            r == all_wf(self.utterances@),
    {
        let n = self.utterances.len();
        let mut i: usize = 0;
        while i < n
            invariant
                i <= n,
                n == self.utterances@.len(),
                forall|k: int| 0 <= k < i ==> self.utterances@[k].wf(),
            decreases n - i,
        {
            let u = &self.utterances[i];
            if !(0 <= u.start && u.start <= u.stop) {
                assert(!self.utterances@[i as int].wf());
                return false;
            }
            i = i + 1;
        }
        true
    }

    /// Renders this transcript in the format named by `format`: `srt`,
    /// `vtt`, or — for an absent or unrecognized value — plain text.
    pub fn render(&self, format: Option<&str>) -> (r: String)
        requires
            all_wf(self.utterances@),
        ensures
            r@ == spec_cli_rendering(self.utterances@, format),
    {
        match format {
            Some(f) => {
                if str_eq(f, "srt") {
                    self.as_srt()
                } else if str_eq(f, "vtt") {
                    self.as_vtt()
                } else {
                    self.as_text()
                }
            },
            None => self.as_text(),
        }
    }
}

} // verus!
