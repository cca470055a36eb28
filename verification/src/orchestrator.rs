//! Assembly of a [`Transcript`] from raw engine output.
//!
//! The inference engine reports, for one finished run, a list of segments —
//! text with start/stop centiseconds — and, when token-level timestamps were
//! enabled, the tokens inside each segment. This module owns the rules that
//! turn that raw output into the transcript the service returns: zero
//! segments are an explicit error, never an empty transcript; every segment
//! becomes one utterance in order; and word-level entries keep every token
//! except those the engine marks as non-speech with the reserved `[_` text
//! prefix.

use vstd::prelude::*;

use crate::errors::TranscriptionError;
use crate::strutil::{has_marker_prefix, spec_is_marker};
use crate::transcript::{all_wf, starts_ordered, Transcript, Utterance};

verus! {

/// One token the engine emitted inside a segment, with its own span in
/// centiseconds.
#[derive(Debug)]
pub struct Token {
    pub text: String,
    pub start: i64,
    pub stop: i64,
}

impl Token {
    /// Times are non-negative offsets and the span does not run backwards.
    pub open spec fn wf(self) -> bool {
        0 <= self.start && self.start <= self.stop
    }
}

/// One segment of engine output: its text, its span in centiseconds, and its
/// tokens (left empty when token-level timestamps were not enabled).
#[derive(Debug)]
pub struct Segment {
    pub text: String,
    pub start: i64,
    pub stop: i64,
    pub tokens: Vec<Token>,
}

impl Segment {
    /// The engine interface guarantee for one segment: a forward span and
    /// tokens that are well formed and ordered by start time.
    pub open spec fn wf(self) -> bool {
        &&& 0 <= self.start && self.start <= self.stop
        &&& forall|j: int| 0 <= j < self.tokens@.len() ==> self.tokens@[j].wf()
        &&& forall|j: int|
            0 <= j < self.tokens@.len() - 1 ==> #[trigger] self.tokens@[j].start
                <= self.tokens@[j + 1].start
    }
}

/// The engine interface guarantee for a whole run: every segment well formed
/// and segments ordered by start time.
pub open spec fn segments_wf(ss: Seq<Segment>) -> bool {
    &&& forall|i: int| 0 <= i < ss.len() ==> ss[i].wf()
    &&& forall|i: int| 0 <= i < ss.len() - 1 ==> #[trigger] ss[i].start <= ss[i + 1].start
}

/// The utterances of a run: one per segment, in segment order.
pub open spec fn spec_utterances(ss: Seq<Segment>) -> Seq<Utterance> {
    ss.map(|i: int, s: Segment| Utterance { text: s.text, start: s.start, stop: s.stop })
}

/// The word-level utterances contributed by the tokens of one segment from
/// position `j` on: every token in order, except those whose text begins
/// with the reserved `[_` marker.
pub open spec fn spec_token_words(ts: Seq<Token>, j: int) -> Seq<Utterance>
    decreases ts.len() - j,
{
    if j < 0 || j >= ts.len() {
        Seq::empty()
    } else if spec_is_marker(ts[j].text@) {
        spec_token_words(ts, j + 1)
    } else {
        seq![Utterance { text: ts[j].text, start: ts[j].start, stop: ts[j].stop }]
            + spec_token_words(ts, j + 1)
    }
}

/// The word-level utterances of the segments from position `i` on,
/// concatenated in segment order.
pub open spec fn spec_words_from(ss: Seq<Segment>, i: int) -> Seq<Utterance>
    decreases ss.len() - i,
{
    if i < 0 || i >= ss.len() {
        Seq::empty()
    } else {
        spec_token_words(ss[i].tokens@, 0) + spec_words_from(ss, i + 1)
    }
}

/// The word-level utterances of a whole run.
pub open spec fn spec_words(ss: Seq<Segment>) -> Seq<Utterance> {
    spec_words_from(ss, 0)
}

proof fn lemma_token_words_clean(ts: Seq<Token>, j: int)
    requires
        forall|k: int| 0 <= k < ts.len() ==> ts[k].wf(),
    ensures
        forall|k: int|
            0 <= k < spec_token_words(ts, j).len() ==> (#[trigger] spec_token_words(ts, j)[k]).wf()
                && !spec_is_marker(spec_token_words(ts, j)[k].text@),
    decreases ts.len() - j,
{
    if j < 0 || j >= ts.len() {
    } else {
        lemma_token_words_clean(ts, j + 1);
        if spec_is_marker(ts[j].text@) {
            assert(spec_token_words(ts, j) == spec_token_words(ts, j + 1));
        } else {
            let u = Utterance { text: ts[j].text, start: ts[j].start, stop: ts[j].stop };
            assert forall|k: int| 0 <= k < spec_token_words(ts, j).len() implies (
            #[trigger] spec_token_words(ts, j)[k]).wf() && !spec_is_marker(
                spec_token_words(ts, j)[k].text@,
            ) by {
                if k == 0 {
                    assert(spec_token_words(ts, j)[0] == u);
                } else {
                    assert(spec_token_words(ts, j)[k] == spec_token_words(ts, j + 1)[k - 1]);
                }
            }
        }
    }
}

proof fn lemma_words_from_clean(ss: Seq<Segment>, i: int)
    requires
        segments_wf(ss),
    ensures
        forall|k: int|
            0 <= k < spec_words_from(ss, i).len() ==> (#[trigger] spec_words_from(ss, i)[k]).wf()
                && !spec_is_marker(spec_words_from(ss, i)[k].text@),
    decreases ss.len() - i,
{
    if i < 0 || i >= ss.len() {
    } else {
        lemma_words_from_clean(ss, i + 1);
        lemma_token_words_clean(ss[i].tokens@, 0);
        let front = spec_token_words(ss[i].tokens@, 0);
        assert forall|k: int| 0 <= k < spec_words_from(ss, i).len() implies (
        #[trigger] spec_words_from(ss, i)[k]).wf() && !spec_is_marker(
            spec_words_from(ss, i)[k].text@,
        ) by {
            if k < front.len() {
                assert(spec_words_from(ss, i)[k] == front[k]);
            } else {
                assert(spec_words_from(ss, i)[k] == spec_words_from(ss, i + 1)[k - front.len()]);
            }
        }
    }
}

/// Law: no token whose text begins with the reserved `[_` marker ever
/// appears among the word-level utterances of a run.
pub proof fn lemma_words_free_of_markers(ss: Seq<Segment>)
    requires
        segments_wf(ss),
    ensures
        forall|k: int|
            0 <= k < spec_words(ss).len() ==> !spec_is_marker(
                (#[trigger] spec_words(ss)[k]).text@,
            ),
{
    lemma_words_from_clean(ss, 0);
}

impl Segment {
    /// Decides whether this segment satisfies the engine interface
    /// guarantee.
    pub fn valid(&self) -> (r: bool)
        ensures
            r == self.wf(),
    {
        if !(0 <= self.start && self.start <= self.stop) {
            return false;
        }
        let m = self.tokens.len();
        let mut j: usize = 0;
        while j < m
            invariant
                j <= m,
                m == self.tokens@.len(),
                0 <= self.start && self.start <= self.stop,
                forall|k: int| 0 <= k < j ==> self.tokens@[k].wf(),
                forall|k: int|
                    0 <= k < j - 1 ==> #[trigger] self.tokens@[k].start <= self.tokens@[k
                        + 1].start,
            decreases m - j,
        {
            let t = &self.tokens[j];
            if !(0 <= t.start && t.start <= t.stop) {
                assert(!self.tokens@[j as int].wf());
                return false;
            }
            if j > 0 {
                if self.tokens[j - 1].start > t.start {
                    assert(!(self.tokens@[j as int - 1].start <= self.tokens@[j as int].start));
                    return false;
                }
            }
            j = j + 1;
        }
        true
    }
}

/// Decides whether raw engine output satisfies the interface guarantee that
/// [`build_transcript`] relies on; callers outside verified code test this
/// before assembling a transcript.
pub fn segments_valid(segments: &Vec<Segment>) -> (r: bool)
    ensures
        r == segments_wf(segments@),
{
    let n = segments.len();
    let mut i: usize = 0;
    while i < n
        invariant
            i <= n,
            n == segments@.len(),
            forall|k: int| 0 <= k < i ==> segments@[k].wf(),
            forall|k: int| 0 <= k < i - 1 ==> #[trigger] segments@[k].start <= segments@[k
                + 1].start,
        decreases n - i,
    {
        if !segments[i].valid() {
            assert(!segments@[i as int].wf());
            return false;
        }
        if i > 0 {
            if segments[i - 1].start > segments[i].start {
                assert(!(segments@[i as int - 1].start <= segments@[i as int].start));
                return false;
            }
        }
        i = i + 1;
    }
    true
}

/// Assembles the transcript of one finished inference run.
///
/// `segments` is the raw engine output, `word_timestamps` says whether the
/// run was configured to emit token-level timestamps, and
/// `processing_time_ms` is the measured wall-clock time of the run.
pub fn build_transcript(segments: Vec<Segment>, word_timestamps: bool, processing_time_ms: u64)
    -> (r: Result<Transcript, TranscriptionError>)
    requires
        segments_wf(segments@),
    ensures
        r is Ok <==> segments@.len() > 0,
        match r {
            Ok(t) => {
                &&& t.utterances@ == spec_utterances(segments@)
                &&& (t.word_utterances matches Some(w) ==> w@ == spec_words(segments@))
                &&& (t.word_utterances is Some <==> word_timestamps)
                &&& t.processing_time_ms == processing_time_ms
                &&& t.wf()
            },
            Err(e) => e == TranscriptionError::NoSpeechDetected,
        },
{
    let n = segments.len();
    if n == 0 {
        return Err(TranscriptionError::NoSpeechDetected);
    }
    let mut utts: Vec<Utterance> = Vec::new();
    let mut words: Vec<Utterance> = Vec::new();
    let mut i: usize = 0;
    while i < n
        invariant
            i <= n,
            n == segments@.len(),
            segments_wf(segments@),
            utts@ == spec_utterances(segments@).take(i as int),
            word_timestamps ==> spec_words(segments@) == words@ + spec_words_from(
                segments@,
                i as int,
            ),
            !word_timestamps ==> words@.len() == 0,
        decreases n - i,
    {
        let seg = &segments[i];
        utts.push(Utterance { text: seg.text.clone(), start: seg.start, stop: seg.stop });
        proof {
            assert(utts@ =~= spec_utterances(segments@).take(i as int + 1));
        }
        if word_timestamps {
            let m = seg.tokens.len();
            let mut j: usize = 0;
            proof {
                assert(words@ + spec_words_from(segments@, i as int) =~= (words@ + spec_token_words(
                    seg.tokens@,
                    0,
                )) + spec_words_from(segments@, i as int + 1));
            }
            while j < m
                invariant
                    j <= m,
                    i < n,
                    n == segments@.len(),
                    m == segments@[i as int].tokens@.len(),
                    segments_wf(segments@),
                    word_timestamps,
                    spec_words(segments@) == (words@ + spec_token_words(
                        segments@[i as int].tokens@,
                        j as int,
                    )) + spec_words_from(segments@, i as int + 1),
                decreases m - j,
            {
                let seg = &segments[i];
                let tok = &seg.tokens[j];
                if !has_marker_prefix(tok.text.as_str()) {
                    let ghost prev = words@;
                    words.push(
                        Utterance { text: tok.text.clone(), start: tok.start, stop: tok.stop },
                    );
                    proof {
                        let ts = segments@[i as int].tokens@;
                        assert(prev + spec_token_words(ts, j as int) =~= words@ + spec_token_words(
                            ts,
                            j as int + 1,
                        ));
                    }
                }
                j = j + 1;
            }
            proof {
                let ts = segments@[i as int].tokens@;
                assert((words@ + spec_token_words(ts, m as int)) + spec_words_from(
                    segments@,
                    i as int + 1,
                ) =~= words@ + spec_words_from(segments@, i as int + 1));
            }
        }
        i = i + 1;
    }
    proof {
        assert(spec_utterances(segments@).take(n as int) =~= spec_utterances(segments@));
        if word_timestamps {
            assert(words@ + spec_words_from(segments@, n as int) =~= words@);
        }
    }
    let t = Transcript {
        utterances: utts,
        word_utterances: if word_timestamps {
            Some(words)
        } else {
            None
        },
        processing_time_ms,
    };
    proof {
        let ss = segments@;
        assert forall|k: int| 0 <= k < t.utterances@.len() implies (
        #[trigger] t.utterances@[k]).wf() by {
            assert(t.utterances@[k] == spec_utterances(ss)[k]);
            assert(ss[k].wf());
        }
        assert(starts_ordered(t.utterances@)) by {
            assert forall|k: int|
                0 <= k < t.utterances@.len() - 1 implies #[trigger] t.utterances@[k].start
                <= t.utterances@[k + 1].start by {
                assert(t.utterances@[k] == spec_utterances(ss)[k]);
                assert(t.utterances@[k + 1] == spec_utterances(ss)[k + 1]);
                assert(ss[k].start <= ss[k + 1].start);
            }
        }
        if word_timestamps {
            lemma_words_from_clean(ss, 0);
            assert(all_wf(t.word_utterances->Some_0@));
        }
        assert(t.wf());
    }
    Ok(t)
}

} // verus!
