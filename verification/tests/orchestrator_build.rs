use whisper_cli::{Segment, Token, TranscriptionError};
use whisper_cli::orchestrator::build_transcript;

fn seg(text: &str, start: i64, stop: i64, tokens: Vec<Token>) -> Segment {
    Segment { text: text.to_string(), start, stop, tokens }
}

fn tok(text: &str, start: i64, stop: i64) -> Token {
    Token { text: text.to_string(), start, stop }
}

#[test]
fn zero_segments_is_no_speech_not_an_empty_transcript() {
    let r = build_transcript(Vec::new(), false, 7);
    match r {
        Err(e) => assert_eq!(e, TranscriptionError::NoSpeechDetected),
        Ok(_) => panic!("an empty run must not produce a transcript"),
    }
}

#[test]
fn segments_become_utterances_in_order() {
    let segments = vec![
        seg(" Hello there.", 0, 250, Vec::new()),
        seg(" General remark.", 250, 410, Vec::new()),
    ];
    let t = build_transcript(segments, false, 1234).unwrap();
    assert_eq!(t.utterances.len(), 2);
    assert_eq!(t.utterances[0].text, " Hello there.");
    assert_eq!(t.utterances[0].start, 0);
    assert_eq!(t.utterances[0].stop, 250);
    assert_eq!(t.utterances[1].text, " General remark.");
    assert_eq!(t.utterances[1].start, 250);
    assert_eq!(t.utterances[1].stop, 410);
    assert_eq!(t.processing_time_ms, 1234);
}

#[test]
fn word_utterances_present_exactly_when_requested() {
    let with_words = build_transcript(vec![seg("hi", 0, 50, vec![tok("hi", 0, 50)])], true, 1)
        .unwrap();
    assert!(with_words.word_utterances.is_some());

    let without_words = build_transcript(vec![seg("hi", 0, 50, vec![tok("hi", 0, 50)])], false, 1)
        .unwrap();
    assert!(without_words.word_utterances.is_none());
}

#[test]
fn marker_tokens_never_reach_word_utterances() {
    let segments = vec![seg(
        " hello world",
        0,
        200,
        vec![
            tok("[_BEG]", 0, 0),
            tok(" hello", 0, 90),
            tok("[_TT_42]", 90, 90),
            tok(" world", 90, 200),
        ],
    )];
    let t = build_transcript(segments, true, 1).unwrap();
    let words = t.word_utterances.unwrap();
    assert_eq!(words.len(), 2);
    assert_eq!(words[0].text, " hello");
    assert_eq!(words[0].start, 0);
    assert_eq!(words[0].stop, 90);
    assert_eq!(words[1].text, " world");
    assert!(words.iter().all(|w| !w.text.starts_with("[_")));
}

#[test]
fn word_utterances_concatenate_in_segment_order() {
    let segments = vec![
        seg(" one two", 0, 100, vec![tok(" one", 0, 40), tok(" two", 40, 100)]),
        seg(" three", 100, 160, vec![tok(" three", 100, 160)]),
    ];
    let t = build_transcript(segments, true, 1).unwrap();
    let words = t.word_utterances.unwrap();
    let texts: Vec<&str> = words.iter().map(|w| w.text.as_str()).collect();
    assert_eq!(texts, vec![" one", " two", " three"]);
}

#[test]
fn tokens_are_ignored_when_word_timestamps_are_off() {
    let segments = vec![seg("hi", 0, 50, vec![tok("[_BEG]", 0, 0), tok("hi", 0, 50)])];
    let t = build_transcript(segments, false, 1).unwrap();
    assert!(t.word_utterances.is_none());
    assert_eq!(t.utterances.len(), 1);
}

#[test]
fn successful_transcript_is_ordered_and_non_empty() {
    let segments = vec![
        seg("a", 0, 10, Vec::new()),
        seg("b", 10, 20, Vec::new()),
        seg("c", 20, 30, Vec::new()),
    ];
    let t = build_transcript(segments, false, 1).unwrap();
    assert!(t.utterances.len() >= 1);
    for u in &t.utterances {
        assert!(u.start <= u.stop);
    }
    for pair in t.utterances.windows(2) {
        assert!(pair[0].start <= pair[1].start);
    }
}
