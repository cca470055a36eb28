use whisper_cli::{Transcript, Utterance};

fn utt(text: &str, start: i64, stop: i64) -> Utterance {
    Utterance { text: text.to_string(), start, stop }
}

fn transcript_of(utterances: Vec<Utterance>) -> Transcript {
    Transcript { utterances, word_utterances: None, processing_time_ms: 0 }
}

#[test]
fn srt_of_two_synthetic_utterances() {
    let t = transcript_of(vec![utt("hello", 0, 150), utt("world", 150, 300)]);
    assert_eq!(
        t.as_srt(),
        "1\n00:00:00,000 --> 00:00:01,500\nhello\n\n2\n00:00:01,500 --> 00:00:03,000\nworld\n\n"
    );
}

#[test]
fn vtt_begins_with_header_line() {
    let t = transcript_of(vec![utt("hello", 0, 150)]);
    let rendered = t.as_vtt();
    assert!(rendered.starts_with("WEBVTT\n"));
}

#[test]
fn vtt_of_two_synthetic_utterances() {
    let t = transcript_of(vec![utt("hello", 0, 150), utt("world", 150, 300)]);
    assert_eq!(
        t.as_vtt(),
        "WEBVTT\n\n00:00:00.000 --> 00:00:01.500\nhello\n\n00:00:01.500 --> 00:00:03.000\nworld\n\n"
    );
}

#[test]
fn timestamp_fields_are_zero_padded() {
    // 4521370 cs = 12 h 33 min 33 s 700 ms
    let t = transcript_of(vec![utt("x", 4521370, 4521370)]);
    assert_eq!(t.as_srt(), "1\n12:33:33,700 --> 12:33:33,700\nx\n\n");
}

#[test]
fn hours_beyond_two_digits_keep_all_digits() {
    // 36000000 cs = 100 h
    let t = transcript_of(vec![utt("x", 36000000, 36000000)]);
    assert_eq!(t.as_srt(), "1\n100:00:00,000 --> 100:00:00,000\nx\n\n");
}

#[test]
fn text_trims_each_utterance_and_joins_with_spaces() {
    let t = transcript_of(vec![utt(" hello", 0, 100), utt("\tworld \n", 100, 200)]);
    assert_eq!(t.as_text(), "hello world");
}

#[test]
fn text_of_single_utterance_is_its_trimmed_text() {
    let t = transcript_of(vec![utt("  hi  ", 0, 100)]);
    assert_eq!(t.as_text(), "hi");
}

#[test]
fn text_of_whitespace_only_utterance_is_empty() {
    let t = transcript_of(vec![utt("   ", 0, 100)]);
    assert_eq!(t.as_text(), "");
}

#[test]
fn renderings_never_consult_word_utterances() {
    let plain = transcript_of(vec![utt("hello", 0, 150)]);
    let with_words = Transcript {
        utterances: vec![utt("hello", 0, 150)],
        word_utterances: Some(vec![utt("unrelated", 5, 10)]),
        processing_time_ms: 99,
    };
    assert_eq!(plain.as_text(), with_words.as_text());
    assert_eq!(plain.as_srt(), with_words.as_srt());
    assert_eq!(plain.as_vtt(), with_words.as_vtt());
}

#[test]
fn render_selects_format_with_text_default() {
    let t = transcript_of(vec![utt("hello", 0, 150)]);
    assert_eq!(t.render(Some("srt")), t.as_srt());
    assert_eq!(t.render(Some("vtt")), t.as_vtt());
    assert_eq!(t.render(Some("anything-else")), t.as_text());
    assert_eq!(t.render(None), t.as_text());
}
