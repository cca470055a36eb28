use whisper_cli::{RequestPlan, ResponseFormat, Transcript, TranscriptionError, Utterance};
use whisper_cli::http::{
    endpoint_path, error_status, parse_response_format, plan_request, render_response,
};

fn sample_transcript() -> Transcript {
    Transcript {
        utterances: vec![
            Utterance { text: " He said \"hi\".".to_string(), start: 0, stop: 150 },
            Utterance { text: " Then left.".to_string(), start: 150, stop: 300 },
        ],
        word_utterances: None,
        processing_time_ms: 42,
    }
}

#[test]
fn preflight_is_answered_whatever_the_content_type() {
    let plan = plan_request("OPTIONS", endpoint_path(), None);
    assert!(matches!(plan, RequestPlan::CorsPreflight));
    let plan = plan_request("OPTIONS", endpoint_path(), Some("text/plain"));
    assert!(matches!(plan, RequestPlan::CorsPreflight));
    let plan = plan_request(
        "OPTIONS",
        "/v1/audio/transcriptions",
        Some("multipart/form-data; boundary=X"),
    );
    assert!(matches!(plan, RequestPlan::CorsPreflight));
}

#[test]
fn non_multipart_post_is_rejected_before_transcription() {
    let plan = plan_request("POST", endpoint_path(), Some("text/plain"));
    assert!(matches!(plan, RequestPlan::Rejected));
    let plan = plan_request("POST", endpoint_path(), Some("application/json"));
    assert!(matches!(plan, RequestPlan::Rejected));
    let plan = plan_request("POST", endpoint_path(), None);
    assert!(matches!(plan, RequestPlan::Rejected));
}

#[test]
fn multipart_post_proceeds_under_its_boundary() {
    let plan = plan_request(
        "POST",
        endpoint_path(),
        Some("multipart/form-data; boundary=ABCDEFG"),
    );
    match plan {
        RequestPlan::Transcribe { boundary } => assert_eq!(boundary, "ABCDEFG"),
        other => panic!("expected a transcription plan, got {:?}", other),
    }
}

#[test]
fn response_format_defaults_to_json() {
    assert_eq!(parse_response_format(Some("srt")), ResponseFormat::Srt);
    assert_eq!(parse_response_format(Some("vtt")), ResponseFormat::Vtt);
    assert_eq!(parse_response_format(Some("text")), ResponseFormat::Text);
    assert_eq!(parse_response_format(Some("verbose_json")), ResponseFormat::Json);
    assert_eq!(parse_response_format(Some("")), ResponseFormat::Json);
    assert_eq!(parse_response_format(None), ResponseFormat::Json);
}

#[test]
fn srt_response_is_the_srt_rendering_as_plain_text() {
    let t = sample_transcript();
    let r = render_response(&t, ResponseFormat::Srt).unwrap();
    assert_eq!(r.body, t.as_srt());
    assert_eq!(r.content_type, "text/plain; charset=utf-8");
}

#[test]
fn vtt_and_text_responses_are_plain_text() {
    let t = sample_transcript();
    let r = render_response(&t, ResponseFormat::Vtt).unwrap();
    assert_eq!(r.body, t.as_vtt());
    assert_eq!(r.content_type, "text/plain; charset=utf-8");
    let r = render_response(&t, ResponseFormat::Text).unwrap();
    assert_eq!(r.body, t.as_text());
    assert_eq!(r.content_type, "text/plain; charset=utf-8");
}

#[test]
fn json_response_carries_the_text_rendering_under_a_text_key() {
    let t = sample_transcript();
    let r = render_response(&t, ResponseFormat::Json).unwrap();
    assert_eq!(r.content_type, "application/json; charset=utf-8");
    let value: serde_json::Value = serde_json::from_str(&r.body).unwrap();
    let text = value.get("text").and_then(|v| v.as_str()).unwrap();
    assert_eq!(text, t.as_text());
    assert_eq!(text, "He said \"hi\". Then left.");
}

#[test]
fn error_statuses_split_client_from_server_errors() {
    assert_eq!(error_status(&TranscriptionError::BadRequest), 400);
    assert_eq!(error_status(&TranscriptionError::Decode), 500);
    assert_eq!(error_status(&TranscriptionError::NoSpeechDetected), 500);
    assert_eq!(error_status(&TranscriptionError::Inference), 500);
    assert_eq!(error_status(&TranscriptionError::SessionUnavailable), 500);
    assert_eq!(error_status(&TranscriptionError::ModelLoad), 500);
    assert_eq!(error_status(&TranscriptionError::Internal), 500);
}

#[test]
fn error_messages_are_stable() {
    assert_eq!(TranscriptionError::NoSpeechDetected.message(), "no speech detected");
    assert_eq!(TranscriptionError::BadRequest.message(), "bad request");
}
