use scribe::asr::{
    http_transcript, transcribe_endpoint, transcription_request, whisper_args, whisper_transcript,
    AsrBackend, AsrRequest,
};

/// The request a backend makes, and the transcript for an HTTP reply with
/// `status` whose JSON `text` field is `text` (the post itself is made by the
/// application).
fn transcribe_with_reply(backend: &AsrBackend, status: u16, text: Option<&str>) -> Option<String> {
    match transcription_request(backend) {
        AsrRequest::Skip => None,
        AsrRequest::Http { .. } => http_transcript(status, text.map(|t| t.to_string())),
        AsrRequest::WhisperCli { .. } => None,
    }
}

fn endpoint_of(backend: &AsrBackend) -> String {
    match transcription_request(backend) {
        AsrRequest::Http { endpoint } => endpoint,
        other => panic!("not an HTTP request: {other:?}"),
    }
}

#[test]
fn default_backend_is_parakeet() {
    let b = AsrBackend::default();
    assert!(matches!(b, AsrBackend::Parakeet { .. }));
}

#[test]
fn asr_none_backend_returns_none() {
    let result = transcribe_with_reply(&AsrBackend::Disabled, 200, Some("fake-wav"));
    assert!(result.is_none());
}

#[test]
fn http_endpoint_appends_transcribe_path() {
    assert_eq!(transcribe_endpoint("http://127.0.0.1:19999/"), "http://127.0.0.1:19999/transcribe");
}

#[test]
fn http_endpoint_without_suffix() {
    assert_eq!(transcribe_endpoint("http://127.0.0.1:19999"), "http://127.0.0.1:19999/transcribe");
}

#[test]
fn parakeet_backend_returns_none_when_server_down() {
    // No reply at all: nothing to read, no transcript.
    let backend = AsrBackend::Parakeet {
        url: "http://127.0.0.1:19999".into(),
        model: "parakeet-tdt-0.6b-v2".into(),
    };
    assert!(http_transcript(0, None).is_none());
    assert_eq!(endpoint_of(&backend), "http://127.0.0.1:19999/transcribe");
}

#[test]
fn whisper_cli_returns_none_for_missing_binary() {
    // A program that cannot run has not succeeded.
    assert!(whisper_transcript(false, None, "").is_none());
}

#[test]
fn parakeet_returns_transcript_on_200() {
    let backend = AsrBackend::Parakeet { url: "http://127.0.0.1:9000".into(), model: "parakeet-tdt-0.6b-v2".into() };
    let result = transcribe_with_reply(&backend, 200, Some("hello world"));
    assert_eq!(result.as_deref(), Some("hello world"));
}

#[test]
fn parakeet_returns_none_on_server_error() {
    let backend = AsrBackend::Parakeet { url: "http://127.0.0.1:9000".into(), model: "parakeet-tdt-0.6b-v2".into() };
    let result = transcribe_with_reply(&backend, 500, None);
    assert!(result.is_none(), "500 response should yield None");
}

#[test]
fn parakeet_returns_none_on_empty_text_field() {
    let backend = AsrBackend::Parakeet { url: "http://127.0.0.1:9000".into(), model: "parakeet-tdt-0.6b-v2".into() };
    let result = transcribe_with_reply(&backend, 200, Some("   "));
    assert!(result.is_none(), "Whitespace-only text should yield None");
}

#[test]
fn parakeet_returns_none_on_malformed_json() {
    // "not json at all" has no `text` field to read.
    let backend = AsrBackend::Parakeet { url: "http://127.0.0.1:9000".into(), model: "parakeet-tdt-0.6b-v2".into() };
    let result = transcribe_with_reply(&backend, 200, None);
    assert!(result.is_none(), "Malformed JSON should yield None");
}

#[test]
fn http_server_variant_returns_transcript() {
    let backend = AsrBackend::HttpServer { url: "http://127.0.0.1:9001".into() };
    let result = transcribe_with_reply(&backend, 200, Some("meeting notes"));
    assert_eq!(result.as_deref(), Some("meeting notes"));
}

#[test]
fn url_with_trailing_slash_still_hits_transcribe_path() {
    let backend = AsrBackend::HttpServer { url: "http://127.0.0.1:9001/".into() };
    assert_eq!(endpoint_of(&backend), "http://127.0.0.1:9001/transcribe");
    let result = transcribe_with_reply(&backend, 200, Some("trimmed slash"));
    assert_eq!(result.as_deref(), Some("trimmed slash"));
}

#[test]
fn integration_none_backend_skips_network_entirely() {
    assert!(matches!(transcription_request(&AsrBackend::Disabled), AsrRequest::Skip));
}

// ── Further cases ─────────────────────────────────────────────────────────────

#[test]
fn default_parakeet_settings() {
    match AsrBackend::default() {
        AsrBackend::Parakeet { url, model } => {
            assert_eq!(url, "http://127.0.0.1:9000");
            assert_eq!(model, "parakeet-tdt-0.6b-v2");
        }
        other => panic!("unexpected default {other:?}"),
    }
}

#[test]
fn endpoint_already_ending_in_transcribe_is_kept() {
    assert_eq!(transcribe_endpoint("http://h:1/transcribe"), "http://h:1/transcribe");
    assert_eq!(transcribe_endpoint("http://h:1///"), "http://h:1/transcribe");
    assert_eq!(transcribe_endpoint(""), "/transcribe");
}

#[test]
fn reply_text_is_trimmed() {
    assert_eq!(http_transcript(200, Some("  hi there \n".into())).as_deref(), Some("hi there"));
    assert_eq!(http_transcript(299, Some("x".into())).as_deref(), Some("x"));
    assert!(http_transcript(300, Some("x".into())).is_none());
    assert!(http_transcript(199, Some("x".into())).is_none());
}

#[test]
fn whisper_prefers_text_file_over_stdout() {
    assert_eq!(whisper_transcript(true, Some(" file text ".into()), "out").as_deref(), Some("file text"));
    assert_eq!(whisper_transcript(true, None, " out \n").as_deref(), Some("out"));
    assert!(whisper_transcript(true, Some("  ".into()), "out").is_none());
    assert!(whisper_transcript(false, Some("file".into()), "out").is_none());
}

#[test]
fn whisper_request_and_arguments() {
    let b = AsrBackend::WhisperCli { bin: "/usr/bin/whisper".into(), model: "base".into() };
    match transcription_request(&b) {
        AsrRequest::WhisperCli { bin, model } => {
            assert_eq!(bin, "/usr/bin/whisper");
            assert_eq!(model, "base");
        }
        other => panic!("unexpected request {other:?}"),
    }
    assert_eq!(
        whisper_args("base", "/tmp/a.wav"),
        vec!["--model", "base", "--output-txt", "--no-prints", "/tmp/a.wav"]
    );
}
