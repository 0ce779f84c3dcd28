use scribe::summarization::{
    ollama_summary, openai_summary, summary_prompt, summary_request, SummarizationBackend,
    SummaryRequest,
};

#[test]
fn default_backend_is_ollama() {
    assert!(matches!(SummarizationBackend::default(), SummarizationBackend::Ollama { .. }));
}

#[test]
fn summarization_none_backend_returns_none() {
    let r = summary_request("hello world", &SummarizationBackend::Disabled);
    assert!(matches!(r, SummaryRequest::Skip));
}

#[test]
fn empty_transcript_returns_none() {
    let r = summary_request("   ", &SummarizationBackend::default());
    assert!(matches!(r, SummaryRequest::Skip));
}

#[test]
fn ollama_returns_none_when_server_down() {
    let b = SummarizationBackend::Ollama { base_url: "http://127.0.0.1:19998".into(), model: "llama3.2:3b".into() };
    match summary_request("Some meeting transcript", &b) {
        SummaryRequest::Ollama { url, .. } => assert_eq!(url, "http://127.0.0.1:19998/api/generate"),
        other => panic!("unexpected request {other:?}"),
    }
    // No reply: nothing to read.
    assert!(ollama_summary(200, None).is_none());
}

#[test]
fn openai_compat_returns_none_when_server_down() {
    let b = SummarizationBackend::OpenAiCompatible {
        base_url: "http://127.0.0.1:19997/v1".into(),
        model: "phi3".into(),
        api_key: None,
    };
    match summary_request("Some meeting transcript", &b) {
        SummaryRequest::OpenAi { url, .. } => assert_eq!(url, "http://127.0.0.1:19997/v1/chat/completions"),
        other => panic!("unexpected request {other:?}"),
    }
    assert!(openai_summary(200, None).is_none());
}

#[test]
fn ollama_returns_summary_on_200() {
    let result = ollama_summary(200, Some("• Action item: follow up\n• Decision: proceed".to_string()));
    assert!(result.is_some());
    let summary = result.unwrap();
    assert!(summary.contains("Action item"), "summary should include bullet points");
}

#[test]
fn ollama_returns_none_on_server_error() {
    // A 503 reply gives no summary, whatever its body holds.
    let result = ollama_summary(503, None);
    assert!(result.is_none(), "503 should yield None");
    let result = ollama_summary(503, Some("x".to_string()));
    assert!(result.is_none(), "503 should yield None");
}

#[test]
fn openai_compat_returns_summary_on_200() {
    let result = openai_summary(200, Some(vec!["• Key decision made".to_string()]));
    assert_eq!(result.as_deref(), Some("• Key decision made"));
}

#[test]
fn openai_compat_sends_bearer_token_when_api_key_set() {
    let b = SummarizationBackend::OpenAiCompatible {
        base_url: "http://127.0.0.1:8080".into(),
        model: "gpt-4o".into(),
        api_key: Some("secret-key-123".into()),
    };
    match summary_request("Meeting transcript here", &b) {
        SummaryRequest::OpenAi { api_key, model, .. } => {
            assert_eq!(api_key.as_deref(), Some("secret-key-123"));
            assert_eq!(model, "gpt-4o");
        }
        other => panic!("unexpected request {other:?}"),
    }
    let result = openai_summary(200, Some(vec!["• Summary with auth".to_string()]));
    assert!(result.is_some(), "Request with correct bearer token should succeed");
}

#[test]
fn empty_transcript_skips_network_call() {
    let backend = SummarizationBackend::Ollama { base_url: "http://127.0.0.1:19996".into(), model: "llama3.2:3b".into() };
    assert!(matches!(summary_request("   ", &backend), SummaryRequest::Skip));
}

#[test]
fn integration_none_backend_skips_network_entirely_for_summaries() {
    assert!(matches!(summary_request("Meeting text", &SummarizationBackend::Disabled), SummaryRequest::Skip));
}

// ── Further cases ─────────────────────────────────────────────────────────────

#[test]
fn prompt_puts_instruction_before_transcript() {
    let p = summary_prompt("We agreed.");
    assert!(p.starts_with("You are a concise meeting assistant."));
    assert!(p.ends_with("transcript.\n\nTranscript:\nWe agreed."));
}

#[test]
fn ollama_request_carries_model_and_prompt() {
    let b = SummarizationBackend::default();
    match summary_request("notes", &b) {
        SummaryRequest::Ollama { url, model, prompt } => {
            assert_eq!(url, "http://localhost:11434/api/generate");
            assert_eq!(model, "llama3.2:3b");
            assert_eq!(prompt, summary_prompt("notes"));
        }
        other => panic!("unexpected request {other:?}"),
    }
}

#[test]
fn replies_are_trimmed_and_first_choice_wins() {
    assert_eq!(ollama_summary(200, Some("  x \n".into())).as_deref(), Some("x"));
    assert_eq!(ollama_summary(204, Some("   ".into())).as_deref(), Some(""));
    assert_eq!(openai_summary(200, Some(vec![" a ".into(), "b".into()])).as_deref(), Some("a"));
    assert!(openai_summary(200, Some(vec![])).is_none());
}

#[test]
fn error_status_gives_no_summary() {
    assert!(ollama_summary(500, Some("partial".into())).is_none());
    assert!(ollama_summary(199, Some("x".into())).is_none());
    assert_eq!(ollama_summary(299, Some(" y ".into())).as_deref(), Some("y"));
    assert!(openai_summary(503, Some(vec!["a".into()])).is_none());
    assert!(openai_summary(404, None).is_none());
    assert_eq!(openai_summary(201, Some(vec![" z".into()])).as_deref(), Some("z"));
}
