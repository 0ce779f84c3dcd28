//! Summarization backends: the request that a transcript turns into, and how
//! the service's reply becomes a summary.
//!
//! The HTTP exchange is made by the caller with what `summary_request`
//! returns; the parsed reply is handed back to `ollama_summary` or
//! `openai_summary`.
use vstd::prelude::*;
use crate::asr::is_success_status;
use crate::text::{concat_str, is_blank, is_blank_text, opt_view, trim, trim_seq};

verus! {

/// Backend options for summarization.
#[derive(Debug, Clone)]
pub enum SummarizationBackend {
    /// Ollama HTTP API (default: http://localhost:11434).
    Ollama { base_url: String, model: String },
    /// Generic OpenAI-compatible chat API.
    OpenAiCompatible { base_url: String, model: String, api_key: Option<String> },
    /// No summarization configured (the `None` setting).
    Disabled,
}

/// The default Ollama address.
pub open spec fn default_ollama_url() -> Seq<char> {
    "http://localhost:11434"@
}

/// The default Ollama model.
pub open spec fn default_ollama_model() -> Seq<char> {
    "llama3.2:3b"@
}

impl Default for SummarizationBackend {
    fn default() -> (b: SummarizationBackend)
        ensures
            b matches SummarizationBackend::Ollama { base_url, model } && base_url@
                == default_ollama_url() && model@ == default_ollama_model(),
    {
        SummarizationBackend::Ollama {
            base_url: String::from_str("http://localhost:11434"),
            model: String::from_str("llama3.2:3b"),
        }
    }
}

/// The instruction put in front of every transcript.
pub open spec fn system_prompt_seq() -> Seq<char> {
    "You are a concise meeting assistant. Summarize the following transcript in a few bullet points. Focus on decisions, action items, and key topics discussed. Do not invent information not present in the transcript."@
}

/// The prompt for a transcript: the instruction, a blank line, `Transcript:`
/// and the transcript.
pub open spec fn prompt_seq(transcript: Seq<char>) -> Seq<char> {
    system_prompt_seq() + "\n\nTranscript:\n"@ + transcript
}

/// The prompt sent for `transcript`.
pub fn summary_prompt(transcript: &str) -> (p: String)
    ensures
        p@ == prompt_seq(transcript@),
{
    let head = concat_str(
        "You are a concise meeting assistant. Summarize the following transcript in a few bullet points. Focus on decisions, action items, and key topics discussed. Do not invent information not present in the transcript.",
        "\n\nTranscript:\n",
    );
    concat_str(head.as_str(), transcript)
}

/// The whole transcript is in the prompt: the prompt is the 212-character
/// instruction, then the 14 characters `\n\nTranscript:\n`, then every
/// character of the transcript, so its length is 226 plus the transcript's.
pub proof fn law_prompt_holds_whole_transcript(transcript: Seq<char>)
    ensures
        prompt_seq(transcript).len() == 226 + transcript.len(),
        prompt_seq(transcript).take(212)
            == "You are a concise meeting assistant. Summarize the following transcript in a few bullet points. Focus on decisions, action items, and key topics discussed. Do not invent information not present in the transcript."@,
        prompt_seq(transcript).skip(212) == "\n\nTranscript:\n"@ + transcript,
{
    reveal_strlit(
        "You are a concise meeting assistant. Summarize the following transcript in a few bullet points. Focus on decisions, action items, and key topics discussed. Do not invent information not present in the transcript.",
    );
    reveal_strlit("\n\nTranscript:\n");
    let head = system_prompt_seq();
    let mid = "\n\nTranscript:\n"@;
    let p = prompt_seq(transcript);
    assert(p.take(212) =~= head);
    assert(p.skip(212) =~= mid + transcript);
}

/// What summarizing a transcript asks for.
#[derive(Debug, Clone)]
pub enum SummaryRequest {
    /// Nothing to ask: the summary is `None`.
    Skip,
    /// POST `{"model", "prompt", "stream": false}` to `url`.
    Ollama { url: String, model: String, prompt: String },
    /// POST `{"model", "messages": [{"role": "user", "content": prompt}]}` to
    /// `url`, with a bearer token when `api_key` is set.
    OpenAi { url: String, model: String, prompt: String, api_key: Option<String> },
}

/// The request that summarizing `transcript` with `backend` makes: nothing
/// for a blank transcript or the disabled backend; otherwise the prompt sent
/// to the backend's generate or chat-completions endpoint.
pub fn summary_request(transcript: &str, backend: &SummarizationBackend) -> (r: SummaryRequest)
    ensures
        is_blank(transcript@) ==> r is Skip,
        !is_blank(transcript@) ==> match backend {
            SummarizationBackend::Disabled => r is Skip,
            SummarizationBackend::Ollama { base_url, model } => r matches SummaryRequest::Ollama {
                url: u,
                model: m,
                prompt: p,
            } && u@ == base_url@ + "/api/generate"@ && m@ == model@ && p@ == prompt_seq(
                transcript@,
            ),
            SummarizationBackend::OpenAiCompatible { base_url, model, api_key } => r matches SummaryRequest::OpenAi {
                url: u,
                model: m,
                prompt: p,
                api_key: k,
            } && u@ == base_url@ + "/chat/completions"@ && m@ == model@ && p@ == prompt_seq(
                transcript@,
            ) && opt_view(k) == opt_view(*api_key),
        },
{
    if is_blank_text(transcript) {
        return SummaryRequest::Skip;
    }
    match backend {
        SummarizationBackend::Disabled => SummaryRequest::Skip,
        SummarizationBackend::Ollama { base_url, model } => SummaryRequest::Ollama {
            url: concat_str(base_url.as_str(), "/api/generate"),
            model: model.clone(),
            prompt: summary_prompt(transcript),
        },
        SummarizationBackend::OpenAiCompatible { base_url, model, api_key } => {
            SummaryRequest::OpenAi {
                url: concat_str(base_url.as_str(), "/chat/completions"),
                model: model.clone(),
                prompt: summary_prompt(transcript),
                api_key: api_key.clone(),
            }
        },
    }
}

/// The summary in an Ollama reply: `status` is the reply's status code and
/// `response` the `response` field of its JSON body (`None` when the body
/// could not be read as `{"response": …}`).  Only a successful (2xx) reply
/// gives a summary, trimmed.
pub fn ollama_summary(status: u16, response: Option<String>) -> (r: Option<String>)
    ensures
        opt_view(r) == if is_success_status(status) {
            match response {
                Some(t) => Some(trim_seq(t@)),
                None => None,
            }
        } else {
            None
        },
{
    if !(200 <= status && status <= 299) {
        return None;
    }
    match response {
        Some(t) => Some(trim(t.as_str())),
        None => None,
    }
}

/// The summary in an OpenAI-compatible reply: `status` is the reply's status
/// code and `contents` the message contents of its choices (`None` when the
/// body could not be read).  Only a successful (2xx) reply with at least one
/// choice gives a summary: the first choice's content, trimmed.
pub fn openai_summary(status: u16, contents: Option<Vec<String>>) -> (r: Option<String>)
    ensures
        opt_view(r) == if is_success_status(status) {
            match contents {
                Some(v) => if v@.len() > 0 {
                    Some(trim_seq(v@[0]@))
                } else {
                    None
                },
                None => None,
            }
        } else {
            None
        },
{
    if !(200 <= status && status <= 299) {
        return None;
    }
    match contents {
        Some(v) => {
            if v.len() > 0 {
                Some(trim(v[0].as_str()))
            } else {
                None
            }
        },
        None => None,
    }
}

} // verus!
