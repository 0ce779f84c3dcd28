//! Transcription backends: which service a segment goes to, the endpoint it
//! is posted to, and how the service's reply becomes transcript text.
//!
//! The request itself (an HTTP post or a run of the `whisper` program) is made
//! by the caller with what `transcription_request` returns; the reply is
//! handed back to `http_transcript` or `whisper_transcript`.
use vstd::prelude::*;
use crate::text::{
    concat_str, ends_with, ends_with_seq, nonempty_trim, opt_view, trim_end_char, trim_end_char_seq,
    trimmed_nonempty,
};

verus! {

/// Backend options for speech recognition.
///
/// The recommended backend is `Parakeet`, a local HTTP server; `WhisperCli`
/// is a fallback for machines without a GPU.
#[derive(Debug, Clone)]
pub enum AsrBackend {
    /// NVIDIA Parakeet behind a local HTTP server: POST /transcribe with the
    /// WAV bytes, reply `{"text":"…"}`.
    Parakeet { url: String, model: String },
    /// The `whisper` command-line program at `bin`.
    WhisperCli { bin: String, model: String },
    /// Any server that accepts POST /transcribe and replies `{"text":"…"}`.
    HttpServer { url: String },
    /// Transcription disabled (the `None` setting).
    Disabled,
}

/// The default Parakeet server address.
pub open spec fn default_parakeet_url() -> Seq<char> {
    "http://127.0.0.1:9000"@
}

/// The default Parakeet model.
pub open spec fn default_parakeet_model() -> Seq<char> {
    "parakeet-tdt-0.6b-v2"@
}

impl Default for AsrBackend {
    fn default() -> (b: AsrBackend)
        ensures
            b matches AsrBackend::Parakeet { url, model } && url@ == default_parakeet_url()
                && model@ == default_parakeet_model(),
    {
        AsrBackend::Parakeet {
            url: String::from_str("http://127.0.0.1:9000"),
            model: String::from_str("parakeet-tdt-0.6b-v2"),
        }
    }
}

/// The path every HTTP transcription server answers on.
pub open spec fn transcribe_path() -> Seq<char> {
    "/transcribe"@
}

/// The endpoint for a server URL: the URL itself when it already ends with
/// `/transcribe`, else the URL without trailing slashes followed by
/// `/transcribe`.
pub open spec fn endpoint_seq(url: Seq<char>) -> Seq<char> {
    if ends_with_seq(url, transcribe_path()) {
        url
    } else {
        trim_end_char_seq(url, '/') + transcribe_path()
    }
}

/// The endpoint that a segment is posted to for the server at `url`.
pub fn transcribe_endpoint(url: &str) -> (e: String)
    ensures
        e@ == endpoint_seq(url@),
{
    if ends_with(url, "/transcribe") {
        String::from_str(url)
    } else {
        let base = trim_end_char(url, '/');
        concat_str(base.as_str(), "/transcribe")
    }
}

/// Every endpoint ends with `/transcribe`; a URL that already ends with it is
/// kept as it is, and any other URL loses its trailing slashes and gains
/// `/transcribe`, whatever path it has.
pub proof fn law_endpoint_ends_with_transcribe(url: Seq<char>)
    ensures
        ends_with_seq(endpoint_seq(url), "/transcribe"@),
        ends_with_seq(url, "/transcribe"@) ==> endpoint_seq(url) == url,
        !ends_with_seq(url, "/transcribe"@) ==> endpoint_seq(url) == trim_end_char_seq(url, '/')
            + "/transcribe"@,
{
    let e = endpoint_seq(url);
    let t = "/transcribe"@;
    if !ends_with_seq(url, t) {
        let b = trim_end_char_seq(url, '/');
        assert((b + t).subrange(b.len() as int, (b + t).len() as int) =~= t);
    }
}

/// What a configured backend asks for, for one segment.
#[derive(Debug, Clone)]
pub enum AsrRequest {
    /// No transcription: the result is `None`.
    Skip,
    /// POST the WAV bytes to `endpoint`.
    Http { endpoint: String },
    /// Run the `whisper` program `bin` with `model` on the WAV bytes.
    WhisperCli { bin: String, model: String },
}

/// The request that `backend` makes for a segment: Parakeet and the generic
/// server post to their endpoint, Whisper runs its program, `None` skips.
pub fn transcription_request(backend: &AsrBackend) -> (r: AsrRequest)
    ensures
        match backend {
            AsrBackend::Disabled => r is Skip,
            AsrBackend::Parakeet { url, .. } => r matches AsrRequest::Http { endpoint }
                && endpoint@ == endpoint_seq(url@),
            AsrBackend::HttpServer { url } => r matches AsrRequest::Http { endpoint }
                && endpoint@ == endpoint_seq(url@),
            AsrBackend::WhisperCli { bin, model } => r matches AsrRequest::WhisperCli {
                bin: b,
                model: m,
            } && b@ == bin@ && m@ == model@,
        },
{
    match backend {
        AsrBackend::Disabled => AsrRequest::Skip,
        AsrBackend::Parakeet { url, .. } => AsrRequest::Http {
            endpoint: transcribe_endpoint(url.as_str()),
        },
        AsrBackend::WhisperCli { bin, model } => AsrRequest::WhisperCli {
            bin: bin.clone(),
            model: model.clone(),
        },
        AsrBackend::HttpServer { url } => AsrRequest::Http {
            endpoint: transcribe_endpoint(url.as_str()),
        },
    }
}

/// Whether an HTTP status code is a success (2xx).
pub open spec fn is_success_status(status: u16) -> bool {
    200 <= status <= 299
}

/// The transcript carried by an HTTP reply: `status` is the reply's status
/// code and `text` the `text` field of its JSON body (`None` when the body
/// could not be read as `{"text": …}`).  Only a successful reply with some
/// non-blank text gives a transcript, trimmed.
pub fn http_transcript(status: u16, text: Option<String>) -> (r: Option<String>)
    ensures
        opt_view(r) == if is_success_status(status) && text is Some {
            nonempty_trim(text->0@)
        } else {
            None
        },
{
    if !(200 <= status && status <= 299) {
        return None;
    }
    match text {
        Some(t) => trimmed_nonempty(t.as_str()),
        None => None,
    }
}

/// The transcript of a `whisper` run: nothing when the program failed;
/// otherwise the text file it wrote, when it could be read, else its
/// standard output; trimmed, and nothing when blank.
pub fn whisper_transcript(succeeded: bool, txt_file: Option<String>, stdout: &str) -> (r: Option<
    String,
>)
    ensures
        opt_view(r) == if !succeeded {
            None
        } else if txt_file is Some {
            nonempty_trim(txt_file->0@)
        } else {
            nonempty_trim(stdout@)
        },
{
    if !succeeded {
        return None;
    }
    match txt_file {
        Some(t) => trimmed_nonempty(t.as_str()),
        None => trimmed_nonempty(stdout),
    }
}

/// The arguments of a `whisper` run on the WAV file at `wav_path`.
pub fn whisper_args(model: &str, wav_path: &str) -> (args: Vec<String>)
    ensures
        args@.len() == 5,
        args@[0]@ == "--model"@,
        args@[1]@ == model@,
        args@[2]@ == "--output-txt"@,
        args@[3]@ == "--no-prints"@,
        args@[4]@ == wav_path@,
{
    let mut args: Vec<String> = Vec::new();
    args.push(String::from_str("--model"));
    args.push(String::from_str(model));
    args.push(String::from_str("--output-txt"));
    args.push(String::from_str("--no-prints"));
    args.push(String::from_str(wav_path));
    args
}

} // verus!
