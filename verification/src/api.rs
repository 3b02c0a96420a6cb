//! Outbound request construction and response interpretation for the three
//! remote calls: chat completion (translation), summarization, and audio
//! transcription.  Everything here computes on plain values; the caller
//! performs the HTTP exchange and hands status and body back in.

use vstd::prelude::*;
use crate::errors::ApiError;
use crate::strutil::{
    dec_spec, dec_u32, json_escape, json_escape_spec, push_char, str_eq, trim, trim_spec,
};
use crate::wav::{encodable, encode_wav, wav_bytes};

verus! {

/// A translation request as the caller hands it in.
#[derive(Debug)]
pub struct TranslationRequest {
    pub text: String,
    pub target_language: String,
    pub api_key: String,
}

/// The outcome of a translation call.
#[derive(Debug)]
pub struct TranslationResponse {
    pub success: bool,
    pub translated_text: Option<String>,
    pub error: Option<String>,
}

/// The outcome of a transcription call.
#[derive(Debug)]
pub struct TranscriptionResult {
    pub success: bool,
    pub transcription: Option<String>,
    pub error: Option<String>,
}

/// A summarization request as the caller hands it in.
#[derive(Debug)]
pub struct SummarizeRequest {
    pub text: String,
    pub api_key: String,
}

/// A fully built chat-endpoint request: where to send it, the bearer
/// credential, and the JSON body.
#[derive(Debug)]
pub struct ChatRequest {
    pub url: String,
    pub bearer: String,
    pub body: String,
}

/// A fully built transcription request: the WAV payload and the multipart
/// form constants.
#[derive(Debug)]
pub struct TranscriptionRequest {
    pub url: String,
    pub bearer: String,
    pub wav_bytes: Vec<u8>,
    pub file_name: String,
    pub mime_type: String,
    pub model: String,
}

pub open spec fn chat_url_spec() -> Seq<char> {
    "https://api.openai.com/v1/chat/completions"@
}

pub open spec fn transcription_url_spec() -> Seq<char> {
    "https://api.openai.com/v1/audio/transcriptions"@
}

/// The placeholder a caller may supply instead of a real credential.
pub open spec fn sentinel_credential() -> Seq<char> {
    "dummy"@
}

/// The system instruction for a translation into `lang`.
pub open spec fn translation_prompt_spec(lang: Seq<char>) -> Seq<char> {
    "You are a professional translator. Translate the given text to "@ + lang
        + ". Only respond with the translation, no explanations or additional text."@
}

/// The system instruction for summarization.
pub open spec fn summarizer_prompt_spec() -> Seq<char> {
    "You are an expert text summarizer. Create a clear, concise summary that captures the key points and main ideas. Keep it informative but brief. Focus on the most important information."@
}

/// The user message wrapping the text to summarize.
pub open spec fn summarize_user_spec(text: Seq<char>) -> Seq<char> {
    "Please summarize the following text:\n\n"@ + text
}

/// A JSON string literal holding `s`.
pub open spec fn json_string_spec(s: Seq<char>) -> Seq<char> {
    seq!['"'] + json_escape_spec(s) + seq!['"']
}

/// The chat-completion JSON body: the fixed model, the two messages, the
/// fixed temperature, the token limit, and the stream flag when streaming
/// is requested.
pub open spec fn chat_body_spec(
    system: Seq<char>,
    user: Seq<char>,
    max_tokens: u32,
    stream: bool,
) -> Seq<char> {
    "{\"model\":\"gpt-4o-mini\",\"messages\":[{\"role\":\"system\",\"content\":"@
        + json_string_spec(system) + "},{\"role\":\"user\",\"content\":"@ + json_string_spec(user)
        + "}],\"temperature\":0.3,\"max_tokens\":"@ + dec_spec(max_tokens as int) + (if stream {
        ",\"stream\":true}"@
    } else {
        "}"@
    })
}

fn json_string(s: &str) -> (r: String)
    ensures
        r@ == json_string_spec(s@),
{
    let mut out = String::new();
    push_char(&mut out, '"');
    let escaped = json_escape(s);
    out.append(escaped.as_str());
    push_char(&mut out, '"');
    proof {
        assert(out@ =~= json_string_spec(s@));
    }
    out
}

/// Builds the chat-completion JSON body.
pub fn chat_body(system: &str, user: &str, max_tokens: u32, stream: bool) -> (r: String)
    ensures
        r@ == chat_body_spec(system@, user@, max_tokens, stream),
{
    let mut out = "{\"model\":\"gpt-4o-mini\",\"messages\":[{\"role\":\"system\",\"content\":"
        .to_owned();
    let sys = json_string(system);
    out.append(sys.as_str());
    out.append("},{\"role\":\"user\",\"content\":");
    let usr = json_string(user);
    out.append(usr.as_str());
    out.append("}],\"temperature\":0.3,\"max_tokens\":");
    let tok = dec_u32(max_tokens);
    out.append(tok.as_str());
    if stream {
        out.append(",\"stream\":true}");
    } else {
        out.append("}");
    }
    proof {
        assert(out@ =~= chat_body_spec(system@, user@, max_tokens, stream));
    }
    out
}

/// Builds the translation system prompt for `lang`.
pub fn translation_prompt(lang: &str) -> (r: String)
    ensures
        r@ == translation_prompt_spec(lang@),
{
    let mut out = "You are a professional translator. Translate the given text to ".to_owned();
    out.append(lang);
    out.append(". Only respond with the translation, no explanations or additional text.");
    out
}

/// Resolves the credential for one call.  A real credential is used as
/// supplied; the sentinel placeholder falls back to the configured
/// environment credential and fails with `CredentialMissing` when none is
/// configured — before any network work happens.
pub fn resolve_credential(supplied: &str, env_credential: &Option<String>) -> (r: Result<
    String,
    ApiError,
>)
    ensures
        match r {
            Ok(k) => {
                if supplied@ == sentinel_credential() {
                    env_credential matches Some(e) && k@ == e@
                } else {
                    k@ == supplied@
                }
            },
            Err(e) => {
                &&& e matches ApiError::CredentialMissing
                &&& supplied@ == sentinel_credential()
                &&& env_credential is None
            },
        },
{
    if str_eq(supplied, "dummy") {
        match env_credential {
            Some(k) => Ok(k.clone()),
            None => Err(ApiError::CredentialMissing),
        }
    } else {
        Ok(supplied.to_owned())
    }
}

/// Builds the streaming translation request.  Fails only for a missing
/// credential; the credential is resolved first, so nothing is built — and
/// no network call can be attempted — without one.
pub fn build_translation_request(req: &TranslationRequest, env_credential: &Option<String>) -> (r:
    Result<ChatRequest, ApiError>)
    ensures
        match r {
            Ok(c) => {
                &&& c.url@ == chat_url_spec()
                &&& c.body@ == chat_body_spec(
                    translation_prompt_spec(req.target_language@),
                    req.text@,
                    1000,
                    true,
                )
                &&& if req.api_key@ == sentinel_credential() {
                    env_credential matches Some(e) && c.bearer@ == e@
                } else {
                    c.bearer@ == req.api_key@
                }
            },
            Err(e) => {
                &&& e matches ApiError::CredentialMissing
                &&& req.api_key@ == sentinel_credential()
                &&& env_credential is None
            },
        },
{
    let bearer = match resolve_credential(req.api_key.as_str(), env_credential) {
        Ok(k) => k,
        Err(e) => {
            return Err(e);
        },
    };
    let prompt = translation_prompt(req.target_language.as_str());
    let body = chat_body(prompt.as_str(), req.text.as_str(), 1000, true);
    Ok(
        ChatRequest {
            url: "https://api.openai.com/v1/chat/completions".to_owned(),
            bearer,
            body,
        },
    )
}

/// Whether a summarization request carries any text to work on.
pub fn summarize_input_present(text: &str) -> (r: bool)
    ensures
        r == (trim_spec(text@).len() > 0),
{
    let t = trim(text);
    t.as_str().unicode_len() > 0
}

/// Builds the summarization request.  Fails only for a missing credential.
pub fn build_summarize_request(req: &SummarizeRequest, env_credential: &Option<String>) -> (r:
    Result<ChatRequest, ApiError>)
    ensures
        match r {
            Ok(c) => {
                &&& c.url@ == chat_url_spec()
                &&& c.body@ == chat_body_spec(
                    summarizer_prompt_spec(),
                    summarize_user_spec(req.text@),
                    500,
                    false,
                )
                &&& if req.api_key@ == sentinel_credential() {
                    env_credential matches Some(e) && c.bearer@ == e@
                } else {
                    c.bearer@ == req.api_key@
                }
            },
            Err(e) => {
                &&& e matches ApiError::CredentialMissing
                &&& req.api_key@ == sentinel_credential()
                &&& env_credential is None
            },
        },
{
    let bearer = match resolve_credential(req.api_key.as_str(), env_credential) {
        Ok(k) => k,
        Err(e) => {
            return Err(e);
        },
    };
    let mut user = "Please summarize the following text:\n\n".to_owned();
    user.append(req.text.as_str());
    let body = chat_body(
        "You are an expert text summarizer. Create a clear, concise summary that captures the key points and main ideas. Keep it informative but brief. Focus on the most important information.",
        user.as_str(),
        500,
        false,
    );
    Ok(
        ChatRequest {
            url: "https://api.openai.com/v1/chat/completions".to_owned(),
            bearer,
            body,
        },
    )
}

/// The failure result for a transcription attempt with no audio at all.
pub fn empty_audio_result() -> (r: TranscriptionResult)
    ensures
        !r.success,
        r.transcription is None,
        r.error matches Some(e) && e@ == "No audio data provided"@,
{
    TranscriptionResult {
        success: false,
        transcription: None,
        error: Some("No audio data provided".to_owned()),
    }
}

/// Builds the transcription upload from the captured samples.  The
/// credential comes from the environment alone; the payload is the WAV
/// container of the mono buffer at the given device rate.
pub fn build_transcription_request(
    samples: &Vec<u32>,
    sample_rate: u32,
    env_credential: &Option<String>,
) -> (r: Result<TranscriptionRequest, ApiError>)
    requires
        encodable(samples@.len() as int, sample_rate, 1),
    ensures
        match r {
            Ok(t) => {
                &&& env_credential matches Some(e) && t.bearer@ == e@
                &&& t.url@ == transcription_url_spec()
                &&& t.wav_bytes@ == wav_bytes(samples@, sample_rate, 1)
                &&& t.file_name@ == "audio.wav"@
                &&& t.mime_type@ == "audio/wav"@
                &&& t.model@ == "whisper-1"@
            },
            Err(e) => e matches ApiError::CredentialMissing && env_credential is None,
        },
{
    let bearer = match env_credential {
        Some(k) => k.clone(),
        None => {
            return Err(ApiError::CredentialMissing);
        },
    };
    let wav = encode_wav(samples, sample_rate, 1);
    Ok(
        TranscriptionRequest {
            url: "https://api.openai.com/v1/audio/transcriptions".to_owned(),
            bearer,
            wav_bytes: wav,
            file_name: "audio.wav".to_owned(),
            mime_type: "audio/wav".to_owned(),
            model: "whisper-1".to_owned(),
        },
    )
}

/// Gates a response on its status: a success status passes the body
/// through untouched, anything else becomes `UpstreamError` carrying the
/// status and body — before any of the body is interpreted.
pub fn check_status(status: u16, body: String) -> (r: Result<String, ApiError>)
    ensures
        (200 <= status < 300) == (r is Ok),
        r matches Ok(b) ==> b@ == body@,
        r matches Err(e) ==> e matches ApiError::UpstreamError { status: st, body: b } && st
            == status && b@ == body@,
{
    if 200 <= status && status < 300 {
        Ok(body)
    } else {
        Err(ApiError::UpstreamError { status, body })
    }
}

/// What a chat-completion response body yields at
/// `choices[0].message.content`, if anything.  A function of the body text
/// alone; nothing further is assumed about it.
pub uninterp spec fn message_content_of(body: Seq<char>) -> Option<Seq<char>>;

/// Relies on `serde_json::from_str` and `serde_json::Value::{get, as_str}`:
/// parses the response body and reads `choices[0].message.content`.
#[verifier::external_body]
fn parse_message_content(body: &str) -> (r: Option<String>)
    ensures
        (r is Some) == (message_content_of(body@) is Some),
        r matches Some(c) ==> message_content_of(body@) == Some(c@),
{
    let value: serde_json::Value = serde_json::from_str(body).ok()?;
    let content = value.get("choices")?.get(0)?.get("message")?.get("content")?.as_str()?;
    Some(content.to_string())
}

/// What a transcription response body yields at `text`, if anything.  A
/// function of the body text alone; nothing further is assumed about it.
pub uninterp spec fn transcript_text_of(body: Seq<char>) -> Option<Seq<char>>;

/// Relies on `serde_json::from_str` and `serde_json::Value::{get, as_str}`:
/// parses the response body and reads the `text` field.
#[verifier::external_body]
fn parse_transcript_text(body: &str) -> (r: Option<String>)
    ensures
        (r is Some) == (transcript_text_of(body@) is Some),
        r matches Some(t) ==> transcript_text_of(body@) == Some(t@),
{
    let value: serde_json::Value = serde_json::from_str(body).ok()?;
    let text = value.get("text")?.as_str()?;
    Some(text.to_string())
}

/// Turns the extracted message content — or its absence — into the
/// translation outcome.
pub fn translation_from_content(content: Option<String>) -> (r: TranslationResponse)
    ensures
        content matches Some(c) ==> r.success && r.translated_text == Some(c) && r.error is None,
        content is None ==> !r.success && r.translated_text is None && (r.error matches Some(e)
            && e@ == "No translation content in response"@),
{
    match content {
        Some(c) => TranslationResponse { success: true, translated_text: Some(c), error: None },
        None => TranslationResponse {
            success: false,
            translated_text: None,
            error: Some("No translation content in response".to_owned()),
        },
    }
}

/// Interprets a whole (non-streaming) chat response for translation: a
/// non-success status is reported as such; otherwise the outcome follows
/// the extracted content as [`translation_from_content`] says.
pub fn translation_from_response(status: u16, body: &str) -> (r: TranslationResponse)
    ensures
        200 <= status < 300 ==> match message_content_of(body@) {
            Some(c) => r.success && (r.translated_text matches Some(t) && t@ == c) && r.error
                is None,
            None => !r.success && r.translated_text is None && (r.error matches Some(e) && e@
                == "No translation content in response"@),
        },
        !(200 <= status < 300) ==> !r.success && r.translated_text is None && (r.error
            matches Some(e) && e@ == "HTTP error: "@ + dec_spec(status as int)),
{
    if 200 <= status && status < 300 {
        translation_from_content(parse_message_content(body))
    } else {
        let mut msg = "HTTP error: ".to_owned();
        let code = dec_u32(status as u32);
        msg.append(code.as_str());
        TranslationResponse { success: false, translated_text: None, error: Some(msg) }
    }
}

/// Turns the extracted transcript — or its absence — into the
/// transcription outcome: present text is trimmed, and a transcript that
/// is empty after trimming is reported as no speech detected.
pub fn transcription_from_text(text: Option<String>) -> (r: TranscriptionResult)
    ensures
        match text {
            Some(t) => {
                if trim_spec(t@).len() > 0 {
                    r.success && (r.transcription matches Some(x) && x@ == trim_spec(t@))
                        && r.error is None
                } else {
                    !r.success && r.transcription is None && (r.error matches Some(e) && e@
                        == "Whisper returned empty transcription (no speech detected)"@)
                }
            },
            None => !r.success && r.transcription is None && (r.error matches Some(e) && e@
                == "No transcription in response"@),
        },
{
    match text {
        Some(t) => {
            let trimmed = trim(t.as_str());
            if trimmed.as_str().unicode_len() > 0 {
                TranscriptionResult { success: true, transcription: Some(trimmed), error: None }
            } else {
                TranscriptionResult {
                    success: false,
                    transcription: None,
                    error: Some(
                        "Whisper returned empty transcription (no speech detected)".to_owned(),
                    ),
                }
            }
        },
        None => TranscriptionResult {
            success: false,
            transcription: None,
            error: Some("No transcription in response".to_owned()),
        },
    }
}

/// Interprets a whole transcription response: a non-success status is
/// reported with the status code and the body; otherwise the outcome
/// follows the extracted transcript as [`transcription_from_text`] says.
pub fn transcription_from_response(status: u16, body: &str) -> (r: TranscriptionResult)
    ensures
        200 <= status < 300 ==> match transcript_text_of(body@) {
            Some(t) => {
                if trim_spec(t).len() > 0 {
                    r.success && (r.transcription matches Some(x) && x@ == trim_spec(t))
                        && r.error is None
                } else {
                    !r.success && r.transcription is None && (r.error matches Some(e) && e@
                        == "Whisper returned empty transcription (no speech detected)"@)
                }
            },
            None => !r.success && r.transcription is None && (r.error matches Some(e) && e@
                == "No transcription in response"@),
        },
        !(200 <= status < 300) ==> !r.success && r.transcription is None && (r.error
            matches Some(e) && e@ == "API error "@ + dec_spec(status as int) + ": "@ + body@),
{
    if 200 <= status && status < 300 {
        transcription_from_text(parse_transcript_text(body))
    } else {
        let mut msg = "API error ".to_owned();
        let code = dec_u32(status as u32);
        msg.append(code.as_str());
        msg.append(": ");
        msg.append(body);
        TranscriptionResult { success: false, transcription: None, error: Some(msg) }
    }
}

/// Turns the extracted message content — or its absence — into the
/// summarization outcome: the summary is the content, trimmed.
pub fn summary_from_content(content: Option<String>) -> (r: Result<String, ApiError>)
    ensures
        content matches Some(c) ==> r matches Ok(s) && s@ == trim_spec(c@),
        content is None ==> (r matches Err(e) && (e matches ApiError::DecodeError(m) && m@
            == "No summary content in response"@)),
{
    match content {
        Some(c) => Ok(trim(c.as_str())),
        None => Err(ApiError::DecodeError("No summary content in response".to_owned())),
    }
}

/// Interprets a whole summarization response: a non-success status becomes
/// `UpstreamError` with the status and body; otherwise the outcome follows
/// the extracted content as [`summary_from_content`] says.
pub fn summary_from_response(status: u16, body: &str) -> (r: Result<String, ApiError>)
    ensures
        200 <= status < 300 ==> match message_content_of(body@) {
            Some(c) => r matches Ok(s) && s@ == trim_spec(c),
            None => r matches Err(e) && (e matches ApiError::DecodeError(m) && m@
                == "No summary content in response"@),
        },
        !(200 <= status < 300) ==> (r matches Err(e) && (e matches ApiError::UpstreamError {
            status: st,
            body: b,
        } && st == status && b@ == body@)),
{
    if 200 <= status && status < 300 {
        summary_from_content(parse_message_content(body))
    } else {
        Err(ApiError::UpstreamError { status, body: body.to_owned() })
    }
}

} // verus!
