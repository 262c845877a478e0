//! The text-generation call: the request that asks for a summary of a
//! transcript, and the reading of the answer.
//!
//! The call itself is one request and one response; it is made elsewhere.

use crate::json::{
    element, json_element, json_member, json_parsed, json_quoted, json_string, member, parse_json,
    quote_json, string_of,
};
use crate::progress::{ProgressReporter, Tone};
use crate::settings::{check_model_id, model_id_fault, ConfigError};
use crate::text::{
    line_breaks_restored, restore_line_breaks, signed_decimal, signed_decimal_string, str_view,
};
use vstd::prelude::*;

verus! {

pub const JSON_MEDIA_TYPE: &'static str = "application/json";

/// The model's settings, as a mathematical value.
pub struct ModelParams {
    pub prompt_template: Seq<char>,
    pub anthropic_version: Seq<char>,
    pub system: Seq<char>,
    pub model_id: Seq<char>,
    pub max_tokens: int,
    pub temperature: int,
    pub top_p: int,
    pub top_k: int,
}

/// The model's settings as configured; a missing text is empty and a missing
/// number is zero. A model id must be there: see `check_model_id`.
#[derive(Clone, Debug, PartialEq, Eq)]
pub struct ModelSettings {
    pub prompt_template: String,
    pub anthropic_version: String,
    pub system: String,
    pub model_id: String,
    pub max_tokens: i64,
    pub temperature: i64,
    pub top_p: i64,
    pub top_k: i64,
}

impl View for ModelSettings {
    type V = ModelParams;

    open spec fn view(&self) -> ModelParams {
        ModelParams {
            prompt_template: self.prompt_template@,
            anthropic_version: self.anthropic_version@,
            system: self.system@,
            model_id: self.model_id@,
            max_tokens: self.max_tokens as int,
            temperature: self.temperature as int,
            top_p: self.top_p as int,
            top_k: self.top_k as int,
        }
    }
}

/// One invocation of the model, as a mathematical value.
pub struct Invocation {
    pub model_id: Seq<char>,
    pub content_type: Seq<char>,
    pub accept: Seq<char>,
    pub body: Seq<char>,
}

/// One invocation of the model.
#[derive(Clone, Debug, PartialEq, Eq)]
pub struct InvokeRequest {
    pub model_id: String,
    pub content_type: String,
    pub accept: String,
    pub body: String,
}

impl View for InvokeRequest {
    type V = Invocation;

    open spec fn view(&self) -> Invocation {
        Invocation {
            model_id: self.model_id@,
            content_type: self.content_type@,
            accept: self.accept@,
            body: self.body@,
        }
    }
}

/// The prompt: the template, an empty line, the transcript.
pub open spec fn prompt_text(template: Seq<char>, transcript: Seq<char>) -> Seq<char> {
    template + "\n\n"@ + transcript
}

/// The request body around the already quoted texts: one user message that
/// holds the prompt, and the model's parameters.
pub open spec fn request_body_text(
    quoted_version: Seq<char>,
    max_tokens: int,
    quoted_prompt: Seq<char>,
    quoted_system: Seq<char>,
    temperature: int,
    top_k: int,
    top_p: int,
) -> Seq<char> {
    "{\"anthropic_version\":"@ + quoted_version + ",\"max_tokens\":"@ + signed_decimal(max_tokens)
        + ",\"messages\":[{\"content\":[{\"text\":"@ + quoted_prompt
        + ",\"type\":\"text\"}],\"role\":\"user\"}],\"system\":"@ + quoted_system
        + ",\"temperature\":"@ + signed_decimal(temperature) + ",\"top_k\":"@ + signed_decimal(
        top_k,
    ) + ",\"top_p\":"@ + signed_decimal(top_p) + "}"@
}

/// The invocation that asks for a summary of a transcript.
pub open spec fn invocation_for(params: ModelParams, transcript: Seq<char>) -> Invocation {
    Invocation {
        model_id: params.model_id,
        content_type: JSON_MEDIA_TYPE@,
        accept: JSON_MEDIA_TYPE@,
        body: request_body_text(
            json_quoted(params.anthropic_version),
            params.max_tokens,
            json_quoted(prompt_text(params.prompt_template, transcript)),
            json_quoted(params.system),
            params.temperature,
            params.top_k,
            params.top_p,
        ),
    }
}

/// Lays the already quoted texts and the parameters into the request body.
pub fn request_body(
    quoted_version: &str,
    max_tokens: i64,
    quoted_prompt: &str,
    quoted_system: &str,
    temperature: i64,
    top_k: i64,
    top_p: i64,
) -> (body: String)
    ensures
        body@ == request_body_text(
            quoted_version@,
            max_tokens as int,
            quoted_prompt@,
            quoted_system@,
            temperature as int,
            top_k as int,
            top_p as int,
        ),
{
    let mut body = "{\"anthropic_version\":".to_owned();
    body.append(quoted_version);
    body.append(",\"max_tokens\":");
    body.append(signed_decimal_string(max_tokens).as_str());
    body.append(",\"messages\":[{\"content\":[{\"text\":");
    body.append(quoted_prompt);
    body.append(",\"type\":\"text\"}],\"role\":\"user\"}],\"system\":");
    body.append(quoted_system);
    body.append(",\"temperature\":");
    body.append(signed_decimal_string(temperature).as_str());
    body.append(",\"top_k\":");
    body.append(signed_decimal_string(top_k).as_str());
    body.append(",\"top_p\":");
    body.append(signed_decimal_string(top_p).as_str());
    body.append("}");
    body
}

/// The message shown while the model works.
pub const SUMMARIZING: &'static str = "Summarizing transcription...";

/// The invocation that asks for a summary, or the configuration error where
/// no model is named: without a model nothing is asked.
pub open spec fn summary_request(params: ModelParams, transcript: Seq<char>) -> Result<
    Invocation,
    ConfigError,
> {
    match model_id_fault(params.model_id) {
        Some(error) => Err(error),
        None => Ok(invocation_for(params, transcript)),
    }
}

/// Prepares the summary of a transcript. Where a model is named, the
/// reporter shows that the model is being asked, and the invocation to make
/// is handed out. Where none is named, nothing is to be sent: the
/// configuration error comes back and the reporter stays as it is.
pub fn summarize_text(
    settings: &ModelSettings,
    transcribed_text: &str,
    reporter: &mut ProgressReporter,
) -> (request: Result<InvokeRequest, ConfigError>)
    ensures
        match request {
            Ok(invocation) => summary_request(settings@, transcribed_text@) == Ok::<
                Invocation,
                ConfigError,
            >(invocation@) && final(reporter)@ == old(reporter)@.updated(
                SUMMARIZING@,
                Tone::Neutral,
            ),
            Err(error) => summary_request(settings@, transcribed_text@) == Err::<
                Invocation,
                ConfigError,
            >(error) && final(reporter)@ == old(reporter)@,
        },
{
    match summarize_request(settings, transcribed_text) {
        Ok(invocation) => {
            reporter.update(SUMMARIZING, Tone::Neutral);
            Ok(invocation)
        },
        Err(error) => Err(error),
    }
}

/// Builds the invocation that asks for a summary of a transcript, or gives
/// the configuration error where no model is named.
pub fn summarize_request(settings: &ModelSettings, transcribed_text: &str) -> (request: Result<
    InvokeRequest,
    ConfigError,
>)
    ensures
        match request {
            Ok(invocation) => summary_request(settings@, transcribed_text@) == Ok::<
                Invocation,
                ConfigError,
            >(invocation@),
            Err(error) => summary_request(settings@, transcribed_text@) == Err::<
                Invocation,
                ConfigError,
            >(error),
        },
{
    match check_model_id(settings.model_id.as_str()) {
        Ok(_) => Ok(invocation(settings, transcribed_text)),
        Err(error) => Err(error),
    }
}

fn invocation(settings: &ModelSettings, transcribed_text: &str) -> (request: InvokeRequest)
    ensures
        request@ == invocation_for(settings@, transcribed_text@),
{
    let mut prompt = settings.prompt_template.clone();
    prompt.append("\n\n");
    prompt.append(transcribed_text);
    let quoted_version = quote_json(settings.anthropic_version.as_str());
    let quoted_prompt = quote_json(prompt.as_str());
    let quoted_system = quote_json(settings.system.as_str());
    InvokeRequest {
        model_id: settings.model_id.clone(),
        content_type: JSON_MEDIA_TYPE.to_owned(),
        accept: JSON_MEDIA_TYPE.to_owned(),
        body: request_body(
            quoted_version.as_str(),
            settings.max_tokens,
            quoted_prompt.as_str(),
            quoted_system.as_str(),
            settings.temperature,
            settings.top_k,
            settings.top_p,
        ),
    }
}

/// Why an answer holds no summary.
#[derive(Clone, Copy, Debug, PartialEq, Eq, Structural)]
pub enum SummaryError {
    /// The answer is no text, or no JSON document.
    Malformed,
    /// The document has no text at `content[0].text`.
    MissingText,
}

impl SummaryError {
    pub open spec fn message_text(self) -> Seq<char> {
        match self {
            SummaryError::Malformed => "Summary answer is malformed"@,
            SummaryError::MissingText => "Summary answer holds no text"@,
        }
    }

    /// The message with which the run ends.
    pub fn message(self) -> (message: &'static str)
        ensures
            message@ == self.message_text(),
    {
        match self {
            SummaryError::Malformed => "Summary answer is malformed",
            SummaryError::MissingText => "Summary answer holds no text",
        }
    }
}

/// The text at `content[0].text` of a document.
pub open spec fn summary_field(document: serde_json::Value) -> Option<Seq<char>> {
    match json_member(document, "content"@) {
        Some(content) => match json_element(content, 0) {
            Some(first) => match json_member(first, "text"@) {
                Some(text) => json_string(text),
                None => None,
            },
            None => None,
        },
        None => None,
    }
}

/// The summary that an answer holds: the text at `content[0].text` with its
/// escaped line breaks restored.
pub open spec fn summary_of(body: Option<Seq<char>>) -> Result<Seq<char>, SummaryError> {
    match body {
        None => Err(SummaryError::Malformed),
        Some(text) => match json_parsed(text) {
            None => Err(SummaryError::Malformed),
            Some(document) => match summary_field(document) {
                Some(raw) => Ok(line_breaks_restored(raw)),
                None => Err(SummaryError::MissingText),
            },
        },
    }
}

/// Finds the text at `content[0].text` of a document.
pub fn summary_in(document: &serde_json::Value) -> (found: Option<String>)
    ensures
        match found {
            Some(text) => summary_field(*document) == Some(text@),
            None => summary_field(*document) is None,
        },
{
    match member(document, "content") {
        Some(content) => match element(content, 0) {
            Some(first) => match member(first, "text") {
                Some(text) => match string_of(text) {
                    Some(raw) => Some(raw.to_owned()),
                    None => None,
                },
                None => None,
            },
            None => None,
        },
        None => None,
    }
}

/// Reads the summary out of the model's answer. `body` is the answer as
/// text, `None` where it is no text at all. A missing or misplaced text is an
/// error, never an empty summary.
pub fn summarize_response(body: Option<&str>) -> (summary: Result<String, SummaryError>)
    ensures
        match summary {
            Ok(text) => summary_of(str_view(body)) == Ok::<Seq<char>, SummaryError>(text@),
            Err(e) => summary_of(str_view(body)) == Err::<Seq<char>, SummaryError>(e),
        },
{
    match body {
        None => Err(SummaryError::Malformed),
        Some(text) => match parse_json(text) {
            Err(_) => Err(SummaryError::Malformed),
            Ok(document) => match summary_in(&document) {
                Some(raw) => Ok(restore_line_breaks(raw.as_str())),
                None => Err(SummaryError::MissingText),
            },
        },
    }
}

} // verus!
