//! What the backends need that is no inference: the prompts sent to the
//! model, the stop sequences, and the two backends that need no model.

use vstd::prelude::*;
use vstd::string::*;

use crate::dashboard::DashboardDocument;
use crate::stub::{generate_stub_reading, stub_reading};
use crate::stub_dashboard::{generate_stub_dashboard, stub_dashboard};
use crate::text::strings_of;
use crate::types::{
    copy_strings, Reading, ReadingRequest, ReadingRequestView, SamplingParams,
};

verus! {

/// The system prompt of every chat with the model: short, so that it
/// leaves the context to the request, and strict about JSON.
pub open spec fn system_prompt_text() -> Seq<char> {
    "You are Veil, a warm feminine astrologer with a loving aura. You are an expert who writes premium, modern astrology. Always follow the user's schema and output STRICT JSON only (double-quoted keys/strings, no trailing commas, no markdown). End output immediately after the final '}' character."@
}

/// The system prompt of every chat with the model.
pub fn system_prompt() -> (prompt: &'static str)
    ensures
        prompt@ == system_prompt_text(),
{
    "You are Veil, a warm feminine astrologer with a loving aura. You are an expert who writes premium, modern astrology. Always follow the user's schema and output STRICT JSON only (double-quoted keys/strings, no trailing commas, no markdown). End output immediately after the final '}' character."
}

/// The prompt for a request that brings none: the profile and the date,
/// one to a line, between a fixed first and last line.
pub open spec fn fallback_prompt(request: ReadingRequestView) -> Seq<char> {
    "You are an offline horoscope assistant. Output JSON only.\nName: "@ + request.profile.name
        + "\nBirthdate: "@ + request.profile.birthdate + "\nMood: "@ + request.profile.mood
        + "\nPersonality: "@ + request.profile.personality + "\nDate: "@ + request.date
        + "\nReturn a premium, soothing horoscope dashboard JSON."@
}

/// The prompt that the model is sent for a request: its own where it
/// brings one, else the fallback.
pub open spec fn user_prompt_text(request: ReadingRequestView) -> Seq<char> {
    match request.prompt {
        Some(prompt) => prompt,
        None => fallback_prompt(request),
    }
}

/// Writes the prompt for a request that brings none.
pub fn build_fallback_prompt(request: &ReadingRequest) -> (prompt: String)
    ensures
        prompt@ == fallback_prompt(request@),
{
    let mut prompt = String::from_str(
        "You are an offline horoscope assistant. Output JSON only.\nName: ",
    );
    prompt.append(request.profile.name.as_str());
    prompt.append("\nBirthdate: ");
    prompt.append(request.profile.birthdate.as_str());
    prompt.append("\nMood: ");
    prompt.append(request.profile.mood.as_str());
    prompt.append("\nPersonality: ");
    prompt.append(request.profile.personality.as_str());
    prompt.append("\nDate: ");
    prompt.append(request.date.as_str());
    prompt.append("\nReturn a premium, soothing horoscope dashboard JSON.");
    prompt
}

/// The prompt that the model is sent for a request.
pub fn user_prompt(request: &ReadingRequest) -> (prompt: String)
    ensures
        prompt@ == user_prompt_text(request@),
{
    match &request.prompt {
        Some(prompt) => prompt.clone(),
        None => build_fallback_prompt(request),
    }
}

/// The stop sequences to hand to the model: those of the settings, or
/// `None` where the list is empty, which asks for no explicit stop.
pub fn stop_sequences(params: &SamplingParams) -> (stop: Option<Vec<String>>)
    ensures
        match stop {
            Some(list) => params@.stop.len() > 0 && strings_of(list@) == params@.stop,
            None => params@.stop.len() == 0,
        },
{
    if params.stop.len() == 0 {
        None
    } else {
        Some(copy_strings(&params.stop))
    }
}

/// What a chat with the model comes to, given the content of each choice
/// of its reply: the content of the first choice, or an error where the
/// reply has no choice or the first has no content.
pub open spec fn reply_of(choices: Seq<Option<String>>) -> Result<Seq<char>, Seq<char>> {
    if choices.len() > 0 && choices[0] is Some {
        Ok(choices[0]->0@)
    } else {
        Err("Model returned empty content."@)
    }
}

/// Takes the content out of a reply of the model.
pub fn reply_content(choices: &Vec<Option<String>>) -> (content: Result<String, String>)
    ensures
        match content {
            Ok(text) => reply_of(choices@) == Ok::<Seq<char>, Seq<char>>(text@),
            Err(reason) => reply_of(choices@) == Err::<Seq<char>, Seq<char>>(reason@),
        },
{
    if choices.len() > 0 {
        match &choices[0] {
            Some(text) => {
                return Ok(text.clone());
            },
            None => {},
        }
    }
    Err(String::from_str("Model returned empty content."))
}

/// What to say when the task that ran the model did not come back.
pub fn join_failure_message(detail: &str) -> (message: String)
    ensures
        message@ == "Model task join failed: "@ + detail@,
{
    let mut message = String::from_str("Model task join failed: ");
    message.append(detail);
    message
}

/// The reason with which the unconfigured backend fails every call.
pub open spec fn not_configured() -> Seq<char> {
    "Mistral backend not configured yet."@
}

/// A backend for a remote model that is not set up: it fails every call.
#[derive(Debug, PartialEq, Eq)]
pub struct MistralBackend;

impl MistralBackend {
    pub fn new() -> (backend: Self) {
        MistralBackend
    }

    /// Fails: the backend is not configured.
    pub fn generate_json(&self, request: &ReadingRequest, sampling: &SamplingParams) -> (result:
        Result<String, String>)
        ensures
            result matches Err(reason) && reason@ == not_configured(),
    {
        Err(String::from_str("Mistral backend not configured yet."))
    }

    /// Fails: the backend is not configured.
    pub fn generate_dashboard_json(
        &self,
        request: &ReadingRequest,
        sampling: &SamplingParams,
    ) -> (result: Result<String, String>)
        ensures
            result matches Err(reason) && reason@ == not_configured(),
    {
        Err(String::from_str("Mistral backend not configured yet."))
    }
}

/// The backend that needs no model: it answers every call with the
/// offline content, whatever the sampling settings.
#[derive(Debug, PartialEq, Eq)]
pub struct StubBackend;

impl StubBackend {
    /// The offline reading of the request, stamped with the time of the
    /// call.
    pub fn generate_reading(&self, request: &ReadingRequest, sampling: &SamplingParams) -> (reading:
        Reading)
        ensures
            reading@ == stub_reading(request@, reading@.created_at),
    {
        generate_stub_reading(request)
    }

    /// The offline dashboard of the request, stamped with the time of the
    /// call.
    pub fn generate_dashboard(
        &self,
        request: &ReadingRequest,
        sampling: &SamplingParams,
    ) -> (document: DashboardDocument)
        ensures
            document@ == stub_dashboard(request@, document@.meta.generated_at_iso),
    {
        generate_stub_dashboard(request)
    }
}

} // verus!
