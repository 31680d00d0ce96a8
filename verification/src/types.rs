//! The records that cross the library's boundary, each with its view: the
//! same record with every string as a sequence of characters.

use vstd::prelude::*;
use vstd::string::*;

use crate::text::{optional_text, strings_of};

verus! {

/// Where the controller stands with the model. Progress is a percentage.
#[derive(Debug, PartialEq, Eq)]
pub enum ModelStatus {
    Unloaded,
    Loading { progress: u8 },
    Loaded { model_path: String, model_size_bytes: u64 },
    Error { message: String },
}

/// The view of [`ModelStatus`].
pub enum ModelStatusView {
    Unloaded,
    Loading { progress: int },
    Loaded { model_path: Seq<char>, model_size_bytes: int },
    Error { message: Seq<char> },
}

impl View for ModelStatus {
    type V = ModelStatusView;

    open spec fn view(&self) -> ModelStatusView {
        match self {
            ModelStatus::Unloaded => ModelStatusView::Unloaded,
            ModelStatus::Loading { progress } => ModelStatusView::Loading {
                progress: *progress as int,
            },
            ModelStatus::Loaded { model_path, model_size_bytes } => ModelStatusView::Loaded {
                model_path: model_path@,
                model_size_bytes: *model_size_bytes as int,
            },
            ModelStatus::Error { message } => ModelStatusView::Error { message: message@ },
        }
    }
}

impl Clone for ModelStatus {
    fn clone(&self) -> (copy: Self)
        ensures
            copy@ == self@,
    {
        match self {
            ModelStatus::Unloaded => ModelStatus::Unloaded,
            ModelStatus::Loading { progress } => ModelStatus::Loading { progress: *progress },
            ModelStatus::Loaded { model_path, model_size_bytes } => ModelStatus::Loaded {
                model_path: model_path.clone(),
                model_size_bytes: *model_size_bytes,
            },
            ModelStatus::Error { message } => ModelStatus::Error { message: message.clone() },
        }
    }
}

impl ModelStatus {
    /// The status to show where the status itself cannot be read.
    pub fn unreadable() -> (status: Self)
        ensures
            status@ == (ModelStatusView::Error { message: "Unable to read model status"@ }),
    {
        ModelStatus::Error { message: String::from_str("Unable to read model status") }
    }
}

/// What the user told about themselves. Every field is free text.
#[derive(Debug, PartialEq, Eq)]
pub struct Profile {
    pub name: String,
    pub birthdate: String,
    pub mood: String,
    pub personality: String,
}

/// The view of [`Profile`].
pub struct ProfileView {
    pub name: Seq<char>,
    pub birthdate: Seq<char>,
    pub mood: Seq<char>,
    pub personality: Seq<char>,
}

impl View for Profile {
    type V = ProfileView;

    open spec fn view(&self) -> ProfileView {
        ProfileView {
            name: self.name@,
            birthdate: self.birthdate@,
            mood: self.mood@,
            personality: self.personality@,
        }
    }
}

impl Clone for Profile {
    fn clone(&self) -> (copy: Self)
        ensures
            copy@ == self@,
    {
        Profile {
            name: self.name.clone(),
            birthdate: self.birthdate.clone(),
            mood: self.mood.clone(),
            personality: self.personality.clone(),
        }
    }
}

/// One horoscope reading.
#[derive(Debug, PartialEq, Eq)]
pub struct Reading {
    pub date: String,
    pub sign: String,
    pub title: String,
    pub message: String,
    pub themes: [String; 3],
    pub affirmation: String,
    pub lucky_color: String,
    pub lucky_number: u8,
    pub created_at: String,
    pub source: String,
}

/// The view of [`Reading`].
pub struct ReadingView {
    pub date: Seq<char>,
    pub sign: Seq<char>,
    pub title: Seq<char>,
    pub message: Seq<char>,
    pub themes: Seq<Seq<char>>,
    pub affirmation: Seq<char>,
    pub lucky_color: Seq<char>,
    pub lucky_number: int,
    pub created_at: Seq<char>,
    pub source: Seq<char>,
}

impl View for Reading {
    type V = ReadingView;

    open spec fn view(&self) -> ReadingView {
        ReadingView {
            date: self.date@,
            sign: self.sign@,
            title: self.title@,
            message: self.message@,
            themes: strings_of(self.themes@),
            affirmation: self.affirmation@,
            lucky_color: self.lucky_color@,
            lucky_number: self.lucky_number as int,
            created_at: self.created_at@,
            source: self.source@,
        }
    }
}

impl Clone for Reading {
    fn clone(&self) -> (copy: Self)
        ensures
            copy@ == self@,
    {
        let copy = Reading {
            date: self.date.clone(),
            sign: self.sign.clone(),
            title: self.title.clone(),
            message: self.message.clone(),
            themes: [self.themes[0].clone(), self.themes[1].clone(), self.themes[2].clone()],
            affirmation: self.affirmation.clone(),
            lucky_color: self.lucky_color.clone(),
            lucky_number: self.lucky_number,
            created_at: self.created_at.clone(),
            source: self.source.clone(),
        };
        proof {
            assert(copy@.themes =~= self@.themes);
        }
        copy
    }
}

/// How the model is asked to sample. The three fractional settings are held
/// in thousandths: a temperature of 0.45 is 450.
#[derive(Debug, PartialEq, Eq)]
pub struct SamplingParams {
    pub temperature_milli: u32,
    pub top_p_milli: u32,
    pub top_k: u32,
    pub repeat_penalty_milli: u32,
    pub max_tokens: u32,
    pub seed: Option<u32>,
    pub stop: Vec<String>,
}

/// The view of [`SamplingParams`].
pub struct SamplingParamsView {
    pub temperature_milli: int,
    pub top_p_milli: int,
    pub top_k: int,
    pub repeat_penalty_milli: int,
    pub max_tokens: int,
    pub seed: Option<u32>,
    pub stop: Seq<Seq<char>>,
}

impl View for SamplingParams {
    type V = SamplingParamsView;

    open spec fn view(&self) -> SamplingParamsView {
        SamplingParamsView {
            temperature_milli: self.temperature_milli as int,
            top_p_milli: self.top_p_milli as int,
            top_k: self.top_k as int,
            repeat_penalty_milli: self.repeat_penalty_milli as int,
            max_tokens: self.max_tokens as int,
            seed: self.seed,
            stop: strings_of(self.stop@),
        }
    }
}

/// The settings used where a request brings none.
pub open spec fn default_sampling() -> SamplingParamsView {
    SamplingParamsView {
        temperature_milli: 450,
        top_p_milli: 900,
        top_k: 50,
        repeat_penalty_milli: 1100,
        max_tokens: 3600,
        seed: None,
        stop: Seq::empty(),
    }
}

impl Default for SamplingParams {
    fn default() -> (params: Self)
        ensures
            params@ == default_sampling(),
    {
        let params = SamplingParams {
            temperature_milli: 450,
            top_p_milli: 900,
            top_k: 50,
            repeat_penalty_milli: 1100,
            // A dashboard is large: a low limit cuts the output short.
            max_tokens: 3600,
            seed: None,
            stop: Vec::new(),
        };
        proof {
            assert(params@.stop =~= Seq::<Seq<char>>::empty());
        }
        params
    }
}

/// Copies a list of strings.
pub fn copy_strings(values: &Vec<String>) -> (copy: Vec<String>)
    ensures
        strings_of(copy@) == strings_of(values@),
{
    let mut copy: Vec<String> = Vec::new();
    let mut i: usize = 0;
    while i < values.len()
        invariant
            i <= values.len(),
            copy@.len() == i,
            forall|k: int| 0 <= k < i ==> copy@[k]@ == values@[k]@,
        decreases values.len() - i,
    {
        copy.push(values[i].clone());
        i += 1;
    }
    proof {
        assert(strings_of(copy@) =~= strings_of(values@));
    }
    copy
}

impl Clone for SamplingParams {
    fn clone(&self) -> (copy: Self)
        ensures
            copy@ == self@,
    {
        SamplingParams {
            temperature_milli: self.temperature_milli,
            top_p_milli: self.top_p_milli,
            top_k: self.top_k,
            repeat_penalty_milli: self.repeat_penalty_milli,
            max_tokens: self.max_tokens,
            seed: self.seed,
            stop: copy_strings(&self.stop),
        }
    }
}

/// One call for content: who asks, for which day, and how the model is to
/// be asked.
#[derive(Debug, PartialEq, Eq)]
pub struct ReadingRequest {
    pub profile: Profile,
    pub date: String,
    pub prompt: Option<String>,
    pub sampling: SamplingParams,
}

/// The view of [`ReadingRequest`].
pub struct ReadingRequestView {
    pub profile: ProfileView,
    pub date: Seq<char>,
    pub prompt: Option<Seq<char>>,
    pub sampling: SamplingParamsView,
}

impl View for ReadingRequest {
    type V = ReadingRequestView;

    open spec fn view(&self) -> ReadingRequestView {
        ReadingRequestView {
            profile: self.profile@,
            date: self.date@,
            prompt: optional_text(self.prompt),
            sampling: self.sampling@,
        }
    }
}

impl ReadingRequest {
    /// A request; the default settings stand in where `sampling` is `None`.
    pub fn new(
        profile: Profile,
        date: String,
        prompt: Option<String>,
        sampling: Option<SamplingParams>,
    ) -> (request: Self)
        ensures
            request@.profile == profile@,
            request@.date == date@,
            request@.prompt == optional_text(prompt),
            request@.sampling == match sampling {
                Some(given) => given@,
                None => default_sampling(),
            },
    {
        let sampling = match sampling {
            Some(given) => given,
            None => SamplingParams::default(),
        };
        ReadingRequest { profile, date, prompt, sampling }
    }
}

/// One step of a streamed reading.
#[derive(Debug, PartialEq, Eq)]
pub enum StreamEvent {
    Start,
    Chunk { chunk: String },
    End,
}

/// The view of [`StreamEvent`].
pub enum StreamEventView {
    Start,
    Chunk { chunk: Seq<char> },
    End,
}

impl View for StreamEvent {
    type V = StreamEventView;

    open spec fn view(&self) -> StreamEventView {
        match self {
            StreamEvent::Start => StreamEventView::Start,
            StreamEvent::Chunk { chunk } => StreamEventView::Chunk { chunk: chunk@ },
            StreamEvent::End => StreamEventView::End,
        }
    }
}

} // verus!
