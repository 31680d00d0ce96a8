//! What the offline content is written from: the texts of a request, and
//! what the date reader and the lowercase mapping made of them.

use vstd::prelude::*;
use vstd::string::*;

use crate::calendar::{sign_of, zodiac_sign};
use crate::seeded::{seed_of, seeded_hash, SeededRng, SEED_MASK};
use crate::text::{lowercase, to_lowercase};
use crate::types::{ReadingRequest, ReadingRequestView};

verus! {

/// The texts that decide a piece of content.
#[derive(Debug, PartialEq, Eq)]
pub struct Subject {
    pub name: String,
    pub date: String,
    pub sign: String,
    pub mood: String,
    pub mood_lower: String,
    pub personality: String,
    pub personality_lower: String,
}

/// The view of [`Subject`].
pub struct SubjectView {
    pub name: Seq<char>,
    pub date: Seq<char>,
    pub sign: Seq<char>,
    pub mood: Seq<char>,
    pub mood_lower: Seq<char>,
    pub personality: Seq<char>,
    pub personality_lower: Seq<char>,
}

impl View for Subject {
    type V = SubjectView;

    open spec fn view(&self) -> SubjectView {
        SubjectView {
            name: self.name@,
            date: self.date@,
            sign: self.sign@,
            mood: self.mood@,
            mood_lower: self.mood_lower@,
            personality: self.personality@,
            personality_lower: self.personality_lower@,
        }
    }
}

/// The subject of a request: its sign is that of the birthdate, and the
/// lowercase forms are those of the mood and the personality.
pub open spec fn subject_of(request: ReadingRequestView) -> SubjectView {
    SubjectView {
        name: request.profile.name,
        date: request.date,
        sign: sign_of(request.profile.birthdate),
        mood: request.profile.mood,
        mood_lower: lowercase(request.profile.mood),
        personality: request.profile.personality,
        personality_lower: lowercase(request.profile.personality),
    }
}

/// The text that is hashed to the seed: name, date, sign, mood and
/// personality, with a hyphen between each two.
pub open spec fn seed_text(subject: SubjectView) -> Seq<char> {
    subject.name + "-"@ + subject.date + "-"@ + subject.sign + "-"@ + subject.mood + "-"@
        + subject.personality
}

/// The state in which the generator of a subject starts.
pub open spec fn start_state(subject: SubjectView) -> u32 {
    seed_of(seed_text(subject)) ^ SEED_MASK
}

impl Subject {
    /// Reads the subject of a request.
    pub fn of(request: &ReadingRequest) -> (subject: Self)
        ensures
            subject@ == subject_of(request@),
    {
        Subject {
            name: request.profile.name.clone(),
            date: request.date.clone(),
            sign: zodiac_sign(request.profile.birthdate.as_str()),
            mood: request.profile.mood.clone(),
            mood_lower: to_lowercase(request.profile.mood.as_str()),
            personality: request.profile.personality.clone(),
            personality_lower: to_lowercase(request.profile.personality.as_str()),
        }
    }

    /// The generator of this subject, before its first draw.
    pub fn generator(&self) -> (rng: SeededRng)
        ensures
            rng@ == start_state(self@),
    {
        let mut text = self.name.clone();
        text.append("-");
        text.append(self.date.as_str());
        text.append("-");
        text.append(self.sign.as_str());
        text.append("-");
        text.append(self.mood.as_str());
        text.append("-");
        text.append(self.personality.as_str());
        SeededRng::new(seeded_hash(text.as_str()))
    }
}

} // verus!
