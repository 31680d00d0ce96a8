//! The offline reading: a horoscope written from fixed phrases, each chosen
//! by one draw of the subject's generator.
//!
//! The draws come in a fixed order: opening, middle and closer of the
//! message, five for the shuffle of the themes, then title, affirmation,
//! colour and number.

use vstd::prelude::*;
use vstd::string::*;

use crate::calendar::{current_timestamp, sign_of};
use crate::seeded::{
    draw_index, is_arrangement, lemma_scaled_in_range, lemma_shuffle_rearranges,
    lemma_state_after_add, nth_draw, pick, pick_string, scaled, shuffle, shuffle_order, shuffled,
    state_after,
};
use crate::subject::{start_state, subject_of, Subject, SubjectView};
use crate::text::{framed, strings_of, texts_of};
use crate::types::{Reading, ReadingRequest, ReadingRequestView, ReadingView};

verus! {

/// The titles a reading can have.
pub open spec fn reading_titles() -> Seq<Seq<char>> {
    seq![
        "The hush before a bright idea"@,
        "Soft focus, clear intention"@,
        "A horizon you can trust"@,
        "The spark beneath stillness"@,
        "A graceful return to center"@,
    ]
}

/// The first sentences of a message, written around the lowercase mood.
pub open spec fn reading_openings(mood_lower: Seq<char>) -> Seq<Seq<char>> {
    seq![
        "Today opens with a "@ + mood_lower + " current that invites gentler choices."@,
        "The day moves at a "@ + mood_lower + " pace, offering room to breathe."@,
        "You may notice a "@ + mood_lower + " undertone guiding your timing."@,
    ]
}

/// The second sentences of a message. The first names the personality as
/// it was given, the other two in lowercase.
pub open spec fn reading_middles(
    personality: Seq<char>,
    personality_lower: Seq<char>,
) -> Seq<Seq<char>> {
    seq![
        "As a "@ + personality
            + ", you naturally notice patterns others miss, so trust what quietly repeats."@,
        "Your "@ + personality_lower
            + " instincts highlight what is worth protecting and what can soften."@,
        "The "@ + personality_lower
            + " in you is ready to translate intuition into a simple next step."@,
    ]
}

/// The last sentences of a message.
pub open spec fn reading_closers() -> Seq<Seq<char>> {
    seq![
        "Let small rituals ground you, and remember that clarity arrives in layers, not lightning bolts."@,
        "If you pause before responding, the right phrasing will rise on its own."@,
        "Choose one gentle action that honors your energy, and let that be enough."@,
    ]
}

/// The six themes, of which a reading shows three.
pub open spec fn theme_candidates() -> Seq<Seq<char>> {
    seq![
        "Quiet confidence"@,
        "Meaningful timing"@,
        "Boundaries with kindness"@,
        "Creative listening"@,
        "Soft courage"@,
        "Steady focus"@,
    ]
}

/// The affirmations a reading can have.
pub open spec fn affirmations() -> Seq<Seq<char>> {
    seq![
        "I meet today with grounded curiosity."@,
        "I can move gently and still be powerful."@,
        "My inner compass grows clearer with every breath."@,
        "I honor what I feel and choose what I need."@,
    ]
}

/// The lucky colours a reading can have.
pub open spec fn lucky_colors() -> Seq<Seq<char>> {
    seq![
        "Moonlit Indigo"@,
        "Starlight Silver"@,
        "Luminous Lavender"@,
        "Sea-glass Teal"@,
        "Amber Mist"@,
    ]
}

/// The entry of `candidates` that the `n`-th draw of a generator started in
/// `start` picks.
pub open spec fn chosen(candidates: Seq<Seq<char>>, start: u32, n: nat) -> Seq<char> {
    candidates[scaled(nth_draw(start, n), candidates.len() as int)]
}

/// The message: opening, middle and closer by the first three draws, with a
/// space between each two.
pub open spec fn reading_message(subject: SubjectView) -> Seq<char> {
    let start = start_state(subject);
    chosen(reading_openings(subject.mood_lower), start, 1) + " "@ + chosen(
        reading_middles(subject.personality, subject.personality_lower),
        start,
        2,
    ) + " "@ + chosen(reading_closers(), start, 3)
}

/// The themes: the first three of the candidates after a shuffle by the
/// fourth to eighth draw.
pub open spec fn reading_themes(subject: SubjectView) -> Seq<Seq<char>> {
    shuffled(theme_candidates(), state_after(start_state(subject), 3)).take(3)
}

/// The lucky number: the twelfth draw scaled to nine values, from 1.
pub open spec fn reading_lucky_number(subject: SubjectView) -> int {
    scaled(nth_draw(start_state(subject), 12), 9) + 1
}

/// The reading of a subject, stamped with `created_at`.
pub open spec fn reading_of(subject: SubjectView, created_at: Seq<char>) -> ReadingView {
    let start = start_state(subject);
    ReadingView {
        date: subject.date,
        sign: subject.sign,
        title: chosen(reading_titles(), start, 9),
        message: reading_message(subject),
        themes: reading_themes(subject),
        affirmation: chosen(affirmations(), start, 10),
        lucky_color: chosen(lucky_colors(), start, 11),
        lucky_number: reading_lucky_number(subject),
        created_at: created_at,
        source: "stub"@,
    }
}

/// The offline reading of a request, stamped with `created_at`.
pub open spec fn stub_reading(request: ReadingRequestView, created_at: Seq<char>) -> ReadingView {
    reading_of(subject_of(request), created_at)
}

/// True where two readings differ at most in their stamp.
pub open spec fn same_reading(a: ReadingView, b: ReadingView) -> bool {
    a == (ReadingView { created_at: a.created_at, ..b })
}

/// Determinism: two requests that agree on name, date, mood and
/// personality, and whose birthdates give the same sign, have the same
/// reading, whenever each is written; only the stamps can differ.
pub proof fn lemma_reading_determined(
    a: ReadingRequestView,
    b: ReadingRequestView,
    stamp_a: Seq<char>,
    stamp_b: Seq<char>,
)
    requires
        a.profile.name == b.profile.name,
        a.date == b.date,
        a.profile.mood == b.profile.mood,
        a.profile.personality == b.profile.personality,
        sign_of(a.profile.birthdate) == sign_of(b.profile.birthdate),
    ensures
        same_reading(stub_reading(a, stamp_a), stub_reading(b, stamp_b)),
{
    assert(subject_of(a) == subject_of(b));
}

/// Ranges: the lucky number of every reading lies between 1 and 9, and its
/// three themes are candidates from three different places of the list of
/// six.
pub proof fn lemma_reading_ranges(request: ReadingRequestView, created_at: Seq<char>)
    ensures
        ({
            let reading = stub_reading(request, created_at);
            let order = shuffle_order(6, state_after(start_state(subject_of(request)), 3));
            &&& 1 <= reading.lucky_number <= 9
            &&& reading.themes.len() == 3
            &&& is_arrangement(order, 6)
            &&& forall|k: int|
                0 <= k < 3 ==> #[trigger] reading.themes[k] == theme_candidates()[order[k]]
        }),
{
    let start = start_state(subject_of(request));
    lemma_scaled_in_range(nth_draw(start, 12), 9);
    lemma_shuffle_rearranges(theme_candidates(), state_after(start, 3));
}

/// Writes the reading of a subject and stamps it with `created_at`.
pub fn compose_reading(subject: &Subject, created_at: String) -> (reading: Reading)
    ensures
        reading@ == reading_of(subject@, created_at@),
        1 <= reading.lucky_number <= 9,
{
    let mut rng = subject.generator();
    let ghost start: u32 = rng@;

    let titles = [
        "The hush before a bright idea",
        "Soft focus, clear intention",
        "A horizon you can trust",
        "The spark beneath stillness",
        "A graceful return to center",
    ];
    let mood = subject.mood_lower.as_str();
    let openings = [
        framed("Today opens with a ", mood, " current that invites gentler choices."),
        framed("The day moves at a ", mood, " pace, offering room to breathe."),
        framed("You may notice a ", mood, " undertone guiding your timing."),
    ];
    let personality = subject.personality_lower.as_str();
    let middles = [
        framed(
            "As a ",
            subject.personality.as_str(),
            ", you naturally notice patterns others miss, so trust what quietly repeats.",
        ),
        framed(
            "Your ",
            personality,
            " instincts highlight what is worth protecting and what can soften.",
        ),
        framed(
            "The ",
            personality,
            " in you is ready to translate intuition into a simple next step.",
        ),
    ];
    let closers = [
        "Let small rituals ground you, and remember that clarity arrives in layers, not lightning bolts.",
        "If you pause before responding, the right phrasing will rise on its own.",
        "Choose one gentle action that honors your energy, and let that be enough.",
    ];
    proof {
        assert(texts_of(titles@) =~= reading_titles());
        assert(strings_of(openings@) =~= reading_openings(subject@.mood_lower));
        assert(strings_of(middles@) =~= reading_middles(
            subject@.personality,
            subject@.personality_lower,
        ));
        assert(texts_of(closers@) =~= reading_closers());
    }

    assert(rng@ == state_after(start, 0));
    let mut message = pick_string(&mut rng, openings.as_slice());
    assert(rng@ == state_after(start, 1));
    message.append(" ");
    let middle = pick_string(&mut rng, middles.as_slice());
    assert(rng@ == state_after(start, 2));
    message.append(middle.as_str());
    message.append(" ");
    let closer = pick(&mut rng, closers.as_slice());
    assert(rng@ == state_after(start, 3));
    message.append(closer);

    let mut themes = vec![
        "Quiet confidence",
        "Meaningful timing",
        "Boundaries with kindness",
        "Creative listening",
        "Soft courage",
        "Steady focus",
    ];
    proof {
        assert(texts_of(themes@) =~= theme_candidates());
    }
    shuffle(&mut rng, &mut themes);
    proof {
        lemma_state_after_add(start, 3, 5);
        lemma_shuffle_rearranges(theme_candidates(), state_after(start, 3));
    }
    assert(rng@ == state_after(start, 8));

    let title = pick(&mut rng, titles.as_slice());
    assert(rng@ == state_after(start, 9));
    let affirmations = [
        "I meet today with grounded curiosity.",
        "I can move gently and still be powerful.",
        "My inner compass grows clearer with every breath.",
        "I honor what I feel and choose what I need.",
    ];
    let colors = [
        "Moonlit Indigo",
        "Starlight Silver",
        "Luminous Lavender",
        "Sea-glass Teal",
        "Amber Mist",
    ];
    proof {
        assert(texts_of(affirmations@) =~= self::affirmations());
        assert(texts_of(colors@) =~= lucky_colors());
    }
    let affirmation = pick(&mut rng, affirmations.as_slice());
    assert(rng@ == state_after(start, 10));
    let lucky_color = pick(&mut rng, colors.as_slice());
    assert(rng@ == state_after(start, 11));
    let number: usize = draw_index(&mut rng, 9);
    assert(rng@ == state_after(start, 12));

    let reading = Reading {
        date: subject.date.clone(),
        sign: subject.sign.clone(),
        title: String::from_str(title),
        message,
        themes: [
            String::from_str(themes[0]),
            String::from_str(themes[1]),
            String::from_str(themes[2]),
        ],
        affirmation: String::from_str(affirmation),
        lucky_color: String::from_str(lucky_color),
        lucky_number: number as u8 + 1,
        created_at,
        source: String::from_str("stub"),
    };
    proof {
        assert(reading@.themes =~= reading_themes(subject@));
    }
    reading
}

/// The offline reading of a request, stamped with `created_at`. The same
/// request always gives the same reading.
pub fn synthesize_reading(request: &ReadingRequest, created_at: String) -> (reading: Reading)
    ensures
        reading@ == stub_reading(request@, created_at@),
        1 <= reading.lucky_number <= 9,
{
    let subject = Subject::of(request);
    compose_reading(&subject, created_at)
}

/// The offline reading of a request, stamped with the time of the call.
/// Everything but the stamp is decided by the request.
pub fn generate_stub_reading(request: &ReadingRequest) -> (reading: Reading)
    ensures
        reading@ == stub_reading(request@, reading@.created_at),
        1 <= reading.lucky_number <= 9,
{
    synthesize_reading(request, current_timestamp())
}

} // verus!
