//! The offline dashboard: the fixed sections, and around them what the
//! subject's generator chooses.
//!
//! The draws come in a fixed order: headline; opening, middle and closer of
//! the subhead; theme; energy score; the ratings for love, work, money and
//! health; lucky colour, number and symbol; phase and sign of the moon.

use vstd::prelude::*;
use vstd::string::*;

use crate::almanac::{
    best_hours, compatibility, do_dont, fixed_best_hours, fixed_compatibility, fixed_do_dont,
    fixed_journal_ritual, fixed_month, fixed_sections, fixed_tabs, fixed_transits, fixed_week,
    fixed_year, journal_ritual, month, sections, tabs, transits, week, year,
};
use crate::calendar::{current_timestamp, date_label, label_of, sign_of};
use crate::dashboard::{
    CosmicWeather, CosmicWeatherView, DashboardDocument, DashboardDocumentView,
    DashboardMeta, DashboardMetaView, Lucky, LuckyView, Moon, MoonView, Ratings, RatingsView,
    Today, TodayView,
};
use crate::seeded::{
    draw_index, lemma_scaled_in_range, nth_draw, pick, pick_string, scaled, state_after,
};
use crate::stub::chosen;
use crate::subject::{start_state, subject_of, Subject, SubjectView};
use crate::text::{framed, strings_of, texts_of};
use crate::types::{ReadingRequest, ReadingRequestView};

verus! {

/// The headlines a dashboard can have.
pub open spec fn dashboard_titles() -> Seq<Seq<char>> {
    seq![
        "Soft focus, clear intention"@,
        "The hush before a bright idea"@,
        "A horizon you can trust"@,
        "The spark beneath stillness"@,
        "A graceful return to center"@,
    ]
}

/// The first sentences of a subhead, written around the lowercase mood.
pub open spec fn dashboard_openings(mood_lower: Seq<char>) -> Seq<Seq<char>> {
    seq![
        "The day opens with a "@ + mood_lower + " current that invites gentler choices."@,
        "A "@ + mood_lower + " undertone guides your timing and attention."@,
        "You move through a "@ + mood_lower + " rhythm that rewards patience."@,
    ]
}

/// The second sentences of a subhead, written around the sign and the
/// lowercase personality.
pub open spec fn dashboard_middles(sign: Seq<char>, personality_lower: Seq<char>) -> Seq<
    Seq<char>,
> {
    seq![
        "As "@ + sign + ", your "@ + personality_lower
            + " nature notices subtle shifts first."@,
        "Your "@ + personality_lower + " instincts highlight what wants to soften."@,
        "The "@ + personality_lower + " in you translates intuition into one clear step."@,
    ]
}

/// The last sentences of a subhead.
pub open spec fn dashboard_closers() -> Seq<Seq<char>> {
    seq![
        "Let small rituals ground you, and let clarity arrive in layers."@,
        "Pause before replying and your best phrasing will surface."@,
        "Choose one gentle action that honors your energy, and let that be enough."@,
    ]
}

/// The themes a day can have.
pub open spec fn day_themes() -> Seq<Seq<char>> {
    seq!["Clarity"@, "Patience"@, "Warmth"@, "Alignment"@, "Ease"@]
}

/// The lucky colours of a dashboard.
pub open spec fn dashboard_colors() -> Seq<Seq<char>> {
    seq!["Gold"@, "Moonlit Indigo"@, "Soft Lavender"@, "Sea-glass Teal"@]
}

/// The lucky symbols.
pub open spec fn lucky_symbols() -> Seq<Seq<char>> {
    seq!["★"@, "☾"@, "✦"@]
}

/// The phases of the moon.
pub open spec fn moon_phases() -> Seq<Seq<char>> {
    seq!["First Quarter"@, "Waxing Crescent"@, "Full Moon"@, "New Moon"@]
}

/// The signs the moon can stand in.
pub open spec fn moon_signs() -> Seq<Seq<char>> {
    seq!["Cancer"@, "Libra"@, "Scorpio"@, "Taurus"@]
}

/// The `n`-th draw scaled to `count` values that start at `lowest`.
pub open spec fn rated(start: u32, n: nat, count: int, lowest: int) -> int {
    scaled(nth_draw(start, n), count) + lowest
}

/// The subhead: opening, middle and closer by the second to fourth draw,
/// with a space between each two.
pub open spec fn dashboard_subhead(subject: SubjectView) -> Seq<char> {
    let start = start_state(subject);
    chosen(dashboard_openings(subject.mood_lower), start, 2) + " "@ + chosen(
        dashboard_middles(subject.sign, subject.personality_lower),
        start,
        3,
    ) + " "@ + chosen(dashboard_closers(), start, 4)
}

/// The section on the day.
pub open spec fn today_of(subject: SubjectView) -> TodayView {
    let start = start_state(subject);
    TodayView {
        headline: chosen(dashboard_titles(), start, 1),
        subhead: dashboard_subhead(subject),
        theme: chosen(day_themes(), start, 5),
        energy_score: rated(start, 6, 45, 55),
        best_hours: fixed_best_hours(),
        ratings: RatingsView {
            love: rated(start, 7, 3, 3),
            work: rated(start, 8, 3, 3),
            money: rated(start, 9, 3, 2),
            health: rated(start, 10, 3, 3),
        },
        lucky: LuckyView {
            color: chosen(dashboard_colors(), start, 11),
            number: rated(start, 12, 9, 1),
            symbol: chosen(lucky_symbols(), start, 13),
        },
        do_dont: fixed_do_dont(),
        sections: fixed_sections(),
    }
}

/// The section on the sky.
pub open spec fn cosmic_weather_of(subject: SubjectView) -> CosmicWeatherView {
    let start = start_state(subject);
    CosmicWeatherView {
        moon: MoonView {
            phase: chosen(moon_phases(), start, 14),
            sign: chosen(moon_signs(), start, 15),
        },
        transits: fixed_transits(),
        affects_today: "Emotional tides rise and fall; choose calm responses."@,
    }
}

/// The dashboard of a subject, with the label of its day and the stamp of
/// its making.
pub open spec fn dashboard_of(
    subject: SubjectView,
    date_label: Seq<char>,
    generated_at: Seq<char>,
) -> DashboardDocumentView {
    DashboardDocumentView {
        meta: DashboardMetaView {
            date_iso: subject.date,
            locale_date_label: date_label,
            generated_at_iso: generated_at,
            sign: subject.sign,
            name: subject.name,
        },
        tabs: fixed_tabs(),
        today: today_of(subject),
        cosmic_weather: cosmic_weather_of(subject),
        compatibility: fixed_compatibility(),
        journal_ritual: fixed_journal_ritual(),
        week: fixed_week(),
        month: fixed_month(),
        year: fixed_year(),
    }
}

/// The offline dashboard of a request, stamped with `generated_at`.
pub open spec fn stub_dashboard(
    request: ReadingRequestView,
    generated_at: Seq<char>,
) -> DashboardDocumentView {
    dashboard_of(subject_of(request), label_of(request.date), generated_at)
}

/// True where two dashboards differ at most in their stamp.
pub open spec fn same_dashboard(a: DashboardDocumentView, b: DashboardDocumentView) -> bool {
    a == (DashboardDocumentView {
        meta: DashboardMetaView { generated_at_iso: a.meta.generated_at_iso, ..b.meta },
        ..b
    })
}

/// Determinism: two requests that agree on name, date, mood and
/// personality, and whose birthdates give the same sign, have the same
/// dashboard, whenever each is written; only the stamps can differ.
pub proof fn lemma_dashboard_determined(
    a: ReadingRequestView,
    b: ReadingRequestView,
    stamp_a: Seq<char>,
    stamp_b: Seq<char>,
)
    requires
        a.profile.name == b.profile.name,
        a.date == b.date,
        a.profile.mood == b.profile.mood,
        a.profile.personality == b.profile.personality,
        sign_of(a.profile.birthdate) == sign_of(b.profile.birthdate),
    ensures
        same_dashboard(stub_dashboard(a, stamp_a), stub_dashboard(b, stamp_b)),
{
    assert(subject_of(a) == subject_of(b));
}

/// Ranges: in every dashboard the energy score lies between 55 and 99, the
/// lucky number between 1 and 9, the rating for money between 2 and 4 and
/// the other ratings between 3 and 5.
pub proof fn lemma_dashboard_ranges(request: ReadingRequestView, generated_at: Seq<char>)
    ensures
        ({
            let today = stub_dashboard(request, generated_at).today;
            &&& 55 <= today.energy_score <= 99
            &&& 1 <= today.lucky.number <= 9
            &&& 3 <= today.ratings.love <= 5
            &&& 3 <= today.ratings.work <= 5
            &&& 2 <= today.ratings.money <= 4
            &&& 3 <= today.ratings.health <= 5
        }),
{
    let start = start_state(subject_of(request));
    lemma_scaled_in_range(nth_draw(start, 6), 45);
    lemma_scaled_in_range(nth_draw(start, 7), 3);
    lemma_scaled_in_range(nth_draw(start, 8), 3);
    lemma_scaled_in_range(nth_draw(start, 9), 3);
    lemma_scaled_in_range(nth_draw(start, 10), 3);
    lemma_scaled_in_range(nth_draw(start, 12), 9);
}

/// Writes the dashboard of a subject.
pub fn compose_dashboard(subject: &Subject, date_label: String, generated_at: String) -> (document:
    DashboardDocument)
    ensures
        document@ == dashboard_of(subject@, date_label@, generated_at@),
        55 <= document.today.energy_score <= 99,
        1 <= document.today.lucky.number <= 9,
{
    let mut rng = subject.generator();
    let ghost start: u32 = rng@;
    assert(rng@ == state_after(start, 0));

    let titles = [
        "Soft focus, clear intention",
        "The hush before a bright idea",
        "A horizon you can trust",
        "The spark beneath stillness",
        "A graceful return to center",
    ];
    proof {
        assert(texts_of(titles@) =~= dashboard_titles());
    }
    let headline = pick(&mut rng, titles.as_slice());
    assert(rng@ == state_after(start, 1));

    let mood = subject.mood_lower.as_str();
    let openings = [
        framed("The day opens with a ", mood, " current that invites gentler choices."),
        framed("A ", mood, " undertone guides your timing and attention."),
        framed("You move through a ", mood, " rhythm that rewards patience."),
    ];
    let personality = subject.personality_lower.as_str();
    let mut shifts = framed("As ", subject.sign.as_str(), ", your ");
    shifts.append(personality);
    shifts.append(" nature notices subtle shifts first.");
    let middles = [
        shifts,
        framed("Your ", personality, " instincts highlight what wants to soften."),
        framed("The ", personality, " in you translates intuition into one clear step."),
    ];
    let closers = [
        "Let small rituals ground you, and let clarity arrive in layers.",
        "Pause before replying and your best phrasing will surface.",
        "Choose one gentle action that honors your energy, and let that be enough.",
    ];
    proof {
        assert(strings_of(openings@) =~= dashboard_openings(subject@.mood_lower));
        assert(strings_of(middles@) =~= dashboard_middles(
            subject@.sign,
            subject@.personality_lower,
        ));
        assert(texts_of(closers@) =~= dashboard_closers());
    }
    let mut subhead = pick_string(&mut rng, openings.as_slice());
    assert(rng@ == state_after(start, 2));
    subhead.append(" ");
    let middle = pick_string(&mut rng, middles.as_slice());
    assert(rng@ == state_after(start, 3));
    subhead.append(middle.as_str());
    subhead.append(" ");
    let closer = pick(&mut rng, closers.as_slice());
    assert(rng@ == state_after(start, 4));
    subhead.append(closer);

    let themes = ["Clarity", "Patience", "Warmth", "Alignment", "Ease"];
    let colors = ["Gold", "Moonlit Indigo", "Soft Lavender", "Sea-glass Teal"];
    let symbols = ["★", "☾", "✦"];
    let phases = ["First Quarter", "Waxing Crescent", "Full Moon", "New Moon"];
    let signs = ["Cancer", "Libra", "Scorpio", "Taurus"];
    proof {
        assert(texts_of(themes@) =~= day_themes());
        assert(texts_of(colors@) =~= dashboard_colors());
        assert(texts_of(symbols@) =~= lucky_symbols());
        assert(texts_of(phases@) =~= moon_phases());
        assert(texts_of(signs@) =~= moon_signs());
    }
    let theme = pick(&mut rng, themes.as_slice());
    assert(rng@ == state_after(start, 5));
    let energy: usize = draw_index(&mut rng, 45);
    assert(rng@ == state_after(start, 6));
    let love: usize = draw_index(&mut rng, 3);
    assert(rng@ == state_after(start, 7));
    let work: usize = draw_index(&mut rng, 3);
    assert(rng@ == state_after(start, 8));
    let money: usize = draw_index(&mut rng, 3);
    assert(rng@ == state_after(start, 9));
    let health: usize = draw_index(&mut rng, 3);
    assert(rng@ == state_after(start, 10));
    let color = pick(&mut rng, colors.as_slice());
    assert(rng@ == state_after(start, 11));
    let number: usize = draw_index(&mut rng, 9);
    assert(rng@ == state_after(start, 12));
    let symbol = pick(&mut rng, symbols.as_slice());
    assert(rng@ == state_after(start, 13));
    let phase = pick(&mut rng, phases.as_slice());
    assert(rng@ == state_after(start, 14));
    let moon_sign = pick(&mut rng, signs.as_slice());
    assert(rng@ == state_after(start, 15));

    let today = Today {
        headline: String::from_str(headline),
        subhead,
        theme: String::from_str(theme),
        energy_score: energy as u8 + 55,
        best_hours: best_hours(),
        ratings: Ratings {
            love: love as u8 + 3,
            work: work as u8 + 3,
            money: money as u8 + 2,
            health: health as u8 + 3,
        },
        lucky: Lucky {
            color: String::from_str(color),
            number: number as u8 + 1,
            symbol: String::from_str(symbol),
        },
        do_dont: do_dont(),
        sections: sections(),
    };
    assert(today@ == today_of(subject@));
    let cosmic_weather = CosmicWeather {
        moon: Moon { phase: String::from_str(phase), sign: String::from_str(moon_sign) },
        transits: transits(),
        affects_today: String::from_str("Emotional tides rise and fall; choose calm responses."),
    };
    assert(cosmic_weather@ == cosmic_weather_of(subject@));
    DashboardDocument {
        meta: DashboardMeta {
            date_iso: subject.date.clone(),
            locale_date_label: date_label,
            generated_at_iso: generated_at,
            sign: subject.sign.clone(),
            name: subject.name.clone(),
        },
        tabs: tabs(),
        today,
        cosmic_weather,
        compatibility: compatibility(),
        journal_ritual: journal_ritual(),
        week: week(),
        month: month(),
        year: year(),
    }
}

/// The offline dashboard of a request, stamped with `generated_at`. The
/// same request always gives the same dashboard.
pub fn synthesize_dashboard(request: &ReadingRequest, generated_at: String) -> (document:
    DashboardDocument)
    ensures
        document@ == stub_dashboard(request@, generated_at@),
        55 <= document.today.energy_score <= 99,
        1 <= document.today.lucky.number <= 9,
{
    let subject = Subject::of(request);
    let label = date_label(request.date.as_str());
    compose_dashboard(&subject, label, generated_at)
}

/// The offline dashboard of a request, stamped with the time of the call.
/// Everything but the stamp is decided by the request.
pub fn generate_stub_dashboard(request: &ReadingRequest) -> (document: DashboardDocument)
    ensures
        document@ == stub_dashboard(request@, document@.meta.generated_at_iso),
        55 <= document.today.energy_score <= 99,
        1 <= document.today.lucky.number <= 9,
{
    synthesize_dashboard(request, current_timestamp())
}

} // verus!
