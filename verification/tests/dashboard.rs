use veil::almanac::{
    best_hours, compatibility, do_dont, journal_ritual, month, sections, tabs, transits, week, year,
};
use veil::dashboard::{DashboardDocument, DashboardMeta, Lucky, Moon, Ratings};
use veil::stub_dashboard::{compose_dashboard, generate_stub_dashboard, synthesize_dashboard};
use veil::subject::Subject;
use veil::types::{Profile, ReadingRequest};

fn request(name: &str, birthdate: &str, mood: &str, personality: &str, date: &str) -> ReadingRequest {
    ReadingRequest::new(
        Profile {
            name: name.to_string(),
            birthdate: birthdate.to_string(),
            mood: mood.to_string(),
            personality: personality.to_string(),
        },
        date.to_string(),
        None,
        None,
    )
}

fn restamped(document: DashboardDocument, stamp: &str) -> DashboardDocument {
    DashboardDocument {
        meta: DashboardMeta { generated_at_iso: stamp.to_string(), ..document.meta },
        ..document
    }
}

#[test]
fn dashboard_for_ava() {
    let document = generate_stub_dashboard(&request("Ava", "1990-04-25", "Calm", "Dreamer", "2024-03-01"));
    assert_eq!(document.meta.date_iso, "2024-03-01");
    assert_eq!(document.meta.locale_date_label, "Friday, March 1");
    assert_eq!(document.meta.sign, "Taurus");
    assert_eq!(document.meta.name, "Ava");
    assert_eq!(document.today.headline, "Soft focus, clear intention");
    assert_eq!(
        document.today.subhead,
        "You move through a calm rhythm that rewards patience. As Taurus, your dreamer nature notices subtle shifts first. Pause before replying and your best phrasing will surface."
    );
    assert_eq!(document.today.theme, "Ease");
    assert_eq!(document.today.energy_score, 93);
    assert_eq!(document.today.ratings, Ratings { love: 5, work: 3, money: 4, health: 3 });
    assert_eq!(
        document.today.lucky,
        Lucky { color: "Soft Lavender".to_string(), number: 7, symbol: "★".to_string() }
    );
    assert_eq!(
        document.cosmic_weather.moon,
        Moon { phase: "First Quarter".to_string(), sign: "Cancer".to_string() }
    );
}

#[test]
fn dashboard_for_an_unreadable_birthdate() {
    let document =
        generate_stub_dashboard(&request("Zoë", "not-a-date", "Restless", "Quiet Builder", "2025-12-31"));
    assert_eq!(document.meta.locale_date_label, "Wednesday, December 31");
    assert_eq!(document.meta.sign, "Unknown");
    assert_eq!(document.meta.name, "Zoë");
    assert_eq!(document.today.headline, "A horizon you can trust");
    assert_eq!(
        document.today.subhead,
        "You move through a restless rhythm that rewards patience. As Unknown, your quiet builder nature notices subtle shifts first. Choose one gentle action that honors your energy, and let that be enough."
    );
    assert_eq!(document.today.theme, "Alignment");
    assert_eq!(document.today.energy_score, 98);
    assert_eq!(document.today.ratings, Ratings { love: 5, work: 3, money: 3, health: 3 });
    assert_eq!(
        document.today.lucky,
        Lucky { color: "Moonlit Indigo".to_string(), number: 4, symbol: "★".to_string() }
    );
    assert_eq!(
        document.cosmic_weather.moon,
        Moon { phase: "Waxing Crescent".to_string(), sign: "Libra".to_string() }
    );
}

#[test]
fn dashboard_for_a_date_that_is_no_date() {
    let document = generate_stub_dashboard(&request("Noor", "1988-12-22", "Hopeful", "Explorer", "tomorrow"));
    assert_eq!(document.meta.date_iso, "tomorrow");
    assert_eq!(document.meta.locale_date_label, "tomorrow");
    assert_eq!(document.meta.sign, "Capricorn");
    assert_eq!(document.today.headline, "Soft focus, clear intention");
    assert_eq!(
        document.today.subhead,
        "You move through a hopeful rhythm that rewards patience. The explorer in you translates intuition into one clear step. Pause before replying and your best phrasing will surface."
    );
    assert_eq!(document.today.theme, "Alignment");
    assert_eq!(document.today.energy_score, 63);
    assert_eq!(document.today.ratings, Ratings { love: 5, work: 3, money: 4, health: 3 });
    assert_eq!(document.today.lucky, Lucky { color: "Gold".to_string(), number: 9, symbol: "☾".to_string() });
    assert_eq!(
        document.cosmic_weather.moon,
        Moon { phase: "Full Moon".to_string(), sign: "Cancer".to_string() }
    );
}

#[test]
fn dashboard_holds_the_fixed_sections() {
    let document = synthesize_dashboard(&request("Ava", "1990-04-25", "Calm", "Dreamer", "2024-03-01"), String::new());
    assert_eq!(document.tabs, tabs());
    assert_eq!(document.today.best_hours, best_hours());
    assert_eq!(document.today.do_dont, do_dont());
    assert_eq!(document.today.sections, sections());
    assert_eq!(document.cosmic_weather.transits, transits());
    assert_eq!(
        document.cosmic_weather.affects_today,
        "Emotional tides rise and fall; choose calm responses."
    );
    assert_eq!(document.compatibility, compatibility());
    assert_eq!(document.journal_ritual, journal_ritual());
    assert_eq!(document.week, week());
    assert_eq!(document.month, month());
    assert_eq!(document.year, year());
}

#[test]
fn fixed_sections_read_as_written() {
    assert_eq!(tabs().active_default, "today");
    let hours = best_hours();
    assert_eq!(hours.len(), 2);
    assert_eq!((hours[0].label.as_str(), hours[0].start.as_str(), hours[0].end.as_str()), ("Morning", "9:00 AM", "11:00 AM"));
    assert_eq!((hours[1].label.as_str(), hours[1].start.as_str(), hours[1].end.as_str()), ("Evening", "5:00 PM", "7:00 PM"));
    assert_eq!(do_dont().do_text, "Trust your instincts and keep plans simple.");
    assert_eq!(do_dont().dont_text, "Overshare or rush to fill quiet moments.");
    let titles: Vec<String> = sections().into_iter().map(|section| section.title).collect();
    assert_eq!(titles, vec!["Focus", "Relationships", "Action", "Reflection"]);
    assert_eq!(sections()[3].body, "Notice what feels steady and keep returning to it.");
    assert_eq!(transits()[0].title, "Mercury review cycle");
    assert_eq!(transits()[1].tone, "soft");
    assert_eq!(compatibility().best_flow_with, vec!["Aries", "Gemini"]);
    assert_eq!(compatibility().handle_gently_with, vec!["Taurus"]);
    assert_eq!(compatibility().tips.affection, "Playful honesty keeps the mood light.");
    assert_eq!(journal_ritual().starters, vec!["I feel…", "I need…", "I'm avoiding…"]);
    assert_eq!(journal_ritual().best_day_for_decisions.day_label, "Thursday");
    assert_eq!(week().arc.midweek, "Tune inward before making changes.");
    assert_eq!(week().best_day_for.rest, "Sunday");
    assert_eq!(month().key_dates.len(), 3);
    assert_eq!(month().key_dates[0].date_label, "Jan 9–10");
    assert_eq!(month().new_moon.intention, "Commit to one steady practice.");
    assert_eq!(month().full_moon.release, "Let go of scattered priorities.");
    assert_eq!(year().quarters.len(), 4);
    assert_eq!(year().quarters[2].focus, "Visibility grows with steady effort.");
    assert_eq!(year().power_months, vec!["March", "July"]);
    assert_eq!(year().challenge_month.month, "October");
}

#[test]
fn dashboard_is_stamped_with_the_time_of_the_call() {
    let before = chrono::Utc::now();
    let document = generate_stub_dashboard(&request("Ava", "1990-04-25", "Calm", "Dreamer", "2024-03-01"));
    let after = chrono::Utc::now();
    let stamp =
        chrono::DateTime::parse_from_rfc3339(&document.meta.generated_at_iso).expect("an RFC 3339 stamp");
    assert!(before <= stamp && stamp <= after);
}

#[test]
fn dashboard_is_deterministic() {
    let first = synthesize_dashboard(&request("Ava", "1990-04-25", "Calm", "Dreamer", "2024-03-01"), "a".to_string());
    let second = synthesize_dashboard(&request("Ava", "1990-04-25", "Calm", "Dreamer", "2024-03-01"), "b".to_string());
    assert_ne!(first, second);
    assert_eq!(first, restamped(second, "a"));
}

#[test]
fn compose_dashboard_takes_the_subject_as_it_is() {
    let subject = Subject::of(&request("Ava", "1990-04-25", "Calm", "Dreamer", "2024-03-01"));
    let composed = compose_dashboard(&subject, "Some day".to_string(), "now".to_string());
    let synthesized =
        synthesize_dashboard(&request("Ava", "1990-04-25", "Calm", "Dreamer", "2024-03-01"), "now".to_string());
    assert_eq!(composed.meta.locale_date_label, "Some day");
    assert_eq!(composed.today, synthesized.today);
    assert_eq!(composed.cosmic_weather, synthesized.cosmic_weather);
}

#[test]
fn energy_score_and_ratings_stay_in_range() {
    let mut lowest = u8::MAX;
    let mut highest = u8::MIN;
    for index in 0..10_000u32 {
        let name = format!("user{}", index.wrapping_mul(2246822519));
        let date = format!("2024-{:02}-{:02}", index / 28 % 12 + 1, index % 28 + 1);
        let document = synthesize_dashboard(&request(&name, "1990-04-25", "Calm", "Dreamer", &date), String::new());
        let today = document.today;
        assert!((55..=99).contains(&today.energy_score));
        assert!((1..=9).contains(&today.lucky.number));
        assert!((3..=5).contains(&today.ratings.love));
        assert!((3..=5).contains(&today.ratings.work));
        assert!((2..=4).contains(&today.ratings.money));
        assert!((3..=5).contains(&today.ratings.health));
        lowest = lowest.min(today.energy_score);
        highest = highest.max(today.energy_score);
    }
    assert_eq!((lowest, highest), (55, 99));
}
