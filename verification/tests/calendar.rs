use veil::calendar::{date_label, label_or_text, sign_for, sign_of_day, zodiac_sign, CalendarDate};

#[test]
fn zodiac_boundaries() {
    assert_eq!(zodiac_sign("2024-03-21"), "Aries");
    assert_eq!(zodiac_sign("2024-03-20"), "Pisces");
    assert_eq!(zodiac_sign("2024-12-21"), "Sagittarius");
    assert_eq!(zodiac_sign("2024-12-22"), "Capricorn");
    assert_eq!(zodiac_sign("not-a-date"), "Unknown");
}

#[test]
fn every_sign_has_its_first_and_last_day() {
    let ranges = [
        ((3, 21), (4, 19), "Aries"),
        ((4, 20), (5, 20), "Taurus"),
        ((5, 21), (6, 20), "Gemini"),
        ((6, 21), (7, 22), "Cancer"),
        ((7, 23), (8, 22), "Leo"),
        ((8, 23), (9, 22), "Virgo"),
        ((9, 23), (10, 22), "Libra"),
        ((10, 23), (11, 21), "Scorpio"),
        ((11, 22), (12, 21), "Sagittarius"),
        ((12, 22), (1, 19), "Capricorn"),
        ((1, 20), (2, 18), "Aquarius"),
        ((2, 19), (3, 20), "Pisces"),
    ];
    for ((first_month, first_day), (last_month, last_day), sign) in ranges {
        assert_eq!(sign_of_day(first_month, first_day), sign);
        assert_eq!(sign_of_day(last_month, last_day), sign);
    }
}

#[test]
fn every_day_of_a_leap_year_has_a_sign() {
    let lengths = [31u32, 29, 31, 30, 31, 30, 31, 31, 30, 31, 30, 31];
    let signs = [
        "Aries", "Taurus", "Gemini", "Cancer", "Leo", "Virgo", "Libra", "Scorpio", "Sagittarius",
        "Capricorn", "Aquarius", "Pisces",
    ];
    for (index, days) in lengths.iter().enumerate() {
        let month = index as u32 + 1;
        for day in 1..=*days {
            let text = format!("2024-{:02}-{:02}", month, day);
            let sign = zodiac_sign(&text);
            assert!(signs.contains(&sign.as_str()));
            assert_eq!(sign, sign_of_day(month, day));
        }
    }
}

#[test]
fn dates_that_do_not_exist_have_no_sign() {
    assert_eq!(zodiac_sign("2023-02-29"), "Unknown");
    assert_eq!(zodiac_sign("2024-13-01"), "Unknown");
    assert_eq!(zodiac_sign(""), "Unknown");
    assert_eq!(zodiac_sign("2024-03-21T10:00:00"), "Unknown");
}

#[test]
fn sign_for_a_date_that_was_read() {
    let date = Some(CalendarDate { year: 1990, month: 4, day: 25 });
    assert_eq!(sign_for(&date), "Taurus");
    assert_eq!(sign_for(&None), "Unknown");
}

#[test]
fn date_label_names_weekday_and_month() {
    assert_eq!(date_label("2024-03-01"), "Friday, March 1");
    assert_eq!(date_label("2025-12-31"), "Wednesday, December 31");
    assert_eq!(date_label("2024-02-29"), "Thursday, February 29");
}

#[test]
fn date_label_of_no_date_is_the_text() {
    assert_eq!(date_label("tomorrow"), "tomorrow");
    assert_eq!(date_label("2023-02-30"), "2023-02-30");
    assert_eq!(date_label(""), "");
}

#[test]
fn label_or_text_prefers_the_label() {
    assert_eq!(label_or_text("2024-03-01", Some("Friday, March 1".to_string())), "Friday, March 1");
    assert_eq!(label_or_text("2024-03-01", None), "2024-03-01");
}
