//! Calendar dates: reading an ISO date, the zodiac sign of a day, the long
//! label of a day, and the clock.

use vstd::prelude::*;
use vstd::string::*;

use crate::text::optional_text;

verus! {

/// A day of the proleptic Gregorian calendar, as plain numbers.
#[derive(Debug, PartialEq, Eq)]
pub struct CalendarDate {
    pub year: i32,
    pub month: u32,
    pub day: u32,
}

/// What `chrono::NaiveDate::parse_from_str` reads from a text under the
/// format `%Y-%m-%d`: the date, or `None` where it reports an error.
pub uninterp spec fn parsed_date(text: Seq<char>) -> Option<CalendarDate>;

/// The text that chrono writes for a day under the format `%A, %B %-d`
/// (weekday name, month name, day of the month without padding), or `None`
/// where the numbers name no day that `chrono::NaiveDate` can hold.
pub uninterp spec fn day_label(year: int, month: int, day: int) -> Option<Seq<char>>;

/// Calls `chrono::NaiveDate::parse_from_str` with the format `%Y-%m-%d` and
/// hands back the year, month and day of the date it read. The contract
/// only names the result: parsing is a function of the text alone.
#[verifier::external_body]
pub(crate) fn parse_iso_date(text: &str) -> (date: Option<CalendarDate>)
    ensures
        date == parsed_date(text@),
{
    match chrono::NaiveDate::parse_from_str(text, "%Y-%m-%d") {
        Ok(date) => Some(
            CalendarDate {
                year: chrono::Datelike::year(&date),
                month: chrono::Datelike::month(&date),
                day: chrono::Datelike::day(&date),
            },
        ),
        Err(_) => None,
    }
}

/// Calls `chrono::NaiveDate::format` with `%A, %B %-d` on the day that the
/// numbers name, where `chrono::NaiveDate::from_ymd_opt` accepts them. The
/// contract only names the result: it is a function of the three numbers.
#[verifier::external_body]
pub(crate) fn format_day_label(date: &CalendarDate) -> (label: Option<String>)
    ensures
        optional_text(label) == day_label(date.year as int, date.month as int, date.day as int),
{
    match chrono::NaiveDate::from_ymd_opt(date.year, date.month, date.day) {
        Some(day) => Some(day.format("%A, %B %-d").to_string()),
        None => None,
    }
}

/// Reads the clock: `chrono::Utc::now`, written as RFC 3339. Nothing is
/// promised of the text, which differs from call to call.
#[verifier::external_body]
pub(crate) fn current_timestamp() -> (stamp: String) {
    chrono::Utc::now().to_rfc3339()
}

/// True where a day lies in a sign's range: on or after `first_day` of
/// `first_month`, or on or before `last_day` of the month that follows.
pub open spec fn within(
    month: int,
    day: int,
    first_month: int,
    first_day: int,
    last_month: int,
    last_day: int,
) -> bool {
    (month == first_month && day >= first_day) || (month == last_month && day <= last_day)
}

/// The zodiac sign of a day of the year. The ranges are inclusive at both
/// ends; what no earlier range claims is Pisces.
pub open spec fn sign_name(month: int, day: int) -> Seq<char> {
    if within(month, day, 3, 21, 4, 19) {
        "Aries"@
    } else if within(month, day, 4, 20, 5, 20) {
        "Taurus"@
    } else if within(month, day, 5, 21, 6, 20) {
        "Gemini"@
    } else if within(month, day, 6, 21, 7, 22) {
        "Cancer"@
    } else if within(month, day, 7, 23, 8, 22) {
        "Leo"@
    } else if within(month, day, 8, 23, 9, 22) {
        "Virgo"@
    } else if within(month, day, 9, 23, 10, 22) {
        "Libra"@
    } else if within(month, day, 10, 23, 11, 21) {
        "Scorpio"@
    } else if within(month, day, 11, 22, 12, 21) {
        "Sagittarius"@
    } else if within(month, day, 12, 22, 1, 19) {
        "Capricorn"@
    } else if within(month, day, 1, 20, 2, 18) {
        "Aquarius"@
    } else {
        "Pisces"@
    }
}

/// The sign of a date that was read, or the sentinel for a text that holds
/// no date.
pub open spec fn sign_of_date(date: Option<CalendarDate>) -> Seq<char> {
    match date {
        Some(d) => sign_name(d.month as int, d.day as int),
        None => "Unknown"@,
    }
}

/// The sign that a birthdate text gives.
pub open spec fn sign_of(birthdate: Seq<char>) -> Seq<char> {
    sign_of_date(parsed_date(birthdate))
}

/// The label of a date that was read, or the text itself where it holds no
/// date.
pub open spec fn label_of_date(text: Seq<char>, date: Option<CalendarDate>) -> Seq<char> {
    match date {
        Some(d) => match day_label(d.year as int, d.month as int, d.day as int) {
            Some(label) => label,
            None => text,
        },
        None => text,
    }
}

/// The label that a date text gives.
pub open spec fn label_of(text: Seq<char>) -> Seq<char> {
    label_of_date(text, parsed_date(text))
}

fn in_range(
    month: u32,
    day: u32,
    first_month: u32,
    first_day: u32,
    last_month: u32,
    last_day: u32,
) -> (inside: bool)
    ensures
        inside == within(
            month as int,
            day as int,
            first_month as int,
            first_day as int,
            last_month as int,
            last_day as int,
        ),
{
    (month == first_month && day >= first_day) || (month == last_month && day <= last_day)
}

/// The zodiac sign of a day of the year.
pub fn sign_of_day(month: u32, day: u32) -> (sign: &'static str)
    ensures
        sign@ == sign_name(month as int, day as int),
{
    if in_range(month, day, 3, 21, 4, 19) {
        "Aries"
    } else if in_range(month, day, 4, 20, 5, 20) {
        "Taurus"
    } else if in_range(month, day, 5, 21, 6, 20) {
        "Gemini"
    } else if in_range(month, day, 6, 21, 7, 22) {
        "Cancer"
    } else if in_range(month, day, 7, 23, 8, 22) {
        "Leo"
    } else if in_range(month, day, 8, 23, 9, 22) {
        "Virgo"
    } else if in_range(month, day, 9, 23, 10, 22) {
        "Libra"
    } else if in_range(month, day, 10, 23, 11, 21) {
        "Scorpio"
    } else if in_range(month, day, 11, 22, 12, 21) {
        "Sagittarius"
    } else if in_range(month, day, 12, 22, 1, 19) {
        "Capricorn"
    } else if in_range(month, day, 1, 20, 2, 18) {
        "Aquarius"
    } else {
        "Pisces"
    }
}

/// The sign of a date that was read, `Unknown` for none.
pub fn sign_for(date: &Option<CalendarDate>) -> (sign: String)
    ensures
        sign@ == sign_of_date(*date),
{
    match date {
        Some(d) => String::from_str(sign_of_day(d.month, d.day)),
        None => String::from_str("Unknown"),
    }
}

/// The zodiac sign of a birthdate written as `YYYY-MM-DD`; `Unknown` where
/// the text holds no such date.
pub fn zodiac_sign(date: &str) -> (sign: String)
    ensures
        sign@ == sign_of(date@),
{
    let parsed = parse_iso_date(date);
    sign_for(&parsed)
}

/// The label that the formatter wrote, or `text` where it wrote none.
pub fn label_or_text(text: &str, label: Option<String>) -> (shown: String)
    ensures
        shown@ == match label {
            Some(written) => written@,
            None => text@,
        },
{
    match label {
        Some(written) => written,
        None => String::from_str(text),
    }
}

/// The long label of a date written as `YYYY-MM-DD`, such as
/// `Friday, March 1`; the text itself where it holds no such date.
pub fn date_label(text: &str) -> (shown: String)
    ensures
        shown@ == label_of(text@),
{
    match parse_iso_date(text) {
        Some(date) => label_or_text(text, format_day_label(&date)),
        None => String::from_str(text),
    }
}

} // verus!
