//! Calendar values and the parsing of timestamps written in the forum's markup.

use chrono::{Datelike, NaiveDate, NaiveDateTime, Timelike};
use vstd::prelude::*;

verus! {

/// A calendar date.
#[derive(Clone, Copy, Debug, PartialEq, Eq, Structural)]
pub struct Date {
    pub year: i32,
    pub month: u32,
    pub day: u32,
}

/// A date with a time of day, without time zone.
#[derive(Clone, Copy, Debug, PartialEq, Eq, Structural)]
pub struct DateTime {
    pub date: Date,
    pub hour: u32,
    pub minute: u32,
    pub second: u32,
}

/// What `NaiveDateTime::parse_from_str(s, fmt)` yields, as year, month, day, hour,
/// minute and second.
pub uninterp spec fn parsed_date_time(s: Seq<char>, fmt: Seq<char>) -> Option<
    (int, int, int, int, int, int),
>;

/// What `NaiveDate::parse_from_str(s, fmt)` yields, as year, month and day.
pub uninterp spec fn parsed_date(s: Seq<char>, fmt: Seq<char>) -> Option<(int, int, int)>;


/// The date and time that `f` describes, where it is `Some`.
pub open spec fn to_date_time(f: Option<(int, int, int, int, int, int)>) -> Option<DateTime> {
    match f {
        Some(f) => Some(
            DateTime {
                date: Date { year: f.0 as i32, month: f.1 as u32, day: f.2 as u32 },
                hour: f.3 as u32,
                minute: f.4 as u32,
                second: f.5 as u32,
            },
        ),
        None => None,
    }
}

/// The date that `f` describes, where it is `Some`.
pub open spec fn to_date(f: Option<(int, int, int)>) -> Option<Date> {
    match f {
        Some(f) => Some(Date { year: f.0 as i32, month: f.1 as u32, day: f.2 as u32 }),
        None => None,
    }
}

/// Relies on chrono's `NaiveDateTime::parse_from_str`: its result depends on the text
/// and the format alone.
#[verifier::external_body]
pub(crate) fn parse_date_time(s: &Vec<char>, fmt: &str) -> (r: Option<DateTime>)
    ensures
        r == to_date_time(parsed_date_time(s@, fmt@)),
{
    let s: String = s.iter().collect();
    NaiveDateTime::parse_from_str(&s, fmt).ok().map(|t| DateTime {
        date: Date { year: t.year(), month: t.month(), day: t.day() },
        hour: t.hour(),
        minute: t.minute(),
        second: t.second(),
    })
}

/// Relies on chrono's `NaiveDate::parse_from_str`: its result depends on the text and the
/// format alone.
#[verifier::external_body]
pub(crate) fn parse_date(s: &Vec<char>, fmt: &str) -> (r: Option<Date>)
    ensures
        r == to_date(parsed_date(s@, fmt@)),
{
    let s: String = s.iter().collect();
    NaiveDate::parse_from_str(&s, fmt).ok().map(|d| Date { year: d.year(), month: d.month(), day: d.day() })
}

} // verus!

verus! {

/// The date and time that `s` holds in the format `fmt`, as chrono reads it.
pub open spec fn date_time_spec(s: Seq<char>, fmt: Seq<char>) -> Option<DateTime> {
    to_date_time(parsed_date_time(s, fmt))
}

/// The date that `s` holds in the format `fmt`, as chrono reads it.
pub open spec fn date_spec(s: Seq<char>, fmt: Seq<char>) -> Option<Date> {
    to_date(parsed_date(s, fmt))
}

} // verus!
