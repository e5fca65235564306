//! Calendar values that the domain compares: dates of the proleptic
//! Gregorian calendar and UTC instants.
use vstd::prelude::*;
use chrono::Datelike;

verus! {

pub open spec fn is_leap_year(year: int) -> bool {
    (year % 4 == 0 && year % 100 != 0) || year % 400 == 0
}

pub open spec fn days_in_month(year: int, month: int) -> int {
    if month == 2 {
        if is_leap_year(year) { 29 } else { 28 }
    } else if month == 4 || month == 6 || month == 9 || month == 11 {
        30
    } else {
        31
    }
}

/// A day of the proleptic Gregorian calendar.
#[derive(Clone, Copy, Debug, PartialEq, Eq, Hash, Structural)]
pub struct CalendarDate {
    year: i32,
    month: u32,
    day: u32,
}

impl CalendarDate {
    pub closed spec fn spec_year(self) -> int {
        self.year as int
    }

    pub closed spec fn spec_month(self) -> int {
        self.month as int
    }

    pub closed spec fn spec_day(self) -> int {
        self.day as int
    }

    pub open spec fn is_valid_ymd(year: int, month: int, day: int) -> bool {
        1 <= month <= 12 && 1 <= day <= days_in_month(year, month)
    }

    /// The date with this year, month (1 to 12) and day of month, if it exists.
    pub fn from_ymd(year: i32, month: u32, day: u32) -> (date: Option<CalendarDate>)
        ensures
            date is Some <==> Self::is_valid_ymd(year as int, month as int, day as int),
            date matches Some(d) ==> d.spec_year() == year && d.spec_month() == month
                && d.spec_day() == day,
    {
        if month < 1 || month > 12 || day < 1 {
            return None;
        }
        let leap = (year % 4 == 0 && year % 100 != 0) || year % 400 == 0;
        let last: u32 = if month == 2 {
            if leap { 29 } else { 28 }
        } else if month == 4 || month == 6 || month == 9 || month == 11 {
            30
        } else {
            31
        };
        if day > last {
            None
        } else {
            Some(CalendarDate { year, month, day })
        }
    }

    pub fn year(&self) -> (year: i32)
        ensures
            year == self.spec_year(),
    {
        self.year
    }

    pub fn month(&self) -> (month: u32)
        ensures
            month == self.spec_month(),
    {
        self.month
    }

    pub fn day(&self) -> (day: u32)
        ensures
            day == self.spec_day(),
    {
        self.day
    }

    /// Chronological order: `self` is a later day than `other`.
    pub open spec fn spec_is_after(self, other: CalendarDate) -> bool {
        ||| self.spec_year() > other.spec_year()
        ||| (self.spec_year() == other.spec_year() && self.spec_month() > other.spec_month())
        ||| (self.spec_year() == other.spec_year() && self.spec_month() == other.spec_month()
            && self.spec_day() > other.spec_day())
    }

    pub fn is_after(&self, other: &CalendarDate) -> (after: bool)
        ensures
            after == self.spec_is_after(*other),
    {
        self.year > other.year || (self.year == other.year && self.month > other.month) || (
        self.year == other.year && self.month == other.month && self.day > other.day)
    }

    /// Reads a date written `%Y-%m-%d`, as chrono's `NaiveDate::parse_from_str` does.
    pub fn parse_iso(text: &str) -> (date: Option<CalendarDate>)
        ensures
            match iso_date_parse(text@) {
                None => date is None,
                Some((year, month, day)) => date matches Some(d) && d.spec_year() == year && d.spec_month()
                    == month && d.spec_day() == day,
            },
    {
        match parse_ymd(text) {
            None => None,
            Some((year, month, day)) => CalendarDate::from_ymd(year, month, day),
        }
    }

    pub fn same_day(&self, other: &CalendarDate) -> (same: bool)
        ensures
            same == (*self == *other),
    {
        self.year == other.year && self.month == other.month && self.day == other.day
    }
}

/// The date (year, month, day) that chrono reads from `text` with the format `%Y-%m-%d`, if it
/// reads one; the grammar of chrono's parser is not restated here.
pub uninterp spec fn iso_date_parse(text: Seq<char>) -> Option<(i32, u32, u32)>;

/// `chrono::NaiveDate::parse_from_str(text, "%Y-%m-%d")`: chrono's dates are valid days of
/// the proleptic Gregorian calendar.
#[verifier::external_body]
fn parse_ymd(text: &str) -> (date: Option<(i32, u32, u32)>)
    ensures
        date == iso_date_parse(text@),
        date matches Some((year, month, day)) ==> CalendarDate::is_valid_ymd(year as int, month as int, day as int),
{
    match chrono::NaiveDate::parse_from_str(text, "%Y-%m-%d") {
        Ok(date) => Some((date.year(), date.month(), date.day())),
        Err(_) => None,
    }
}

/// Dates are ordered chronologically: by year, then month, then day. A date is never after
/// itself, and of two different dates exactly one is after the other.
pub proof fn lemma_dates_are_ordered_chronologically(a: CalendarDate, b: CalendarDate)
    ensures
        a.spec_year() < b.spec_year() ==> b.spec_is_after(a) && !a.spec_is_after(b),
        a.spec_year() == b.spec_year() && a.spec_month() < b.spec_month() ==> b.spec_is_after(a) && !a.spec_is_after(b),
        a.spec_year() == b.spec_year() && a.spec_month() == b.spec_month() && a.spec_day() < b.spec_day()
            ==> b.spec_is_after(a) && !a.spec_is_after(b),
        !a.spec_is_after(a),
        a.spec_is_after(b) ==> !b.spec_is_after(a),
        a.spec_year() == b.spec_year() && a.spec_month() == b.spec_month() && a.spec_day() == b.spec_day() ==> a == b,
        a != b ==> (a.spec_is_after(b) || b.spec_is_after(a)),
{
}

/// An instant in UTC: seconds since the Unix epoch and the nanoseconds within that second.
#[derive(Clone, Copy, Debug, PartialEq, Eq, Hash, Structural)]
pub struct Timestamp {
    pub seconds: i64,
    pub nanos: u32,
}

impl Timestamp {
    pub fn new(seconds: i64, nanos: u32) -> (instant: Timestamp)
        ensures
            instant.seconds == seconds,
            instant.nanos == nanos,
    {
        Timestamp { seconds, nanos }
    }

    pub fn same_instant(&self, other: &Timestamp) -> (same: bool)
        ensures
            same == (*self == *other),
    {
        self.seconds == other.seconds && self.nanos == other.nanos
    }

    /// The day of the proleptic Gregorian calendar on which this instant falls in UTC, as
    /// chrono reckons it; `None` for an instant chrono cannot represent.
    pub fn utc_date(&self) -> (date: Option<CalendarDate>)
        ensures
            match utc_calendar_day(self.seconds, self.nanos) {
                None => date is None,
                Some((year, month, day)) => date matches Some(d) && d.spec_year() == year && d.spec_month()
                    == month && d.spec_day() == day,
            },
    {
        match utc_day_of(self.seconds, self.nanos) {
            None => None,
            Some((year, month, day)) => CalendarDate::from_ymd(year, month, day),
        }
    }
}

/// The UTC calendar day (year, month, day) of the instant `seconds` after the Unix epoch
/// plus `nanos`, as chrono computes it; `None` where chrono has no `DateTime` for it.
pub uninterp spec fn utc_calendar_day(seconds: i64, nanos: u32) -> Option<(i32, u32, u32)>;

/// `chrono::DateTime::from_timestamp` followed by `date_naive`: chrono's dates are valid
/// days of the proleptic Gregorian calendar.
#[verifier::external_body]
fn utc_day_of(seconds: i64, nanos: u32) -> (day: Option<(i32, u32, u32)>)
    ensures
        day == utc_calendar_day(seconds, nanos),
        day matches Some((year, month, d)) ==> CalendarDate::is_valid_ymd(year as int, month as int, d as int),
{
    match chrono::DateTime::from_timestamp(seconds, nanos) {
        Some(instant) => {
            let date = instant.date_naive();
            Some((date.year(), date.month(), date.day()))
        },
        None => None,
    }
}

} // verus!
