//! Reading an eight-digit date key as a calendar date.

use chrono::Datelike;
use vstd::prelude::*;
use vstd::string::*;

verus! {

/// An ASCII decimal digit.
pub open spec fn is_digit(c: char) -> bool {
    '0' <= c && c <= '9'
}

/// The number a digit character stands for.
pub open spec fn digit_value(c: char) -> int {
    c as int - '0' as int
}

/// A date key: exactly eight ASCII digits.
pub open spec fn is_date_key(s: Seq<char>) -> bool {
    s.len() == 8 && forall|i: int| 0 <= i < 8 ==> is_digit(#[trigger] s[i])
}

/// The two-digit number at `i`.
pub open spec fn two_digits(s: Seq<char>, i: int) -> int {
    10 * digit_value(s[i]) + digit_value(s[i + 1])
}

/// The four-digit number at `i`.
pub open spec fn four_digits(s: Seq<char>, i: int) -> int {
    100 * two_digits(s, i) + two_digits(s, i + 2)
}

/// Leap years of the proleptic Gregorian calendar.
pub open spec fn is_leap_year(year: int) -> bool {
    year % 4 == 0 && (year % 100 != 0 || year % 400 == 0)
}

/// Number of days of a month, for `month` in 1..=12.
pub open spec fn days_in_month(year: int, month: int) -> int {
    if month == 2 {
        if is_leap_year(year) { 29 } else { 28 }
    } else if month == 4 || month == 6 || month == 9 || month == 11 {
        30
    } else {
        31
    }
}

/// Year, month and day name a day of the calendar.
pub open spec fn valid_date(year: int, month: int, day: int) -> bool {
    1 <= month <= 12 && 1 <= day <= days_in_month(year, month)
}

/// The key read as year, month, day (`YYYYMMDD`), where that is a date.
pub open spec fn ymd_reading(s: Seq<char>) -> Option<(int, int, int)> {
    let year = four_digits(s, 0);
    let month = two_digits(s, 4);
    let day = two_digits(s, 6);
    if valid_date(year, month, day) { Some((year, month, day)) } else { None }
}

/// The key read as day, month, year (`DDMMYYYY`), where that is a date.
pub open spec fn dmy_reading(s: Seq<char>) -> Option<(int, int, int)> {
    let day = two_digits(s, 0);
    let month = two_digits(s, 2);
    let year = four_digits(s, 4);
    if valid_date(year, month, day) { Some((year, month, day)) } else { None }
}

/// The date a key stands for: the year-first reading where it is a date,
/// else the day-first reading. A key that is a date both ways is therefore
/// always taken year first; the scheme cannot tell the two apart.
pub open spec fn date_of_key(s: Seq<char>) -> Option<(int, int, int)> {
    match ymd_reading(s) {
        Some(date) => Some(date),
        None => dmy_reading(s),
    }
}

/// A calendar date.
#[derive(Clone, Copy, Debug, PartialEq, Eq, Structural)]
pub struct ParsedDate {
    pub year: u32,
    pub month: u32,
    pub day: u32,
}

impl ParsedDate {
    /// Year, month and day as mathematical integers.
    pub open spec fn ymd(self) -> (int, int, int) {
        (self.year as int, self.month as int, self.day as int)
    }

    /// The three fields name a day of the calendar.
    pub open spec fn wf(self) -> bool {
        valid_date(self.year as int, self.month as int, self.day as int)
    }

    /// The date with these fields, if there is such a day.
    pub fn from_ymd(year: u32, month: u32, day: u32) -> (r: Option<ParsedDate>)
        ensures
            r is Some <==> valid_date(year as int, month as int, day as int),
            r is Some ==> r->Some_0.ymd() == (year as int, month as int, day as int),
    {
        if month < 1 || month > 12 || day < 1 {
            return None;
        }
        let leap: bool = year % 4 == 0 && (year % 100 != 0 || year % 400 == 0);
        let days: u32 = if month == 2 {
            if leap { 29 } else { 28 }
        } else if month == 4 || month == 6 || month == 9 || month == 11 {
            30
        } else {
            31
        };
        if day <= days {
            Some(ParsedDate { year, month, day })
        } else {
            None
        }
    }
}

/// Why a key could not be read as a date.
pub struct DateParseError {
    /// What the date parser said of the day-first attempt, the last one made.
    pub description: String,
}

#[verifier::external_type_specification]
#[verifier::external_body]
pub struct ExParseError(chrono::format::ParseError);

/// What a parse attempt must have returned, given the reading owed.
pub open spec fn attempt_matches(
    r: Result<(i32, u32, u32), chrono::format::ParseError>,
    owed: Option<(int, int, int)>,
) -> bool {
    match owed {
        Some(date) => r is Ok && (r->Ok_0.0 as int, r->Ok_0.1 as int, r->Ok_0.2 as int) == date,
        None => r is Err,
    }
}

/// `chrono::NaiveDate::parse_from_str`, then the date's `year`, `month` and
/// `day`. Trusted, and claimed for eight-digit keys only: under `%Y%m%d` the
/// year takes the first four digits, month and day two each; under `%d%m%Y`
/// day and month come first. The call succeeds exactly when the three
/// numbers are a day of the proleptic Gregorian calendar.
#[verifier::external_body]
fn parse_with_format(text: &str, format: &str) -> (r: Result<
    (i32, u32, u32),
    chrono::format::ParseError,
>)
    ensures
        is_date_key(text@) && format@ == "%Y%m%d"@ ==> attempt_matches(r, ymd_reading(text@)),
        is_date_key(text@) && format@ == "%d%m%Y"@ ==> attempt_matches(r, dmy_reading(text@)),
{
    chrono::NaiveDate::parse_from_str(text, format).map(|d| (d.year(), d.month(), d.day()))
}

/// The message of a `chrono::format::ParseError`, by its `Display` impl.
/// Trusted; nothing is claimed of the text.
#[verifier::external_body]
fn failure_text(error: &chrono::format::ParseError) -> (r: String) {
    error.to_string()
}

/// Whether `text` is a date key.
pub fn is_key(text: &str) -> (r: bool)
    ensures
        r == is_date_key(text@),
{
    if text.unicode_len() != 8 {
        return false;
    }
    let mut i: usize = 0;
    while i < 8
        invariant
            text@.len() == 8,
            i <= 8,
            forall|j: int| 0 <= j < i ==> is_digit(#[trigger] text@[j]),
        decreases 8 - i,
    {
        let c: char = text.get_char(i);
        if !('0' <= c && c <= '9') {
            return false;
        }
        i = i + 1;
    }
    true
}

/// Reads a date key, year first, then day first.
pub fn parse_date(key: &str) -> (r: Result<ParsedDate, DateParseError>)
    requires
        is_date_key(key@),
    ensures
        match date_of_key(key@) {
            Some(date) => r is Ok && r->Ok_0.ymd() == date,
            None => r is Err,
        },
        ymd_reading(key@) is Some ==> r is Ok && r->Ok_0.ymd() == (
            four_digits(key@, 0),
            two_digits(key@, 4),
            two_digits(key@, 6),
        ),
        r is Err <==> ymd_reading(key@) is None && dmy_reading(key@) is None,
        r is Ok ==> r->Ok_0.wf(),
{
    match parse_with_format(key, "%Y%m%d") {
        Ok(t) => {
            proof {
                lemma_reading_bounds(key@);
            }
            Ok(ParsedDate { year: t.0 as u32, month: t.1, day: t.2 })
        },
        Err(_) => match parse_with_format(key, "%d%m%Y") {
            Ok(t) => {
                proof {
                    lemma_reading_bounds(key@);
                }
                Ok(ParsedDate { year: t.0 as u32, month: t.1, day: t.2 })
            },
            Err(e) => Err(DateParseError { description: failure_text(&e) }),
        },
    }
}

/// The numbers read from a key are small and not negative.
pub proof fn lemma_reading_bounds(s: Seq<char>)
    requires
        is_date_key(s),
    ensures
        0 <= four_digits(s, 0) <= 9999,
        0 <= four_digits(s, 4) <= 9999,
        0 <= two_digits(s, 0) <= 99,
        0 <= two_digits(s, 2) <= 99,
        0 <= two_digits(s, 4) <= 99,
        0 <= two_digits(s, 6) <= 99,
{
    assert(forall|i: int| 0 <= i < 8 ==> 0 <= digit_value(#[trigger] s[i]) <= 9);
}

/// A key that is a date when read year first stands for that date, whatever
/// the day-first reading gives.
pub proof fn lemma_year_first_wins(s: Seq<char>)
    requires
        is_date_key(s),
        ymd_reading(s) is Some,
    ensures
        date_of_key(s) == ymd_reading(s),
        date_of_key(s) == Some((four_digits(s, 0), two_digits(s, 4), two_digits(s, 6))),
{
}

/// A key that is a date under neither reading stands for no date, and only
/// such a key does.
pub proof fn lemma_no_reading_no_date(s: Seq<char>)
    requires
        is_date_key(s),
    ensures
        date_of_key(s) is None <==> (ymd_reading(s) is None && dmy_reading(s) is None),
{
}

} // verus!
