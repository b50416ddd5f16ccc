use chrono::Datelike;
use dateindex::calendar::{is_key, parse_date, ParsedDate};

fn date(year: u32, month: u32, day: u32) -> ParsedDate {
    ParsedDate::from_ymd(year, month, day).unwrap()
}

#[test]
fn parsing_dates() {
    let dt = date(2014, 11, 28);
    assert_eq!(parse_date("20141128").ok(), Some(dt.clone()));
    assert_eq!(parse_date("28112014").ok(), Some(dt.clone()));
}

#[test]
fn parsed_date_agrees_with_chrono() {
    let expected = chrono::NaiveDate::from_ymd_opt(2014, 11, 28).unwrap();
    let got = parse_date("28112014").ok().unwrap();
    assert_eq!(got.year as i32, expected.year());
    assert_eq!(got.month, expected.month());
    assert_eq!(got.day, expected.day());
}

#[test]
fn year_first_reading_wins_when_both_are_dates() {
    // 2012-10-11 year first; 20 December 1011 day first.
    assert_eq!(parse_date("20121011").ok(), Some(date(2012, 10, 11)));
    assert_eq!(parse_date("10101010").ok(), Some(date(1010, 10, 10)));
}

#[test]
fn day_first_reading_is_the_fallback() {
    assert_eq!(parse_date("31121999").ok(), Some(date(1999, 12, 31)));
    assert_eq!(parse_date("01010001").ok(), Some(date(1, 1, 1)));
}

#[test]
fn keys_that_are_no_date_fail() {
    for key in ["99999999", "20141328", "20140230", "00000000", "31042014", "29022015"] {
        let r = parse_date(key);
        assert!(r.is_err(), "{key}");
        assert!(!r.err().unwrap().description.is_empty());
    }
}

#[test]
fn leap_days() {
    assert_eq!(parse_date("20160229").ok(), Some(date(2016, 2, 29)));
    assert_eq!(parse_date("29022016").ok(), Some(date(2016, 2, 29)));
    assert_eq!(parse_date("20000229").ok(), Some(date(2000, 2, 29)));
    assert!(parse_date("19000229").is_err());
    assert!(parse_date("20150229").is_err());
    assert_eq!(parse_date("00000229").ok(), Some(ParsedDate { year: 0, month: 2, day: 29 }));
}

#[test]
fn month_lengths() {
    assert_eq!(parse_date("20140430").ok(), Some(date(2014, 4, 30)));
    assert!(parse_date("20140431").is_err());
    assert_eq!(parse_date("20140131").ok(), Some(date(2014, 1, 31)));
    assert!(parse_date("20140100").is_err());
}

#[test]
fn from_ymd_takes_days_of_the_calendar_only() {
    assert_eq!(
        ParsedDate::from_ymd(2014, 11, 28),
        Some(ParsedDate { year: 2014, month: 11, day: 28 })
    );
    assert_eq!(ParsedDate::from_ymd(2014, 0, 1), None);
    assert_eq!(ParsedDate::from_ymd(2014, 13, 1), None);
    assert_eq!(ParsedDate::from_ymd(2014, 1, 0), None);
    assert_eq!(ParsedDate::from_ymd(2014, 2, 29), None);
    assert_eq!(ParsedDate::from_ymd(2016, 2, 29).map(|d| d.day), Some(29));
    assert_eq!(ParsedDate::from_ymd(2014, 6, 31), None);
    assert_eq!(ParsedDate::from_ymd(2014, 12, 31).map(|d| d.month), Some(12));
}

#[test]
fn from_ymd_agrees_with_chrono_over_a_leap_cycle_sample() {
    for year in [0u32, 1, 4, 100, 400, 1900, 2000, 2014, 2016, 9999] {
        for month in 0u32..14 {
            for day in 0u32..33 {
                let ours = ParsedDate::from_ymd(year, month, day).is_some();
                let theirs = chrono::NaiveDate::from_ymd_opt(year as i32, month, day).is_some();
                assert_eq!(ours, theirs, "{year}-{month}-{day}");
            }
        }
    }
}

#[test]
fn keys_are_eight_ascii_digits() {
    assert!(is_key("20141128"));
    assert!(is_key("99999999"));
    assert!(!is_key("2014112"));
    assert!(!is_key("201411288"));
    assert!(!is_key("2014-11-"));
    assert!(!is_key("2014112٨"));
    assert!(!is_key(""));
}
