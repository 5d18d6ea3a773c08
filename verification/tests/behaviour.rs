use dateparser::calendar::{CalendarDate, FixedZone, TimeOfDay, UtcDateTime};
use dateparser::datetime::{date_with_time, DateParseError, Parse};
use dateparser::pattern::{matches_anywhere, matches_start, matches_whole};
use dateparser::shapes::{dot_date_pieces, ymd_pieces, ymd_start_pieces};
use dateparser::text;
use dateparser::text::{decimal_of_i32, parse_decimal_i64, replace_all, str_chars, strip_number_suffixes, trim_from};
use dateparser::timezone::{parse_zone, TimezoneError};

fn chars(s: &str) -> Vec<char> {
    str_chars(s)
}

fn zone_secs(s: &str) -> Result<i32, TimezoneError> {
    parse_zone(&chars(s)).map(|z| z.east)
}

fn noon() -> TimeOfDay {
    TimeOfDay { hour: 12, minute: 0, second: 0, nanosecond: 0 }
}

#[test]
fn unix_timestamp_units_law() {
    let parse = Parse::new(&FixedZone::utc(), None);
    let ms = parse.unix_timestamp("1620021848429").unwrap().unwrap();
    assert_eq!(ms.timestamp * 1000 + (ms.nanosecond / 1_000_000) as i64, 1620021848429);
    let ns = parse.unix_timestamp("1620024872717915000").unwrap().unwrap();
    assert_eq!(ns.timestamp * 1_000_000_000 + ns.nanosecond as i64, 1620024872717915000);
    assert!(parse.unix_timestamp("16200218484").is_none());
    assert!(parse.unix_timestamp("9999999999999999999").is_none());
    assert_eq!(parse.unix_timestamp("9223372036854775807").unwrap().unwrap(), UtcDateTime::new(9223372036, 854775807));
}

#[test]
fn default_time_law() {
    let parse = Parse::new(&FixedZone::utc(), Some(noon()));
    let early = UtcDateTime::new(0, 0);
    let late = UtcDateTime::new(1_700_000_000, 5);
    for input in ["2021-02-21", "2021-02-21 PST", "2021-Feb-21", "May 25, 2021", "7 oct 1970", "31/3/2014", "2014/3/31", "2014年04月08日"] {
        assert_eq!(parse.ymd_at(input, early), parse.ymd_at(input, late), "{}", input);
        assert_eq!(parse.ymd_z_at(input, early), parse.ymd_z_at(input, late), "{}", input);
        assert_eq!(parse.month_ymd_at(input, early), parse.month_ymd_at(input, late), "{}", input);
        assert_eq!(parse.month_mdy_at(input, early), parse.month_mdy_at(input, late), "{}", input);
        assert_eq!(parse.month_dmy_at(input, early), parse.month_dmy_at(input, late), "{}", input);
        assert_eq!(parse.slash_dmy_at(input, early), parse.slash_dmy_at(input, late), "{}", input);
        assert_eq!(parse.slash_ymd_at(input, early), parse.slash_ymd_at(input, late), "{}", input);
        assert_eq!(parse.chinese_ymd_at(input, early), parse.chinese_ymd_at(input, late), "{}", input);
    }
    // 2021-02-21 12:00:00 UTC
    assert_eq!(parse.ymd_at("2021-02-21", early), Some(Ok(UtcDateTime::new(1613908800, 0))));
}

#[test]
fn own_zone_law() {
    let utc = Parse::new(&FixedZone::utc(), None);
    let tokyo = Parse::new(&FixedZone::east_opt(9 * 3600).unwrap(), None);
    let now = UtcDateTime::new(1_700_000_000, 0);
    for input in ["2017-11-25 13:31:15 PST", "2014-04-26 13:13:44 +09:00"] {
        assert_eq!(utc.ymd_hms_z(input), tokyo.ymd_hms_z(input), "{}", input);
    }
    let input = "May 02, 2021 15:51:31 UTC";
    assert_eq!(utc.month_mdy_hms_z(input), tokyo.month_mdy_hms_z(input));
    assert_eq!(utc.hms_z_at("4:00pm PST", now), tokyo.hms_z_at("4:00pm PST", now));
    // The parser's own zone does matter where the text gives none.
    assert_ne!(utc.ymd_hms("2021-04-30 21:14"), tokyo.ymd_hms("2021-04-30 21:14"));
    assert_eq!(tokyo.ymd_hms("2021-04-30 21:14"), Some(Ok(UtcDateTime::new(1619817240 - 9 * 3600, 0))));
}

#[test]
fn no_match_law() {
    let parse = Parse::new(&FixedZone::utc(), None);
    assert_eq!(parse.parse("not-date-time"), Err(DateParseError::NoMatchingFormat));
    assert_eq!(parse.parse(""), Err(DateParseError::NoMatchingFormat));
    assert_eq!(parse.parse("1511648546"), Ok(UtcDateTime::new(1511648546, 0)));
    assert_eq!(parse.parse("2017-11-25T22:34:50Z"), Ok(UtcDateTime::new(1511649290, 0)));
    assert_eq!(parse.parse("Wed, 02 Jun 2021 06:31:39 GMT"), Ok(UtcDateTime::new(1622615499, 0)));
    // A format that applies but whose zone cannot be read gives its own reason.
    assert_eq!(parse.parse("2021-02-21 +9900"), Err(DateParseError::Timezone(TimezoneError::OutOfRange)));
}

#[test]
fn error_variants() {
    let parse = Parse::new(&FixedZone::utc(), None);
    assert_eq!(parse.ymd_z("2021-02-21 +ab:cd"), Some(Err(DateParseError::Timezone(TimezoneError::InvalidCharacters))));
    assert_eq!(parse.ymd_z("2021-02-21 +08:"), Some(Err(DateParseError::Timezone(TimezoneError::TooShort))));
    assert_eq!(parse.ymd_z("2021-02-21 +0860"), Some(Err(DateParseError::Timezone(TimezoneError::OutOfRange))));
    let far = UtcDateTime::new(i64::MAX, 0);
    assert_eq!(parse.ymd_at("2021-02-21", far), Some(Err(DateParseError::ClockOutOfRange)));
    assert_eq!(parse.hms_at("4:00pm", far), Some(Err(DateParseError::ClockOutOfRange)));
    assert_eq!(parse.parse_at("May 6", far), Err(DateParseError::ClockOutOfRange));
}

#[test]
fn parse_order_and_clock() {
    let parse = Parse::new(&FixedZone::utc(), None);
    // 2021-06-15 10:20:30 UTC
    let now = UtcDateTime::new(1623752430, 0);
    assert_eq!(parse.parse_at("May 6 at 9:24 PM", now), Ok(UtcDateTime::new(1620336240, 0)));
    assert_eq!(parse.parse_at("4:00pm", now), Ok(UtcDateTime::new(1623772800, 0)));
    assert_eq!(parse.parse_at("2021-02-21", now), Ok(UtcDateTime::new(1613902830, 0)));
    assert_eq!(parse.parse_at("2014.03", now), Ok(UtcDateTime::new(1394878830, 0)));
    assert_eq!(parse.parse_at("171113 14:14:20", now), Ok(UtcDateTime::new(1510582460, 0)));
    assert_eq!(parse.parse_at("2014年04月08日11时25分18秒", now), Ok(UtcDateTime::new(1396956318, 0)));
    assert_eq!(parse.month_dm_hms_at("27 May 02:45:27", now), Some(Ok(UtcDateTime::new(1622083527, 0))));
}

#[test]
fn zone_reading() {
    assert_eq!(zone_secs("+0800"), Ok(28800));
    assert_eq!(zone_secs("-08:00"), Ok(-28800));
    assert_eq!(zone_secs("+09 : 30"), Ok(34200));
    assert_eq!(zone_secs("PST"), Ok(-28800));
    assert_eq!(zone_secs("pdt"), Ok(-25200));
    assert_eq!(zone_secs("EDT"), Ok(-14400));
    assert_eq!(zone_secs("cst"), Ok(-21600));
    assert_eq!(zone_secs("Ut"), Ok(0));
    assert_eq!(zone_secs("XYZ"), Ok(0));
    assert_eq!(zone_secs("+08"), Err(TimezoneError::TooShort));
    assert_eq!(zone_secs("0800"), Err(TimezoneError::InvalidCharacters));
    assert_eq!(zone_secs(""), Err(TimezoneError::TooShort));
    assert_eq!(zone_secs("+0860"), Err(TimezoneError::OutOfRange));
    assert_eq!(zone_secs("+2400"), Err(TimezoneError::OutOfRange));
    assert_eq!(zone_secs("-2359"), Ok(-86340));
}

#[test]
fn zone_names_ignore_case_law() {
    for (a, b) in [("PST", "pst"), ("Utc", "UTC"), ("mDt", "MDT"), ("+08:00", "+08:00")] {
        assert_eq!(zone_secs(a), zone_secs(b));
    }
    let parse = Parse::new(&FixedZone::utc(), None);
    assert_eq!(parse.ymd_hms_z("2017-11-25 13:31:15 pst"), parse.ymd_hms_z("2017-11-25 13:31:15 PST"));
}

#[test]
fn suffix_laws() {
    assert_eq!(strip_number_suffixes(&chars("1st 2nd")), chars("1 2"));
    assert_eq!(strip_number_suffixes(&chars("12st")), chars("12"));
    assert_eq!(strip_number_suffixes(&chars("1 st")), chars("1 st"));
    assert_eq!(strip_number_suffixes(&chars("August 12th")), chars("August 12"));
    assert_eq!(strip_number_suffixes(&chars("August")), chars("August"));
    assert_eq!(strip_number_suffixes(&chars("1stst")), chars("1st"));
}

#[test]
fn shape_matching() {
    assert!(matches_whole(&ymd_pieces(), &chars("2021-02-21")));
    assert!(!matches_whole(&ymd_pieces(), &chars("2021-2-21")));
    assert!(!matches_whole(&ymd_pieces(), &chars("2021-02-21 ")));
    assert!(matches_start(&ymd_start_pieces(), &chars("2021-02-21 anything")));
    assert!(!matches_start(&ymd_start_pieces(), &chars(" 2021-02")));
    assert!(matches_anywhere(&dot_date_pieces(), &chars("on 31.3.2014")));
    assert!(!matches_anywhere(&dot_date_pieces(), &chars("31.")));
}

#[test]
fn text_helpers() {
    assert_eq!(decimal_of_i32(-5), chars("-5"));
    assert_eq!(decimal_of_i32(2024), chars("2024"));
    assert_eq!(decimal_of_i32(0), chars("0"));
    assert_eq!(decimal_of_i32(i32::MIN), chars("-2147483648"));
    assert_eq!(replace_all(&chars("a, b, c"), &chars(", "), &chars(" ")), chars("a b c"));
    assert_eq!(replace_all(&chars("aaa"), &chars("aa"), &chars("b")), chars("ba"));
    assert_eq!(trim_from(&chars("x \t +08:00 "), 1), chars("+08:00"));
    assert_eq!(text::concat(&chars("ab"), &chars("c")), chars("abc"));
    assert_eq!(parse_decimal_i64(&chars("0042")), Some(42));
    assert_eq!(parse_decimal_i64(&chars("9223372036854775808")), None);
}

#[test]
fn date_with_time_combines() {
    let d = CalendarDate { year: 2021, month: 2, day: 21 };
    assert_eq!(date_with_time(Some(d), noon(), 0), Some(UtcDateTime::new(1613908800, 0)));
    assert_eq!(date_with_time(Some(d), noon(), 3600), Some(UtcDateTime::new(1613908800 - 3600, 0)));
    assert_eq!(date_with_time(None, noon(), 0), None);
    let bad = CalendarDate { year: 2021, month: 2, day: 30 };
    assert_eq!(date_with_time(Some(bad), noon(), 0), None);
}

#[test]
fn parser_zone_shift_law() {
    let utc = Parse::new(&FixedZone::utc(), None);
    let tokyo = Parse::new(&FixedZone::east_opt(9 * 3600).unwrap(), None);
    let new_york = Parse::new(&FixedZone::west_opt(5 * 3600).unwrap(), None);
    // 2014-04-26 17:24:37 UTC
    let u = utc.ymd_hms("2014-04-26 17:24:37").unwrap().unwrap();
    assert_eq!(u, UtcDateTime::new(1398533077, 0));
    assert_eq!(tokyo.ymd_hms("2014-04-26 17:24:37"), Some(Ok(UtcDateTime::new(1398533077 - 9 * 3600, 0))));
    assert_eq!(new_york.ymd_hms("2014-04-26 17:24:37"), Some(Ok(UtcDateTime::new(1398533077 + 5 * 3600, 0))));
    let f = utc.ymd_hms("2014-04-26 17:24:37.3186369").unwrap().unwrap();
    let g = tokyo.ymd_hms("2014-04-26 17:24:37.3186369").unwrap().unwrap();
    assert_eq!((g.timestamp, g.nanosecond), (f.timestamp - 9 * 3600, f.nanosecond));
    for input in ["May 8, 2009 5:57:51 PM", "12 Feb 2006, 19:17", "14/03/2012 14:48", "2014/4/8 22:05", "171113 14:14:20", "2014年04月08日11时25分18秒"] {
        let a = utc.parse_at(input, UtcDateTime::new(0, 0)).unwrap();
        let b = tokyo.parse_at(input, UtcDateTime::new(0, 0)).unwrap();
        assert_eq!((b.timestamp, b.nanosecond), (a.timestamp - 9 * 3600, a.nanosecond), "{}", input);
    }
    assert_eq!(utc.ymd_hms("2014-02-30 10:00:00"), None);
    assert_eq!(tokyo.ymd_hms("2014-02-30 10:00:00"), None);
}

#[test]
fn parser_zone_shift_law_for_dates() {
    let utc = Parse::new(&FixedZone::utc(), Some(noon()));
    let tokyo = Parse::new(&FixedZone::east_opt(9 * 3600).unwrap(), Some(noon()));
    let now = UtcDateTime::new(1_700_000_000, 0);
    for input in ["2021-02-21", "2021-Feb-21", "May 25, 2021", "7 oct 1970", "31/3/2014", "2014/3/31", "2014年04月08日"] {
        let a = utc.parse_at(input, now).unwrap();
        let b = tokyo.parse_at(input, now).unwrap();
        assert_eq!(b.timestamp, a.timestamp - 9 * 3600, "{}", input);
    }
}

#[test]
fn edge_of_calendar() {
    let last_day = CalendarDate { year: 262142, month: 12, day: 31 };
    let late = TimeOfDay { hour: 23, minute: 0, second: 0, nanosecond: 0 };
    // 262142-12-31 23:00:00 UTC, the last hour that chrono can show
    assert_eq!(date_with_time(Some(last_day), late, 0), Some(UtcDateTime::new(8210266876799 - 3599, 0)));
    assert_eq!(date_with_time(Some(last_day), late, -7200), None);
    let beyond = CalendarDate { year: 262143, month: 1, day: 1 };
    assert_eq!(date_with_time(Some(beyond), noon(), 0), None);
}

#[test]
fn clock_law() {
    let east = Parse::new(&FixedZone::east_opt(86_399).unwrap(), None);
    let west = Parse::new(&FixedZone::west_opt(86_399).unwrap(), None);
    let now = UtcDateTime::new(1_700_000_000, 0);
    for p in [&east, &west] {
        assert!(matches!(p.hms_at("10:00", now), Some(Ok(_))));
        assert!(matches!(p.ymd_at("2021-02-21", now), Some(Ok(_))));
        assert!(p.parse_at("10:00", now).is_ok());
    }
    // 2023-11-14 22:13:20 UTC is 2023-11-15 in Tokyo: 10:00 there is 01:00 UTC
    let tokyo = Parse::new(&FixedZone::east_opt(9 * 3600).unwrap(), None);
    assert_eq!(tokyo.hms_at("10:00", now), Some(Ok(UtcDateTime::new(1700010000, 0))));
    // the last second that chrono can show cannot be shown an hour further east
    let end = UtcDateTime::new(8210266876799, 0);
    let plus_one = Parse::new(&FixedZone::east_opt(3600).unwrap(), None);
    assert_eq!(plus_one.hms_at("10:00", end), Some(Err(DateParseError::ClockOutOfRange)));
    assert!(matches!(Parse::new(&FixedZone::utc(), None).hms_at("10:00", end), Some(Ok(_))));
}

#[test]
fn error_messages() {
    assert_eq!(DateParseError::NoMatchingFormat.message("abc"), "abc did not match any formats.");
    assert_eq!(DateParseError::Timezone(TimezoneError::OutOfRange).message("x"), "input is out of range");
    assert_eq!(DateParseError::Timezone(TimezoneError::InvalidCharacters).message("x"), "input contains invalid characters");
    assert_eq!(DateParseError::Timezone(TimezoneError::TooShort).message("x"), "premature end of input");
    assert_eq!(DateParseError::ClockOutOfRange.message("x"), "the current time cannot be shown in the zone");
    let parse = Parse::new(&FixedZone::utc(), None);
    let err = parse.parse_at("not a date", UtcDateTime::new(0, 0)).unwrap_err();
    assert_eq!(err.message("not a date"), "not a date did not match any formats.");
}
