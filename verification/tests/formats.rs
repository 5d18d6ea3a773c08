#![allow(deprecated)]
use chrono::{DateTime, Datelike, FixedOffset, NaiveTime, SubsecRound, TimeZone, Timelike, Utc};
use dateparser::calendar::{FixedZone, TimeOfDay, UtcDateTime};
use dateparser::datetime::{Attempt, Parse};
use dateparser::text::{str_chars, strip_number_suffixes};

fn instant<Tz: TimeZone>(d: DateTime<Tz>) -> UtcDateTime {
    UtcDateTime::new(d.timestamp(), d.timestamp_subsec_nanos())
}

fn time_of(t: NaiveTime) -> TimeOfDay {
    TimeOfDay { hour: t.hour(), minute: t.minute(), second: t.second(), nanosecond: t.nanosecond() }
}

fn got(a: Attempt) -> UtcDateTime {
    a.unwrap().unwrap()
}

/// The instant with its seconds and their fractions dropped.
fn to_minute(u: UtcDateTime) -> i64 {
    u.timestamp - u.timestamp.rem_euclid(60)
}

fn minute_of<Tz: TimeZone>(d: DateTime<Tz>) -> i64 {
    let d = d.trunc_subsecs(0).with_second(0).unwrap();
    d.timestamp()
}

fn utc_parser() -> Parse {
    Parse::new(&FixedZone::utc(), None)
}

fn utc_parser_at_now() -> Parse {
    Parse::new(&FixedZone::utc(), Some(time_of(Utc::now().time())))
}

#[test]
fn unix_timestamp() {
    let parse = utc_parser();
    let test_cases = [
        ("0000000000", Utc.ymd(1970, 1, 1).and_hms(0, 0, 0)),
        ("0000000000000", Utc.ymd(1970, 1, 1).and_hms(0, 0, 0)),
        ("0000000000000000000", Utc.ymd(1970, 1, 1).and_hms(0, 0, 0)),
        ("1511648546", Utc.ymd(2017, 11, 25).and_hms(22, 22, 26)),
        ("1620021848429", Utc.ymd(2021, 5, 3).and_hms_milli(6, 4, 8, 429)),
        ("1620024872717915000", Utc.ymd(2021, 5, 3).and_hms_nano(6, 54, 32, 717915000)),
    ];
    for &(input, want) in test_cases.iter() {
        assert_eq!(got(parse.unix_timestamp(input)), instant(want), "unix_timestamp/{}", input)
    }
    assert!(parse.unix_timestamp("15116").is_none());
    assert!(parse.unix_timestamp("16200248727179150001620024872717915000").is_none());
    assert!(parse.unix_timestamp("not-a-ts").is_none());
}

#[test]
fn rfc3339() {
    let parse = utc_parser();
    let test_cases = [
        ("2021-05-01T01:17:02.604456Z", Utc.ymd(2021, 5, 1).and_hms_nano(1, 17, 2, 604456000)),
        ("2017-11-25T22:34:50Z", Utc.ymd(2017, 11, 25).and_hms(22, 34, 50)),
    ];
    for &(input, want) in test_cases.iter() {
        assert_eq!(got(parse.rfc3339(input)), instant(want), "rfc3339/{}", input)
    }
    assert!(parse.rfc3339("2017-11-25 22:34:50").is_none());
    assert!(parse.rfc3339("not-date-time").is_none());
}

#[test]
fn rfc2822() {
    let parse = utc_parser();
    let test_cases = [
        ("Wed, 02 Jun 2021 06:31:39 GMT", Utc.ymd(2021, 6, 2).and_hms(6, 31, 39)),
        ("Wed, 02 Jun 2021 06:31:39 PDT", Utc.ymd(2021, 6, 2).and_hms(13, 31, 39)),
    ];
    for &(input, want) in test_cases.iter() {
        assert_eq!(got(parse.rfc2822(input)), instant(want), "rfc2822/{}", input)
    }
    assert!(parse.rfc2822("02 Jun 2021 06:31:39").is_none());
    assert!(parse.rfc2822("not-date-time").is_none());
}

#[test]
fn postgres_timestamp() {
    let parse = utc_parser();
    let test_cases = [
        ("2019-11-29 08:08-08", Utc.ymd(2019, 11, 29).and_hms(16, 8, 0)),
        ("2019-11-29 08:08:05-08", Utc.ymd(2019, 11, 29).and_hms(16, 8, 5)),
        ("2021-05-02 23:31:36.0741-07", Utc.ymd(2021, 5, 3).and_hms_micro(6, 31, 36, 74100)),
        ("2021-05-02 23:31:39.12689-07", Utc.ymd(2021, 5, 3).and_hms_micro(6, 31, 39, 126890)),
        ("2019-11-29 08:15:47.624504-08", Utc.ymd(2019, 11, 29).and_hms_micro(16, 15, 47, 624504)),
        ("2017-07-19 03:21:51+00:00", Utc.ymd(2017, 7, 19).and_hms(3, 21, 51)),
    ];
    for &(input, want) in test_cases.iter() {
        assert_eq!(got(parse.postgres_timestamp(input)), instant(want), "postgres_timestamp/{}", input)
    }
    assert!(parse.postgres_timestamp("not-date-time").is_none());
}

#[test]
fn ymd_hms() {
    let parse = utc_parser();
    let test_cases = vec![
        ("2021-04-30 21:14", Utc.ymd(2021, 4, 30).and_hms(21, 14, 0)),
        ("2021-04-30 21:14:10", Utc.ymd(2021, 4, 30).and_hms(21, 14, 10)),
        ("2021-04-30 21:14:10.052282", Utc.ymd(2021, 4, 30).and_hms_micro(21, 14, 10, 52282)),
        ("2014-04-26 05:24:37 PM", Utc.ymd(2014, 4, 26).and_hms(17, 24, 37)),
        ("2014-04-26 17:24:37.123", Utc.ymd(2014, 4, 26).and_hms_milli(17, 24, 37, 123)),
        ("2014-04-26 17:24:37.3186369", Utc.ymd(2014, 4, 26).and_hms_nano(17, 24, 37, 318636900)),
        ("2012-08-03 18:31:59.257000000", Utc.ymd(2012, 8, 3).and_hms_nano(18, 31, 59, 257000000)),
    ];
    for &(input, want) in test_cases.iter() {
        assert_eq!(got(parse.ymd_hms(input)), instant(want), "ymd_hms/{}", input)
    }
    assert!(parse.ymd_hms("not-date-time").is_none());
}

#[test]
fn ymd_hms_z() {
    let parse = utc_parser();
    let test_cases = vec![
        ("2017-11-25 13:31:15 PST", Utc.ymd(2017, 11, 25).and_hms(21, 31, 15)),
        ("2017-11-25 13:31 PST", Utc.ymd(2017, 11, 25).and_hms(21, 31, 0)),
        ("2014-12-16 06:20:00 UTC", Utc.ymd(2014, 12, 16).and_hms(6, 20, 0)),
        ("2014-12-16 06:20:00 GMT", Utc.ymd(2014, 12, 16).and_hms(6, 20, 0)),
        ("2014-04-26 13:13:43 +0800", Utc.ymd(2014, 4, 26).and_hms(5, 13, 43)),
        ("2014-04-26 13:13:44 +09:00", Utc.ymd(2014, 4, 26).and_hms(4, 13, 44)),
        ("2012-08-03 18:31:59.257000000 +0000", Utc.ymd(2012, 8, 3).and_hms_nano(18, 31, 59, 257000000)),
        ("2015-09-30 18:48:56.35272715 UTC", Utc.ymd(2015, 9, 30).and_hms_nano(18, 48, 56, 352727150)),
    ];
    for &(input, want) in test_cases.iter() {
        assert_eq!(got(parse.ymd_hms_z(input)), instant(want), "ymd_hms_z/{}", input)
    }
    assert!(parse.ymd_hms_z("not-date-time").is_none());
}

#[test]
fn ymd() {
    let parse = utc_parser_at_now();
    let test_cases = [("2021-02-21", Utc.ymd(2021, 2, 21).and_time(Utc::now().time()))];
    for &(input, want) in test_cases.iter() {
        assert_eq!(to_minute(got(parse.ymd(input))), minute_of(want.unwrap()), "ymd/{}", input)
    }
    assert!(parse.ymd("not-date-time").is_none());
}

#[test]
fn ymd_z() {
    let parse = utc_parser();
    let now_at_pst = Utc::now().with_timezone(&FixedOffset::west(8 * 3600));
    let now_at_cst = Utc::now().with_timezone(&FixedOffset::east(8 * 3600));
    let test_cases = [
        (
            "2021-02-21 PST",
            FixedOffset::west(8 * 3600).ymd(2021, 2, 21).and_time(now_at_pst.time()).map(|dt| dt.with_timezone(&Utc)),
        ),
        (
            "2021-02-21 UTC",
            FixedOffset::west(0).ymd(2021, 2, 21).and_time(Utc::now().time()).map(|dt| dt.with_timezone(&Utc)),
        ),
        (
            "2020-07-20+08:00",
            FixedOffset::east(8 * 3600).ymd(2020, 7, 20).and_time(now_at_cst.time()).map(|dt| dt.with_timezone(&Utc)),
        ),
    ];
    for &(input, want) in test_cases.iter() {
        assert_eq!(to_minute(got(parse.ymd_z(input))), minute_of(want.unwrap()), "ymd_z/{}", input)
    }
    assert!(parse.ymd_z("not-date-time").is_none());
}

#[test]
fn hms() {
    let parse = utc_parser();
    let test_cases = [
        ("01:06:06", Utc::now().date().and_time(NaiveTime::from_hms(1, 6, 6))),
        ("4:00pm", Utc::now().date().and_time(NaiveTime::from_hms(16, 0, 0))),
        ("6:00 AM", Utc::now().date().and_time(NaiveTime::from_hms(6, 0, 0))),
    ];
    for &(input, want) in test_cases.iter() {
        assert_eq!(got(parse.hms(input)), instant(want.unwrap()), "hms/{}", input)
    }
    assert!(parse.hms("not-date-time").is_none());
}

#[test]
fn hms_z() {
    let parse = utc_parser();
    let now_at_pst = Utc::now().with_timezone(&FixedOffset::west(8 * 3600));
    let test_cases = [
        (
            "01:06:06 PST",
            FixedOffset::west(8 * 3600)
                .from_local_date(&now_at_pst.date().naive_local())
                .and_time(NaiveTime::from_hms(1, 6, 6))
                .map(|dt| dt.with_timezone(&Utc)),
        ),
        (
            "4:00pm PST",
            FixedOffset::west(8 * 3600)
                .from_local_date(&now_at_pst.date().naive_local())
                .and_time(NaiveTime::from_hms(16, 0, 0))
                .map(|dt| dt.with_timezone(&Utc)),
        ),
        (
            "6:00 AM PST",
            FixedOffset::west(8 * 3600)
                .from_local_date(&now_at_pst.date().naive_local())
                .and_time(NaiveTime::from_hms(6, 0, 0))
                .map(|dt| dt.with_timezone(&Utc)),
        ),
        (
            "6:00pm UTC",
            FixedOffset::west(0)
                .from_local_date(&Utc::now().date().naive_local())
                .and_time(NaiveTime::from_hms(18, 0, 0))
                .map(|dt| dt.with_timezone(&Utc)),
        ),
    ];
    for &(input, want) in test_cases.iter() {
        assert_eq!(got(parse.hms_z(input)), instant(want.unwrap()), "hms_z/{}", input)
    }
    assert!(parse.hms_z("not-date-time").is_none());
}

#[test]
fn month_ymd() {
    let parse = utc_parser();
    let test_cases = [
        ("2021-Feb-21", Utc.ymd(2021, 2, 21).and_time(Utc::now().time())),
        ("2013-september-15", Utc.ymd(2013, 9, 15).and_time(Utc::now().time())),
    ];
    for &(input, want) in test_cases.iter() {
        assert_eq!(to_minute(got(parse.month_ymd(input))), minute_of(want.unwrap()), "month_ymd/{}", input)
    }
    assert!(parse.month_ymd("not-date-time").is_none());
}

#[test]
fn month_md_hms() {
    let parse = utc_parser();
    let test_cases = [
        ("May 6 at 9:24 PM", Utc.ymd(Utc::now().year(), 5, 6).and_hms(21, 24, 0)),
        ("May 27 02:45:27", Utc.ymd(Utc::now().year(), 5, 27).and_hms(2, 45, 27)),
        ("May the 6th at 9:24 PM", Utc.ymd(Utc::now().year(), 5, 6).and_hms(21, 24, 0)),
        ("May 2nd 02:45:27", Utc.ymd(Utc::now().year(), 5, 2).and_hms(2, 45, 27)),
        ("May 27, 02:45:27", Utc.ymd(Utc::now().year(), 5, 27).and_hms(2, 45, 27)),
        ("September 6 at 9:24 PM", Utc.ymd(Utc::now().year(), 9, 6).and_hms(21, 24, 0)),
        ("february 27 02:45:27", Utc.ymd(Utc::now().year(), 2, 27).and_hms(2, 45, 27)),
        ("May the 2nd 9:24 PM", Utc.ymd(Utc::now().year(), 5, 2).and_hms(21, 24, 0)),
        ("May 27 at 02:45:27", Utc.ymd(Utc::now().year(), 5, 27).and_hms(2, 45, 27)),
        ("September the 6th at 9:24:36 pm", Utc.ymd(Utc::now().year(), 9, 6).and_hms(21, 24, 36)),
        ("february 27 02:45:27 am", Utc.ymd(Utc::now().year(), 2, 27).and_hms(2, 45, 27)),
    ];
    for &(input, want) in test_cases.iter() {
        assert_eq!(got(parse.month_md_hms(input)), instant(want), "month_md_hms/{}", input)
    }
    assert!(parse.month_md_hms("not-date-time").is_none());
}

#[test]
fn month_md() {
    let parse = utc_parser();
    let test_cases = [
        ("May 6", Utc.ymd(Utc::now().year(), 5, 6).and_time(Utc::now().time())),
        ("May the 1st", Utc.ymd(Utc::now().year(), 5, 1).and_time(Utc::now().time())),
        ("May 27th", Utc.ymd(Utc::now().year(), 5, 27).and_time(Utc::now().time())),
        ("August 24", Utc.ymd(Utc::now().year(), 8, 24).and_time(Utc::now().time())),
    ];
    for &(input, want) in test_cases.iter() {
        assert_eq!(to_minute(got(parse.month_md(input))), minute_of(want.unwrap()), "month_md_hms/{}", input)
    }
    assert!(parse.month_md("not-date-time").is_none());
}

#[test]
fn month_mdy_hms() {
    let parse = utc_parser();
    let test_cases = [
        ("May 8, 2009 5:57:51 PM", Utc.ymd(2009, 5, 8).and_hms(17, 57, 51)),
        ("September 17, 2012 10:09am", Utc.ymd(2012, 9, 17).and_hms(10, 9, 0)),
        ("September 17, 2012, 10:10:09", Utc.ymd(2012, 9, 17).and_hms(10, 10, 9)),
        ("May the 8th, 2009 at 5:57:51 PM", Utc.ymd(2009, 5, 8).and_hms(17, 57, 51)),
        ("September 1st, 2012 10:09am", Utc.ymd(2012, 9, 1).and_hms(10, 9, 0)),
        ("September the 3rd, 2012, 10:10:09", Utc.ymd(2012, 9, 3).and_hms(10, 10, 9)),
        ("May 8 2009, 5:57:51 PM", Utc.ymd(2009, 5, 8).and_hms(17, 57, 51)),
        ("September 17 2012 10:09am", Utc.ymd(2012, 9, 17).and_hms(10, 9, 0)),
    ];
    for &(input, want) in test_cases.iter() {
        println!("{}", input);
        assert_eq!(got(parse.month_mdy_hms(input)), instant(want), "month_mdy_hms/{}", input)
    }
    assert!(parse.month_mdy_hms("not-date-time").is_none());
}

#[test]
fn month_mdy_hms_z() {
    let parse = utc_parser();
    let test_cases = [
        ("May 02, 2021 15:51:31 UTC", Utc.ymd(2021, 5, 2).and_hms(15, 51, 31)),
        ("May 02, 2021 15:51 UTC", Utc.ymd(2021, 5, 2).and_hms(15, 51, 0)),
        ("May 02, 2021 8:51 UTC", Utc.ymd(2021, 5, 2).and_hms(8, 51, 0)),
        ("May 26, 2021, 12:49 AM PDT", Utc.ymd(2021, 5, 26).and_hms(7, 49, 0)),
        ("September 17, 2012 at 10:09am PST", Utc.ymd(2012, 9, 17).and_hms(18, 9, 0)),
        ("May 02nd, 2021 15:51:31 UTC", Utc.ymd(2021, 5, 2).and_hms(15, 51, 31)),
        ("May the 2nd, 2021 15:51 UTC", Utc.ymd(2021, 5, 2).and_hms(15, 51, 0)),
        ("May 1st, 2021, 12:49 AM PDT", Utc.ymd(2021, 5, 1).and_hms(7, 49, 0)),
        ("September the 3rd, 2012 at 10:09am PST", Utc.ymd(2012, 9, 3).and_hms(18, 9, 0)),
        ("May 26 2021, 12:49 AM PDT", Utc.ymd(2021, 5, 26).and_hms(7, 49, 0)),
        ("September 17 2012 at 10:09am PST", Utc.ymd(2012, 9, 17).and_hms(18, 9, 0)),
    ];
    for &(input, want) in test_cases.iter() {
        assert_eq!(got(parse.month_mdy_hms_z(input)), instant(want), "month_mdy_hms_z/{}", input)
    }
    assert!(parse.month_mdy_hms_z("not-date-time").is_none());
}

#[test]
fn month_mdy() {
    let parse = utc_parser();
    let test_cases = [
        ("May 25, 2021", Utc.ymd(2021, 5, 25).and_time(Utc::now().time())),
        ("oct 7, 1970", Utc.ymd(1970, 10, 7).and_time(Utc::now().time())),
        ("oct 7, 70", Utc.ymd(1970, 10, 7).and_time(Utc::now().time())),
        ("oct. 7, 1970", Utc.ymd(1970, 10, 7).and_time(Utc::now().time())),
        ("oct. 7, 70", Utc.ymd(1970, 10, 7).and_time(Utc::now().time())),
        ("October 7, 1970", Utc.ymd(1970, 10, 7).and_time(Utc::now().time())),
        ("oct. 7th, 1970", Utc.ymd(1970, 10, 7).and_time(Utc::now().time())),
        ("oct. the 1st, 70", Utc.ymd(1970, 10, 1).and_time(Utc::now().time())),
        ("October the 2nd, 1970", Utc.ymd(1970, 10, 2).and_time(Utc::now().time())),
        ("oct. 7 70", Utc.ymd(1970, 10, 7).and_time(Utc::now().time())),
        ("October 7 1970", Utc.ymd(1970, 10, 7).and_time(Utc::now().time())),
    ];
    for &(input, want) in test_cases.iter() {
        assert_eq!(to_minute(got(parse.month_mdy(input))), minute_of(want.unwrap()), "month_mdy/{}", input)
    }
    assert!(parse.month_mdy("not-date-time").is_none());
}

#[test]
fn month_dmy_hms() {
    let parse = utc_parser();
    let test_cases = [
        ("12 Feb 2006, 19:17", Utc.ymd(2006, 2, 12).and_hms(19, 17, 0)),
        ("12 Feb 2006 19:17", Utc.ymd(2006, 2, 12).and_hms(19, 17, 0)),
        ("12 Feb 2006 7:17 pm", Utc.ymd(2006, 2, 12).and_hms(19, 17, 0)),
        ("12 Feb 2006, at 19:17", Utc.ymd(2006, 2, 12).and_hms(19, 17, 0)),
        ("12 Feb 2006 at 19:17", Utc.ymd(2006, 2, 12).and_hms(19, 17, 0)),
        ("12 Feb 2006, at 7:17 pm", Utc.ymd(2006, 2, 12).and_hms(19, 17, 0)),
        ("12 Feb 2006 at 1:17 am", Utc.ymd(2006, 2, 12).and_hms(1, 17, 0)),
        ("14 May 2019 19:11:40.164", Utc.ymd(2019, 5, 14).and_hms_milli(19, 11, 40, 164)),
        ("12th of Feb 2006, 19:17", Utc.ymd(2006, 2, 12).and_hms(19, 17, 0)),
        ("1st Feb 2006 19:17", Utc.ymd(2006, 2, 1).and_hms(19, 17, 0)),
        ("2nd of May 2019 19:11:40.164", Utc.ymd(2019, 5, 2).and_hms_milli(19, 11, 40, 164)),
        ("12 Feb, 2006, 19:17", Utc.ymd(2006, 2, 12).and_hms(19, 17, 0)),
        ("12 Feb, 2006 19:17", Utc.ymd(2006, 2, 12).and_hms(19, 17, 0)),
    ];
    for &(input, want) in test_cases.iter() {
        assert_eq!(got(parse.month_dmy_hms(input)), instant(want), "month_dmy_hms/{}", input)
    }
    assert!(parse.month_dmy_hms("not-date-time").is_none());
}

#[test]
fn month_dm_hms() {
    let parse = utc_parser();
    let test_cases = [
        ("6th May at 9:24 PM", Utc.ymd(Utc::now().year(), 5, 6).and_hms(21, 24, 0)),
        ("27 May 02:45:27", Utc.ymd(Utc::now().year(), 5, 27).and_hms(2, 45, 27)),
        ("1st of September at 9:24 PM", Utc.ymd(Utc::now().year(), 9, 1).and_hms(21, 24, 0)),
        ("27 february 02:45:27", Utc.ymd(Utc::now().year(), 2, 27).and_hms(2, 45, 27)),
        ("6 May 9:24 PM", Utc.ymd(Utc::now().year(), 5, 6).and_hms(21, 24, 0)),
        ("11th of May at 02:45:27", Utc.ymd(Utc::now().year(), 5, 11).and_hms(2, 45, 27)),
        ("6 September at 9:24:36 pm", Utc.ymd(Utc::now().year(), 9, 6).and_hms(21, 24, 36)),
        ("27 february 02:45:27 am", Utc.ymd(Utc::now().year(), 2, 27).and_hms(2, 45, 27)),
    ];
    for &(input, want) in test_cases.iter() {
        assert_eq!(got(parse.month_dm_hms(input)), instant(want), "month_dm_hms/{}", input)
    }
    assert!(parse.month_dm_hms("not-date-time").is_none());
}

#[test]
fn month_dmy() {
    let parse = utc_parser();
    let test_cases = [
        ("7 oct 70", Utc.ymd(1970, 10, 7).and_time(Utc::now().time())),
        ("7 oct 1970", Utc.ymd(1970, 10, 7).and_time(Utc::now().time())),
        ("03 February 2013", Utc.ymd(2013, 2, 3).and_time(Utc::now().time())),
        ("1 July 2013", Utc.ymd(2013, 7, 1).and_time(Utc::now().time())),
        ("7th oct 70", Utc.ymd(1970, 10, 7).and_time(Utc::now().time())),
        ("2nd of oct 1970", Utc.ymd(1970, 10, 2).and_time(Utc::now().time())),
        ("03th of February 2013", Utc.ymd(2013, 2, 3).and_time(Utc::now().time())),
        ("1 July, 2013", Utc.ymd(2013, 7, 1).and_time(Utc::now().time())),
    ];
    for &(input, want) in test_cases.iter() {
        assert_eq!(to_minute(got(parse.month_dmy(input))), minute_of(want.unwrap()), "month_dmy/{}", input)
    }
    assert!(parse.month_dmy("not-date-time").is_none());
}

#[test]
fn month_dm() {
    let parse = utc_parser();
    let test_cases = [
        ("7 oct", Utc.ymd(Utc::now().year(), 10, 7).and_time(Utc::now().time())),
        ("7th oct", Utc.ymd(Utc::now().year(), 10, 7).and_time(Utc::now().time())),
        ("03 February", Utc.ymd(Utc::now().year(), 2, 3).and_time(Utc::now().time())),
        ("1st of July", Utc.ymd(Utc::now().year(), 7, 1).and_time(Utc::now().time())),
    ];
    for &(input, want) in test_cases.iter() {
        assert_eq!(to_minute(got(parse.month_dm(input))), minute_of(want.unwrap()), "month_dmy/{}", input)
    }
    assert!(parse.month_dmy("not-date-time").is_none());
}

#[test]
fn slash_mdy_hms() {
    let parse = utc_parser();
    let test_cases = vec![
        ("8/4/2014 22:05", Utc.ymd(2014, 4, 8).and_hms(22, 5, 0)),
        ("08/04/2014 22:05", Utc.ymd(2014, 4, 8).and_hms(22, 5, 0)),
        ("8/4/14 22:05", Utc.ymd(2014, 4, 8).and_hms(22, 5, 0)),
        ("02/4/2014 03:00:51", Utc.ymd(2014, 4, 2).and_hms(3, 0, 51)),
        ("8/8/1965 12:00:00 AM", Utc.ymd(1965, 8, 8).and_hms(0, 0, 0)),
        ("8/8/1965 01:00:01 PM", Utc.ymd(1965, 8, 8).and_hms(13, 0, 1)),
        ("8/8/1965 01:00 PM", Utc.ymd(1965, 8, 8).and_hms(13, 0, 0)),
        ("8/8/1965 1:00 PM", Utc.ymd(1965, 8, 8).and_hms(13, 0, 0)),
        ("8/8/1965 12:00 AM", Utc.ymd(1965, 8, 8).and_hms(0, 0, 0)),
        ("2/04/2014 03:00:51", Utc.ymd(2014, 4, 2).and_hms(3, 0, 51)),
        ("19/03/2012 10:11:59", Utc.ymd(2012, 3, 19).and_hms(10, 11, 59)),
        ("19/03/2012 10:11:59.3186369", Utc.ymd(2012, 3, 19).and_hms_nano(10, 11, 59, 318636900)),
    ];
    for &(input, want) in test_cases.iter() {
        assert_eq!(got(parse.slash_dmy_hms(input)), instant(want), "slash_mdy_hms/{}", input)
    }
    assert!(parse.slash_dmy_hms("not-date-time").is_none());
}

#[test]
fn slash_mdy() {
    let parse = utc_parser();
    let test_cases = [
        ("31/3/2014", Utc.ymd(2014, 3, 31).and_time(Utc::now().time())),
        ("31/03/2014", Utc.ymd(2014, 3, 31).and_time(Utc::now().time())),
        ("21/08/71", Utc.ymd(1971, 8, 21).and_time(Utc::now().time())),
        ("1/8/71", Utc.ymd(1971, 8, 1).and_time(Utc::now().time())),
    ];
    for &(input, want) in test_cases.iter() {
        assert_eq!(to_minute(got(parse.slash_dmy(input))), minute_of(want.unwrap()), "slash_mdy/{}", input)
    }
    assert!(parse.slash_dmy("not-date-time").is_none());
}

#[test]
fn slash_ymd_hms() {
    let parse = utc_parser();
    let test_cases = [
        ("2014/4/8 22:05", Utc.ymd(2014, 4, 8).and_hms(22, 5, 0)),
        ("2014/04/08 22:05", Utc.ymd(2014, 4, 8).and_hms(22, 5, 0)),
        ("2014/04/2 03:00:51", Utc.ymd(2014, 4, 2).and_hms(3, 0, 51)),
        ("2014/4/02 03:00:51", Utc.ymd(2014, 4, 2).and_hms(3, 0, 51)),
        ("2012/03/19 10:11:59", Utc.ymd(2012, 3, 19).and_hms(10, 11, 59)),
        ("2012/03/19 10:11:59.3186369", Utc.ymd(2012, 3, 19).and_hms_nano(10, 11, 59, 318636900)),
    ];
    for &(input, want) in test_cases.iter() {
        assert_eq!(got(parse.slash_ymd_hms(input)), instant(want), "slash_ymd_hms/{}", input)
    }
    assert!(parse.slash_ymd_hms("not-date-time").is_none());
}

#[test]
fn slash_ymd() {
    let parse = utc_parser_at_now();
    let test_cases = [
        ("2014/3/31", Utc.ymd(2014, 3, 31).and_time(Utc::now().time())),
        ("2014/03/31", Utc.ymd(2014, 3, 31).and_time(Utc::now().time())),
    ];
    for &(input, want) in test_cases.iter() {
        assert_eq!(to_minute(got(parse.slash_ymd(input))), minute_of(want.unwrap()), "slash_ymd/{}", input)
    }
    assert!(parse.slash_ymd("not-date-time").is_none());
}

#[test]
fn dot_mdy_or_ymd() {
    let parse = utc_parser_at_now();
    let test_cases = [
        ("31.3.2014", Utc.ymd(2014, 3, 31).and_time(Utc::now().time())),
        ("31.03.2014", Utc.ymd(2014, 3, 31).and_time(Utc::now().time())),
        ("21.08.71", Utc.ymd(1971, 8, 21).and_time(Utc::now().time())),
        ("2014.03.30", Utc.ymd(2014, 3, 30).and_time(Utc::now().time())),
        ("2014.03", Utc.ymd(2014, 3, Utc::now().day()).and_time(Utc::now().time())),
    ];
    for &(input, want) in test_cases.iter() {
        assert_eq!(to_minute(got(parse.dot_dmy_or_ymd(input))), minute_of(want.unwrap()), "dot_mdy_or_ymd/{}", input)
    }
    assert!(parse.dot_dmy_or_ymd("not-date-time").is_none());
}

#[test]
fn mysql_log_timestamp() {
    let parse = utc_parser();
    let test_cases = [("171113 14:14:20", Utc.ymd(2017, 11, 13).and_hms(14, 14, 20))];
    for &(input, want) in test_cases.iter() {
        assert_eq!(got(parse.mysql_log_timestamp(input)), instant(want), "mysql_log_timestamp/{}", input)
    }
    assert!(parse.mysql_log_timestamp("not-date-time").is_none());
}

#[test]
fn chinese_ymd_hms() {
    let parse = utc_parser();
    let test_cases = [("2014年04月08日11时25分18秒", Utc.ymd(2014, 4, 8).and_hms(11, 25, 18))];
    for &(input, want) in test_cases.iter() {
        assert_eq!(got(parse.chinese_ymd_hms(input)), instant(want), "chinese_ymd_hms/{}", input)
    }
    assert!(parse.chinese_ymd_hms("not-date-time").is_none());
}

#[test]
fn chinese_ymd() {
    let parse = utc_parser_at_now();
    let test_cases = [("2014年04月08日", Utc.ymd(2014, 4, 8).and_time(Utc::now().time()))];
    for &(input, want) in test_cases.iter() {
        assert_eq!(to_minute(got(parse.chinese_ymd(input))), minute_of(want.unwrap()), "chinese_ymd/{}", input)
    }
    assert!(parse.chinese_ymd("not-date-time").is_none());
}

#[test]
fn strip_suffixes() {
    let test_cases = vec![
        ("1st", "1"),
        ("2nd", "2"),
        ("3rd", "3"),
        ("4th", "4"),
        ("21st", "21"),
        ("53rd 24th 21st", "53 24 21"),
        ("September 11th", "September 11"),
        ("August 23rd", "August 23"),
        ("August 1st", "August 1"),
        ("August 27th", "August 27"),
    ];
    for (from, to) in test_cases {
        assert_eq!(strip_number_suffixes(&str_chars(from)), str_chars(to))
    }
}
