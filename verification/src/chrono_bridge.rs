//! The calls into `chrono` that read dates and times by format and that move
//! between wall-clock time and instants. What a format reads is named, not
//! restated; how a fixed offset moves between wall clock and instant is
//! stated.
#![allow(deprecated)]
use vstd::prelude::*;
use chrono::{DateTime, Datelike, FixedOffset, NaiveDate, NaiveDateTime, NaiveTime, TimeZone, Timelike, Utc};
use crate::calendar::{first_instant, last_instant, CalendarDate, LocalDateTime, TimeOfDay, UtcDateTime};

verus! {

/// The instant that `chrono::DateTime::parse_from_rfc3339` reads from `s`.
pub uninterp spec fn rfc3339_instant(s: Seq<char>) -> Option<UtcDateTime>;

/// The instant that `chrono::DateTime::parse_from_rfc2822` reads from `s`.
pub uninterp spec fn rfc2822_instant(s: Seq<char>) -> Option<UtcDateTime>;

/// The instant that `chrono::DateTime::parse_from_str` reads from `s` by
/// `fmt`, which gives the offset too.
pub uninterp spec fn offset_format_instant(s: Seq<char>, fmt: Seq<char>) -> Option<UtcDateTime>;

/// The wall-clock date and time that `chrono::NaiveDateTime::parse_from_str`
/// reads from `s` by `fmt`.
pub uninterp spec fn naive_datetime_format(s: Seq<char>, fmt: Seq<char>) -> Option<LocalDateTime>;

/// The date that `chrono::NaiveDate::parse_from_str` reads from `s` by `fmt`.
pub uninterp spec fn naive_date_format(s: Seq<char>, fmt: Seq<char>) -> Option<CalendarDate>;

/// The time of day that `chrono::NaiveTime::parse_from_str` reads from `s` by
/// `fmt`.
pub uninterp spec fn naive_time_format(s: Seq<char>, fmt: Seq<char>) -> Option<TimeOfDay>;

/// An offset that `chrono::FixedOffset::east_opt` accepts: less than a day
/// either way.
pub open spec fn offset_ok(east: int) -> bool {
    -86_400 < east < 86_400
}

/// The instant at which the wall clock of the fixed zone `east` seconds east
/// of UTC shows `local`, as `chrono::TimeZone::from_local_datetime` and
/// `single` give it: the offset is subtracted from the wall clock, the
/// nanoseconds stay; there is none where the offset, the date or the time is
/// refused, or the instant falls outside the dates that `chrono` can show.
pub open spec fn local_instant(east: i32, local: LocalDateTime) -> Option<UtcDateTime> {
    let secs = local.epoch_seconds() - east;
    if offset_ok(east as int) && local.valid() && first_instant() <= secs <= last_instant() {
        Some(UtcDateTime { timestamp: secs as i64, nanosecond: local.time.nanosecond })
    } else {
        None
    }
}

/// The wall clock shows the date and time `l` at `secs` seconds after the
/// epoch, counted as UTC, with `nanos` nanoseconds: a valid date, the hour,
/// minute and second in range, and the nanoseconds kept.
pub open spec fn shows(l: LocalDateTime, secs: int, nanos: u32) -> bool {
    &&& l.date.valid()
    &&& l.time.hour < 24
    &&& l.time.minute < 60
    &&& l.time.second < 60
    &&& l.epoch_seconds() == secs
    &&& l.time.nanosecond == nanos
}

/// The nanoseconds that `chrono::DateTime::from_timestamp` accepts: less
/// than a second, or less than two in the last second of a minute.
pub open spec fn nanos_ok(timestamp: int, nanos: u32) -> bool {
    nanos < 1_000_000_000 || (nanos < 2_000_000_000 && timestamp % 60 == 59)
}

/// What the wall clock of the fixed zone `east` seconds east of UTC shows at
/// `at`, as `chrono::DateTime::from_timestamp` and
/// `chrono::NaiveDateTime::checked_add_offset` give it: the offset is added to
/// the instant, the nanoseconds stay; there is none where the offset or the
/// nanoseconds are refused, or the instant or the wall-clock reading falls
/// outside the dates that `chrono` can show.
pub open spec fn instant_local(east: i32, at: UtcDateTime) -> Option<LocalDateTime> {
    let secs = at.timestamp + east;
    if offset_ok(east as int) && first_instant() <= at.timestamp <= last_instant() && nanos_ok(
        at.timestamp as int,
        at.nanosecond,
    ) && first_instant() <= secs <= last_instant() {
        Some(choose|l: LocalDateTime| shows(l, secs, at.nanosecond))
    } else {
        None
    }
}

/// The format holds none of the characters by which `chrono` reads an offset
/// (`%z` and its variants, `%+`) or a timestamp (`%s`).
pub open spec fn reads_no_offset(fmt: Seq<char>) -> bool {
    !fmt.contains('z') && !fmt.contains('+') && !fmt.contains('s')
}

/// The instant at which the wall clock of the zone `east` shows the reading
/// `n`, where there is one.
pub open spec fn wall_clock_instant(east: i32, n: Option<LocalDateTime>) -> Option<UtcDateTime> {
    match n {
        Some(local) => local_instant(east, local),
        None => None,
    }
}

/// Calls `chrono::DateTime::parse_from_rfc3339`; the result is
/// `rfc3339_instant` of the characters.
#[verifier::external_body]
pub(crate) fn parse_rfc3339(s: &Vec<char>) -> (r: Option<UtcDateTime>)
    ensures
        r == rfc3339_instant(s@),
{
    let text: String = s.iter().collect();
    match DateTime::parse_from_rfc3339(&text) {
        Ok(d) => Some(UtcDateTime { timestamp: d.timestamp(), nanosecond: d.timestamp_subsec_nanos() }),
        Err(_) => None,
    }
}

/// Calls `chrono::DateTime::parse_from_rfc2822`; the result is
/// `rfc2822_instant` of the characters.
#[verifier::external_body]
pub(crate) fn parse_rfc2822(s: &Vec<char>) -> (r: Option<UtcDateTime>)
    ensures
        r == rfc2822_instant(s@),
{
    let text: String = s.iter().collect();
    match DateTime::parse_from_rfc2822(&text) {
        Ok(d) => Some(UtcDateTime { timestamp: d.timestamp(), nanosecond: d.timestamp_subsec_nanos() }),
        Err(_) => None,
    }
}

/// Calls `chrono::DateTime::parse_from_str`; the result is
/// `offset_format_instant` of the characters and the format.
#[verifier::external_body]
pub(crate) fn parse_with_offset(s: &Vec<char>, fmt: &str) -> (r: Option<UtcDateTime>)
    ensures
        r == offset_format_instant(s@, fmt@),
{
    let text: String = s.iter().collect();
    match DateTime::parse_from_str(&text, fmt) {
        Ok(d) => Some(UtcDateTime { timestamp: d.timestamp(), nanosecond: d.timestamp_subsec_nanos() }),
        Err(_) => None,
    }
}

/// Calls `chrono::TimeZone::datetime_from_str` on the fixed offset `east`
/// (none where `chrono::FixedOffset::east_opt` refuses it), with a format
/// that reads no offset and no timestamp. `chrono` then reads the wall-clock
/// value as `chrono::NaiveDateTime::parse_from_str` does and places it in the
/// zone by `from_local_datetime`, as `to_instant` does.
#[verifier::external_body]
pub(crate) fn parse_in_zone(east: i32, s: &Vec<char>, fmt: &str) -> (r: Option<UtcDateTime>)
    requires
        reads_no_offset(fmt@),
    ensures
        r == wall_clock_instant(east, naive_datetime_format(s@, fmt@)),
{
    let text: String = s.iter().collect();
    let zone = FixedOffset::east_opt(east)?;
    match zone.datetime_from_str(&text, fmt) {
        Ok(d) => Some(UtcDateTime { timestamp: d.timestamp(), nanosecond: d.timestamp_subsec_nanos() }),
        Err(_) => None,
    }
}

/// Calls `chrono::NaiveDateTime::parse_from_str`; the result is
/// `naive_datetime_format` of the characters and the format, a date and a
/// time of day that `chrono` can hold.
#[verifier::external_body]
pub(crate) fn parse_naive_datetime(s: &Vec<char>, fmt: &str) -> (r: Option<LocalDateTime>)
    ensures
        r == naive_datetime_format(s@, fmt@),
        r matches Some(n) ==> n.valid(),
{
    let text: String = s.iter().collect();
    let n = NaiveDateTime::parse_from_str(&text, fmt).ok()?;
    let date = CalendarDate { year: n.year(), month: n.month(), day: n.day() };
    let time = TimeOfDay { hour: n.hour(), minute: n.minute(), second: n.second(), nanosecond: n.nanosecond() };
    Some(LocalDateTime { date, time })
}

/// Calls `chrono::NaiveDate::parse_from_str`; the result is
/// `naive_date_format` of the characters and the format, a date that
/// `chrono` can hold.
#[verifier::external_body]
pub(crate) fn parse_naive_date(s: &Vec<char>, fmt: &str) -> (r: Option<CalendarDate>)
    ensures
        r == naive_date_format(s@, fmt@),
        r matches Some(d) ==> d.valid(),
{
    let text: String = s.iter().collect();
    let d = NaiveDate::parse_from_str(&text, fmt).ok()?;
    Some(CalendarDate { year: d.year(), month: d.month(), day: d.day() })
}

/// Calls `chrono::NaiveTime::parse_from_str`; the result is
/// `naive_time_format` of the characters and the format, a time of day that
/// `chrono` can hold.
#[verifier::external_body]
pub(crate) fn parse_naive_time(s: &Vec<char>, fmt: &str) -> (r: Option<TimeOfDay>)
    ensures
        r == naive_time_format(s@, fmt@),
        r matches Some(t) ==> t.valid(),
{
    let text: String = s.iter().collect();
    let t = NaiveTime::parse_from_str(&text, fmt).ok()?;
    Some(TimeOfDay { hour: t.hour(), minute: t.minute(), second: t.second(), nanosecond: t.nanosecond() })
}

/// Calls `chrono::TimeZone::from_local_datetime` on the fixed offset `east`
/// and keeps the single answer; the result is `local_instant` of the offset
/// and the wall-clock value.
#[verifier::external_body]
pub(crate) fn to_instant(east: i32, local: LocalDateTime) -> (r: Option<UtcDateTime>)
    ensures
        r == local_instant(east, local),
{
    let zone = FixedOffset::east_opt(east)?;
    let date = NaiveDate::from_ymd_opt(local.date.year, local.date.month, local.date.day)?;
    let t = local.time;
    let time = NaiveTime::from_hms_nano_opt(t.hour, t.minute, t.second, t.nanosecond)?;
    let d = zone.from_local_datetime(&date.and_time(time)).single()?;
    Some(UtcDateTime { timestamp: d.timestamp(), nanosecond: d.timestamp_subsec_nanos() })
}

/// Calls `chrono::DateTime::from_timestamp` and
/// `chrono::NaiveDateTime::checked_add_offset` with the fixed offset `east`;
/// the result is `instant_local` of the offset and the instant.
#[verifier::external_body]
pub(crate) fn to_local(east: i32, at: UtcDateTime) -> (r: Option<LocalDateTime>)
    ensures
        r == instant_local(east, at),
{
    let zone = FixedOffset::east_opt(east)?;
    let utc = DateTime::<Utc>::from_timestamp(at.timestamp, at.nanosecond)?;
    let n = utc.naive_utc().checked_add_offset(zone)?;
    let date = CalendarDate { year: n.year(), month: n.month(), day: n.day() };
    let time = TimeOfDay { hour: n.hour(), minute: n.minute(), second: n.second(), nanosecond: n.nanosecond() };
    Some(LocalDateTime { date, time })
}

/// Reads the system clock through `chrono::Utc::now`. `chrono` counts the
/// whole seconds and the nanoseconds since the epoch (it stops the program on
/// a clock set before the epoch) and builds an instant it can show; which
/// instant the clock gives is not claimed.
#[verifier::external_body]
pub(crate) fn utc_now() -> (r: UtcDateTime)
    ensures
        r.timestamp >= 0,
        r.timestamp <= last_instant(),
        r.nanosecond < 1_000_000_000,
{
    let now = Utc::now();
    UtcDateTime { timestamp: now.timestamp(), nanosecond: now.timestamp_subsec_nanos() }
}

} // verus!
