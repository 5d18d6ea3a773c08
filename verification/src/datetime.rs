//! The accepted formats, tried in a fixed order, and what each one reads.
use vstd::prelude::*;
use crate::calendar::{CalendarDate, FixedZone, LocalDateTime, TimeOfDay, UtcDateTime};
use crate::chrono_bridge::{
    instant_local, local_instant, naive_date_format, naive_datetime_format, naive_time_format,
    offset_format_instant, rfc2822_instant, rfc3339_instant, reads_no_offset, wall_clock_instant, parse_in_zone,
    parse_naive_date, parse_naive_datetime, parse_naive_time, parse_rfc2822, parse_rfc3339,
    parse_with_offset, to_instant, to_local, utc_now,
};
use crate::pattern::{full_match, matches_anywhere, matches_start, matches_whole, prefix_match, search, whole_match_ends, ints, pieces_view};
use crate::shapes;
use crate::text;
use crate::timezone::{parse_zone, zone_of, TimezoneError};

verus! {

/// Why a text could not be read as a date and time.
#[derive(Clone, Copy, Debug, PartialEq, Eq, Structural)]
pub enum DateParseError {
    /// No accepted format fits the text.
    NoMatchingFormat,
    /// The format fits, but its time zone cannot be read.
    Timezone(TimezoneError),
    /// The clock reads an instant that the zone's wall clock cannot show.
    ClockOutOfRange,
}

/// The message that tells why `input` could not be read.
pub open spec fn error_message(e: DateParseError, input: Seq<char>) -> Seq<char> {
    match e {
        DateParseError::NoMatchingFormat => input + " did not match any formats."@,
        DateParseError::Timezone(TimezoneError::OutOfRange) => "input is out of range"@,
        DateParseError::Timezone(TimezoneError::InvalidCharacters) => "input contains invalid characters"@,
        DateParseError::Timezone(TimezoneError::TooShort) => "premature end of input"@,
        DateParseError::ClockOutOfRange => "the current time cannot be shown in the zone"@,
    }
}

impl DateParseError {
    /// The message that tells why `input` could not be read:
    /// `"{input} did not match any formats."` where no format fits.
    pub fn message(&self, input: &str) -> (m: String)
        ensures
            m@ == error_message(*self, input@),
    {
        match self {
            DateParseError::NoMatchingFormat => {
                let mut m = input.to_owned();
                m.append(" did not match any formats.");
                m
            },
            DateParseError::Timezone(TimezoneError::OutOfRange) => "input is out of range".to_owned(),
            DateParseError::Timezone(TimezoneError::InvalidCharacters) => {
                "input contains invalid characters".to_owned()
            },
            DateParseError::Timezone(TimezoneError::TooShort) => "premature end of input".to_owned(),
            DateParseError::ClockOutOfRange => "the current time cannot be shown in the zone".to_owned(),
        }
    }
}

/// What one format makes of a text: nothing where it does not apply, and else
/// the instant or the reason why there is none.
pub type Attempt = Option<Result<UtcDateTime, DateParseError>>;

/// The characters of each format.
pub open spec fn views(fmts: Seq<&str>) -> Seq<Seq<char>> {
    fmts.map_values(|f: &str| f@)
}

/// The instant, where there is one, as a successful attempt.
pub open spec fn ok_instant(u: Option<UtcDateTime>) -> Attempt {
    match u {
        Some(v) => Some(Ok(v)),
        None => None,
    }
}

fn ok_attempt(u: Option<UtcDateTime>) -> (r: Attempt)
    ensures
        r == ok_instant(u),
{
    match u {
        Some(v) => Some(Ok(v)),
        None => None,
    }
}

/// No format of `fmts` reads an offset or a timestamp.
pub open spec fn none_read_offsets(fmts: Seq<Seq<char>>) -> bool {
    forall|i: int| 0 <= i < fmts.len() ==> #[trigger] reads_no_offset(fmts[i])
}

/// Of the text `s`, the instant that the first of `fmts` that fits reads, in the fixed zone `east`.
pub open spec fn first_in_zone(east: i32, s: Seq<char>, fmts: Seq<Seq<char>>) -> Option<UtcDateTime>
    decreases fmts.len(),
{
    if fmts.len() == 0 {
        None
    } else {
        match wall_clock_instant(east, naive_datetime_format(s, fmts[0])) {
            Some(v) => Some(v),
            None => first_in_zone(east, s, fmts.skip(1)),
        }
    }
}

fn try_in_zone(east: i32, s: &Vec<char>, fmts: &Vec<&str>) -> (r: Option<UtcDateTime>)
    requires
        none_read_offsets(views(fmts@)),
    ensures
        r == first_in_zone(east, s@, views(fmts@)),
{
    let mut i: usize = 0;
    assert(views(fmts@).skip(0) =~= views(fmts@));
    while i < fmts.len()
        invariant
            i <= fmts.len(),
            first_in_zone(east, s@, views(fmts@)) == first_in_zone(east, s@, views(fmts@).skip(i as int)),
            none_read_offsets(views(fmts@)),
        decreases fmts.len() - i,
    {
        assert(views(fmts@).skip(i as int)[0] == fmts@[i as int]@);
        assert(reads_no_offset(views(fmts@)[i as int]));
        let r = parse_in_zone(east, s, fmts[i]);
        if r.is_some() {
            return r;
        }
        assert(views(fmts@).skip(i as int).skip(1) =~= views(fmts@).skip(i + 1));
        i += 1;
    }
    None
}

/// Of the text `s`, the instant that the first of `fmts` that fits reads, with the offset that the text gives.
pub open spec fn first_with_offset(s: Seq<char>, fmts: Seq<Seq<char>>) -> Option<UtcDateTime>
    decreases fmts.len(),
{
    if fmts.len() == 0 {
        None
    } else {
        match offset_format_instant(s, fmts[0]) {
            Some(v) => Some(v),
            None => first_with_offset(s, fmts.skip(1)),
        }
    }
}

fn try_with_offset(s: &Vec<char>, fmts: &Vec<&str>) -> (r: Option<UtcDateTime>)
    ensures
        r == first_with_offset(s@, views(fmts@)),
{
    let mut i: usize = 0;
    assert(views(fmts@).skip(0) =~= views(fmts@));
    while i < fmts.len()
        invariant
            i <= fmts.len(),
            first_with_offset(s@, views(fmts@)) == first_with_offset(s@, views(fmts@).skip(i as int)),
        decreases fmts.len() - i,
    {
        let r = parse_with_offset(s, fmts[i]);
        assert(views(fmts@).skip(i as int)[0] == fmts@[i as int]@);
        if r.is_some() {
            return r;
        }
        assert(views(fmts@).skip(i as int).skip(1) =~= views(fmts@).skip(i + 1));
        i += 1;
    }
    None
}

/// Of the text `s`, the wall-clock date and time that the first of `fmts` that fits reads.
pub open spec fn first_naive_datetime(s: Seq<char>, fmts: Seq<Seq<char>>) -> Option<LocalDateTime>
    decreases fmts.len(),
{
    if fmts.len() == 0 {
        None
    } else {
        match naive_datetime_format(s, fmts[0]) {
            Some(v) => Some(v),
            None => first_naive_datetime(s, fmts.skip(1)),
        }
    }
}

fn try_naive_datetime(s: &Vec<char>, fmts: &Vec<&str>) -> (r: Option<LocalDateTime>)
    ensures
        r == first_naive_datetime(s@, views(fmts@)),
{
    let mut i: usize = 0;
    assert(views(fmts@).skip(0) =~= views(fmts@));
    while i < fmts.len()
        invariant
            i <= fmts.len(),
            first_naive_datetime(s@, views(fmts@)) == first_naive_datetime(s@, views(fmts@).skip(i as int)),
        decreases fmts.len() - i,
    {
        let r = parse_naive_datetime(s, fmts[i]);
        assert(views(fmts@).skip(i as int)[0] == fmts@[i as int]@);
        if r.is_some() {
            return r;
        }
        assert(views(fmts@).skip(i as int).skip(1) =~= views(fmts@).skip(i + 1));
        i += 1;
    }
    None
}

/// Of the text `s`, the date that the first of `fmts` that fits reads.
pub open spec fn first_naive_date(s: Seq<char>, fmts: Seq<Seq<char>>) -> Option<CalendarDate>
    decreases fmts.len(),
{
    if fmts.len() == 0 {
        None
    } else {
        match naive_date_format(s, fmts[0]) {
            Some(v) => Some(v),
            None => first_naive_date(s, fmts.skip(1)),
        }
    }
}

fn try_naive_date(s: &Vec<char>, fmts: &Vec<&str>) -> (r: Option<CalendarDate>)
    ensures
        r == first_naive_date(s@, views(fmts@)),
{
    let mut i: usize = 0;
    assert(views(fmts@).skip(0) =~= views(fmts@));
    while i < fmts.len()
        invariant
            i <= fmts.len(),
            first_naive_date(s@, views(fmts@)) == first_naive_date(s@, views(fmts@).skip(i as int)),
        decreases fmts.len() - i,
    {
        let r = parse_naive_date(s, fmts[i]);
        assert(views(fmts@).skip(i as int)[0] == fmts@[i as int]@);
        if r.is_some() {
            return r;
        }
        assert(views(fmts@).skip(i as int).skip(1) =~= views(fmts@).skip(i + 1));
        i += 1;
    }
    None
}

/// Of the text `s`, the time of day that the first of `fmts` that fits reads.
pub open spec fn first_naive_time(s: Seq<char>, fmts: Seq<Seq<char>>) -> Option<TimeOfDay>
    decreases fmts.len(),
{
    if fmts.len() == 0 {
        None
    } else {
        match naive_time_format(s, fmts[0]) {
            Some(v) => Some(v),
            None => first_naive_time(s, fmts.skip(1)),
        }
    }
}

fn try_naive_time(s: &Vec<char>, fmts: &Vec<&str>) -> (r: Option<TimeOfDay>)
    ensures
        r == first_naive_time(s@, views(fmts@)),
{
    let mut i: usize = 0;
    assert(views(fmts@).skip(0) =~= views(fmts@));
    while i < fmts.len()
        invariant
            i <= fmts.len(),
            first_naive_time(s@, views(fmts@)) == first_naive_time(s@, views(fmts@).skip(i as int)),
        decreases fmts.len() - i,
    {
        let r = parse_naive_time(s, fmts[i]);
        assert(views(fmts@).skip(i as int)[0] == fmts@[i as int]@);
        if r.is_some() {
            return r;
        }
        assert(views(fmts@).skip(i as int).skip(1) =~= views(fmts@).skip(i + 1));
        i += 1;
    }
    None
}

/// The formats tried, in order, for a postgres timestamp with its offset.
pub open spec fn postgres_formats() -> Seq<Seq<char>> {
    seq!["%Y-%m-%d %H:%M:%S%#z"@, "%Y-%m-%d %H:%M:%S%.f%#z"@, "%Y-%m-%d %H:%M%#z"@]
}

/// The formats tried, in order, for `yyyy-mm-dd hh:mm[:ss[.f]] [am|pm]`.
pub open spec fn ymd_hms_formats() -> Seq<Seq<char>> {
    seq!["%Y-%m-%d %H:%M:%S"@, "%Y-%m-%d %H:%M"@, "%Y-%m-%d %H:%M:%S%.f"@, "%Y-%m-%d %I:%M:%S %P"@, "%Y-%m-%d %I:%M %P"@]
}

/// The formats tried, in order, for `yyyy-mm-dd hh:mm[:ss[.f]] z`.
pub open spec fn ymd_hms_z_formats() -> Seq<Seq<char>> {
    seq!["%Y-%m-%d %H:%M:%S %Z"@, "%Y-%m-%d %H:%M %Z"@, "%Y-%m-%d %H:%M:%S%.f %Z"@]
}

/// The formats tried, in order, for `hh:mm[:ss] [am|pm]`.
pub open spec fn hms_formats() -> Seq<Seq<char>> {
    seq!["%H:%M:%S"@, "%H:%M"@, "%I:%M:%S %P"@, "%I:%M %P"@]
}

/// The formats tried, in order, for `hh:mm[:ss] [am|pm] z`.
pub open spec fn hms_z_formats() -> Seq<Seq<char>> {
    seq!["%H:%M:%S %Z"@, "%H:%M %Z"@, "%I:%M:%S %P %Z"@, "%I:%M %P %Z"@]
}

/// The formats tried, in order, for `yyyy-Mon-dd`.
pub open spec fn month_ymd_formats() -> Seq<Seq<char>> {
    seq!["%Y-%m-%d"@, "%Y-%B-%d"@]
}

/// The formats tried, in order, for `Mon dd hh:mm[:ss] [am|pm]` once the year is in front.
pub open spec fn month_md_hms_formats() -> Seq<Seq<char>> {
    seq!["%Y %B %d %I:%M %P"@, "%Y %B %d %I:%M"@, "%Y %B %d %I:%M:%S"@, "%Y %B %d %I:%M:%S %P"@, "%Y %B %d %H:%M"@, "%Y %B %d %H:%M:%S"@, "%Y %B %d %H:%M %P"@, "%Y %B %d %H:%M:%S %P"@]
}

/// The formats tried, in order, for `Mon dd yyyy hh:mm[:ss] [am|pm]`.
pub open spec fn month_mdy_hms_formats() -> Seq<Seq<char>> {
    seq!["%B %d %Y %H:%M:%S"@, "%B %d %Y %H:%M"@, "%B %d %Y %I:%M:%S %P"@, "%B %d %Y %I:%M %P"@]
}

/// The formats tried, in order, for `Mon dd yyyy hh:mm[:ss] [am|pm] z`.
pub open spec fn month_mdy_hms_z_formats() -> Seq<Seq<char>> {
    seq!["%B %d %Y %H:%M:%S %Z"@, "%B %d %Y %H:%M %Z"@, "%B %d %Y %I:%M:%S %P %Z"@, "%B %d %Y %I:%M %P %Z"@]
}

/// The formats tried, in order, for `Mon dd yy[yy]`.
pub open spec fn month_mdy_formats() -> Seq<Seq<char>> {
    seq!["%B %d %y"@, "%B %d %Y"@]
}

/// The formats tried, in order, for `dd Mon yyyy hh:mm[:ss[.f]] [am|pm]`.
pub open spec fn month_dmy_hms_formats() -> Seq<Seq<char>> {
    seq!["%d %B %Y %H:%M:%S"@, "%d %B %Y %H:%M"@, "%d %B %Y %H:%M:%S%.f"@, "%d %B %Y %I:%M:%S %P"@, "%d %B %Y %I:%M %P"@]
}

/// The formats tried, in order, for `dd Mon yy[yy]`.
pub open spec fn month_dmy_formats() -> Seq<Seq<char>> {
    seq!["%d %B %y"@, "%d %B %Y"@]
}

/// The formats tried, in order, for `dd Mon hh:mm[:ss] [am|pm]` once the year is in front.
pub open spec fn month_dm_hms_formats() -> Seq<Seq<char>> {
    seq!["%Y %d %B %I:%M %P"@, "%Y %d %B %I:%M"@, "%Y %d %B %I:%M:%S"@, "%Y %d %B %I:%M:%S %P"@, "%Y %d %B %H:%M"@, "%Y %d %B %H:%M:%S"@, "%Y %d %B %H:%M %P"@, "%Y %d %B %H:%M:%S %P"@]
}

/// The formats tried, in order, for `dd/mm/yy[yy] hh:mm[:ss[.f]] [am|pm]`.
pub open spec fn slash_dmy_hms_formats() -> Seq<Seq<char>> {
    seq!["%d/%m/%y %H:%M:%S"@, "%d/%m/%y %H:%M"@, "%d/%m/%y %H:%M:%S%.f"@, "%d/%m/%y %I:%M:%S %P"@, "%d/%m/%y %I:%M %P"@, "%d/%m/%Y %H:%M:%S"@, "%d/%m/%Y %H:%M"@, "%d/%m/%Y %H:%M:%S%.f"@, "%d/%m/%Y %I:%M:%S %P"@, "%d/%m/%Y %I:%M %P"@]
}

/// The formats tried, in order, for `dd/mm/yy[yy]`.
pub open spec fn slash_dmy_formats() -> Seq<Seq<char>> {
    seq!["%d/%m/%y"@, "%d/%m/%Y"@]
}

/// The formats tried, in order, for `yyyy/mm/dd hh:mm[:ss[.f]] [am|pm]`.
pub open spec fn slash_ymd_hms_formats() -> Seq<Seq<char>> {
    seq!["%Y/%m/%d %H:%M:%S"@, "%Y/%m/%d %H:%M"@, "%Y/%m/%d %H:%M:%S%.f"@, "%Y/%m/%d %I:%M:%S %P"@, "%Y/%m/%d %I:%M %P"@]
}

/// The formats tried, in order, for dotted dates with a day.
pub open spec fn dot_formats() -> Seq<Seq<char>> {
    seq!["%d.%m.%y"@, "%d.%m.%Y"@, "%Y.%m.%d"@]
}

fn postgres_format_list() -> (v: Vec<&'static str>)
    ensures
        views(v@) == postgres_formats(),
{
    let mut v: Vec<&'static str> = Vec::new();
    v.push("%Y-%m-%d %H:%M:%S%#z");
    v.push("%Y-%m-%d %H:%M:%S%.f%#z");
    v.push("%Y-%m-%d %H:%M%#z");
    assert(views(v@) =~= postgres_formats());
    v
}

fn ymd_hms_format_list() -> (v: Vec<&'static str>)
    ensures
        views(v@) == ymd_hms_formats(),
        none_read_offsets(views(v@)),
{
    let mut v: Vec<&'static str> = Vec::new();
    v.push("%Y-%m-%d %H:%M:%S");
    v.push("%Y-%m-%d %H:%M");
    v.push("%Y-%m-%d %H:%M:%S%.f");
    v.push("%Y-%m-%d %I:%M:%S %P");
    v.push("%Y-%m-%d %I:%M %P");
    proof {
        reveal_strlit("%Y-%m-%d %H:%M:%S");
        reveal_strlit("%Y-%m-%d %H:%M");
        reveal_strlit("%Y-%m-%d %H:%M:%S%.f");
        reveal_strlit("%Y-%m-%d %I:%M:%S %P");
        reveal_strlit("%Y-%m-%d %I:%M %P");
    }
    assert(views(v@) =~= ymd_hms_formats());
    v
}

fn ymd_hms_z_format_list() -> (v: Vec<&'static str>)
    ensures
        views(v@) == ymd_hms_z_formats(),
{
    let mut v: Vec<&'static str> = Vec::new();
    v.push("%Y-%m-%d %H:%M:%S %Z");
    v.push("%Y-%m-%d %H:%M %Z");
    v.push("%Y-%m-%d %H:%M:%S%.f %Z");
    assert(views(v@) =~= ymd_hms_z_formats());
    v
}

fn hms_format_list() -> (v: Vec<&'static str>)
    ensures
        views(v@) == hms_formats(),
{
    let mut v: Vec<&'static str> = Vec::new();
    v.push("%H:%M:%S");
    v.push("%H:%M");
    v.push("%I:%M:%S %P");
    v.push("%I:%M %P");
    assert(views(v@) =~= hms_formats());
    v
}

fn hms_z_format_list() -> (v: Vec<&'static str>)
    ensures
        views(v@) == hms_z_formats(),
{
    let mut v: Vec<&'static str> = Vec::new();
    v.push("%H:%M:%S %Z");
    v.push("%H:%M %Z");
    v.push("%I:%M:%S %P %Z");
    v.push("%I:%M %P %Z");
    assert(views(v@) =~= hms_z_formats());
    v
}

fn month_ymd_format_list() -> (v: Vec<&'static str>)
    ensures
        views(v@) == month_ymd_formats(),
{
    let mut v: Vec<&'static str> = Vec::new();
    v.push("%Y-%m-%d");
    v.push("%Y-%B-%d");
    assert(views(v@) =~= month_ymd_formats());
    v
}

fn month_md_hms_format_list() -> (v: Vec<&'static str>)
    ensures
        views(v@) == month_md_hms_formats(),
        none_read_offsets(views(v@)),
{
    let mut v: Vec<&'static str> = Vec::new();
    v.push("%Y %B %d %I:%M %P");
    v.push("%Y %B %d %I:%M");
    v.push("%Y %B %d %I:%M:%S");
    v.push("%Y %B %d %I:%M:%S %P");
    v.push("%Y %B %d %H:%M");
    v.push("%Y %B %d %H:%M:%S");
    v.push("%Y %B %d %H:%M %P");
    v.push("%Y %B %d %H:%M:%S %P");
    proof {
        reveal_strlit("%Y %B %d %I:%M %P");
        reveal_strlit("%Y %B %d %I:%M");
        reveal_strlit("%Y %B %d %I:%M:%S");
        reveal_strlit("%Y %B %d %I:%M:%S %P");
        reveal_strlit("%Y %B %d %H:%M");
        reveal_strlit("%Y %B %d %H:%M:%S");
        reveal_strlit("%Y %B %d %H:%M %P");
        reveal_strlit("%Y %B %d %H:%M:%S %P");
    }
    assert(views(v@) =~= month_md_hms_formats());
    v
}

fn month_mdy_hms_format_list() -> (v: Vec<&'static str>)
    ensures
        views(v@) == month_mdy_hms_formats(),
        none_read_offsets(views(v@)),
{
    let mut v: Vec<&'static str> = Vec::new();
    v.push("%B %d %Y %H:%M:%S");
    v.push("%B %d %Y %H:%M");
    v.push("%B %d %Y %I:%M:%S %P");
    v.push("%B %d %Y %I:%M %P");
    proof {
        reveal_strlit("%B %d %Y %H:%M:%S");
        reveal_strlit("%B %d %Y %H:%M");
        reveal_strlit("%B %d %Y %I:%M:%S %P");
        reveal_strlit("%B %d %Y %I:%M %P");
    }
    assert(views(v@) =~= month_mdy_hms_formats());
    v
}

fn month_mdy_hms_z_format_list() -> (v: Vec<&'static str>)
    ensures
        views(v@) == month_mdy_hms_z_formats(),
{
    let mut v: Vec<&'static str> = Vec::new();
    v.push("%B %d %Y %H:%M:%S %Z");
    v.push("%B %d %Y %H:%M %Z");
    v.push("%B %d %Y %I:%M:%S %P %Z");
    v.push("%B %d %Y %I:%M %P %Z");
    assert(views(v@) =~= month_mdy_hms_z_formats());
    v
}

fn month_mdy_format_list() -> (v: Vec<&'static str>)
    ensures
        views(v@) == month_mdy_formats(),
{
    let mut v: Vec<&'static str> = Vec::new();
    v.push("%B %d %y");
    v.push("%B %d %Y");
    assert(views(v@) =~= month_mdy_formats());
    v
}

fn month_dmy_hms_format_list() -> (v: Vec<&'static str>)
    ensures
        views(v@) == month_dmy_hms_formats(),
        none_read_offsets(views(v@)),
{
    let mut v: Vec<&'static str> = Vec::new();
    v.push("%d %B %Y %H:%M:%S");
    v.push("%d %B %Y %H:%M");
    v.push("%d %B %Y %H:%M:%S%.f");
    v.push("%d %B %Y %I:%M:%S %P");
    v.push("%d %B %Y %I:%M %P");
    proof {
        reveal_strlit("%d %B %Y %H:%M:%S");
        reveal_strlit("%d %B %Y %H:%M");
        reveal_strlit("%d %B %Y %H:%M:%S%.f");
        reveal_strlit("%d %B %Y %I:%M:%S %P");
        reveal_strlit("%d %B %Y %I:%M %P");
    }
    assert(views(v@) =~= month_dmy_hms_formats());
    v
}

fn month_dmy_format_list() -> (v: Vec<&'static str>)
    ensures
        views(v@) == month_dmy_formats(),
{
    let mut v: Vec<&'static str> = Vec::new();
    v.push("%d %B %y");
    v.push("%d %B %Y");
    assert(views(v@) =~= month_dmy_formats());
    v
}

fn month_dm_hms_format_list() -> (v: Vec<&'static str>)
    ensures
        views(v@) == month_dm_hms_formats(),
        none_read_offsets(views(v@)),
{
    let mut v: Vec<&'static str> = Vec::new();
    v.push("%Y %d %B %I:%M %P");
    v.push("%Y %d %B %I:%M");
    v.push("%Y %d %B %I:%M:%S");
    v.push("%Y %d %B %I:%M:%S %P");
    v.push("%Y %d %B %H:%M");
    v.push("%Y %d %B %H:%M:%S");
    v.push("%Y %d %B %H:%M %P");
    v.push("%Y %d %B %H:%M:%S %P");
    proof {
        reveal_strlit("%Y %d %B %I:%M %P");
        reveal_strlit("%Y %d %B %I:%M");
        reveal_strlit("%Y %d %B %I:%M:%S");
        reveal_strlit("%Y %d %B %I:%M:%S %P");
        reveal_strlit("%Y %d %B %H:%M");
        reveal_strlit("%Y %d %B %H:%M:%S");
        reveal_strlit("%Y %d %B %H:%M %P");
        reveal_strlit("%Y %d %B %H:%M:%S %P");
    }
    assert(views(v@) =~= month_dm_hms_formats());
    v
}

fn slash_dmy_hms_format_list() -> (v: Vec<&'static str>)
    ensures
        views(v@) == slash_dmy_hms_formats(),
        none_read_offsets(views(v@)),
{
    let mut v: Vec<&'static str> = Vec::new();
    v.push("%d/%m/%y %H:%M:%S");
    v.push("%d/%m/%y %H:%M");
    v.push("%d/%m/%y %H:%M:%S%.f");
    v.push("%d/%m/%y %I:%M:%S %P");
    v.push("%d/%m/%y %I:%M %P");
    v.push("%d/%m/%Y %H:%M:%S");
    v.push("%d/%m/%Y %H:%M");
    v.push("%d/%m/%Y %H:%M:%S%.f");
    v.push("%d/%m/%Y %I:%M:%S %P");
    v.push("%d/%m/%Y %I:%M %P");
    proof {
        reveal_strlit("%d/%m/%y %H:%M:%S");
        reveal_strlit("%d/%m/%y %H:%M");
        reveal_strlit("%d/%m/%y %H:%M:%S%.f");
        reveal_strlit("%d/%m/%y %I:%M:%S %P");
        reveal_strlit("%d/%m/%y %I:%M %P");
        reveal_strlit("%d/%m/%Y %H:%M:%S");
        reveal_strlit("%d/%m/%Y %H:%M");
        reveal_strlit("%d/%m/%Y %H:%M:%S%.f");
        reveal_strlit("%d/%m/%Y %I:%M:%S %P");
        reveal_strlit("%d/%m/%Y %I:%M %P");
    }
    assert(views(v@) =~= slash_dmy_hms_formats());
    v
}

fn slash_dmy_format_list() -> (v: Vec<&'static str>)
    ensures
        views(v@) == slash_dmy_formats(),
{
    let mut v: Vec<&'static str> = Vec::new();
    v.push("%d/%m/%y");
    v.push("%d/%m/%Y");
    assert(views(v@) =~= slash_dmy_formats());
    v
}

fn slash_ymd_hms_format_list() -> (v: Vec<&'static str>)
    ensures
        views(v@) == slash_ymd_hms_formats(),
        none_read_offsets(views(v@)),
{
    let mut v: Vec<&'static str> = Vec::new();
    v.push("%Y/%m/%d %H:%M:%S");
    v.push("%Y/%m/%d %H:%M");
    v.push("%Y/%m/%d %H:%M:%S%.f");
    v.push("%Y/%m/%d %I:%M:%S %P");
    v.push("%Y/%m/%d %I:%M %P");
    proof {
        reveal_strlit("%Y/%m/%d %H:%M:%S");
        reveal_strlit("%Y/%m/%d %H:%M");
        reveal_strlit("%Y/%m/%d %H:%M:%S%.f");
        reveal_strlit("%Y/%m/%d %I:%M:%S %P");
        reveal_strlit("%Y/%m/%d %I:%M %P");
    }
    assert(views(v@) =~= slash_ymd_hms_formats());
    v
}

fn dot_format_list() -> (v: Vec<&'static str>)
    ensures
        views(v@) == dot_formats(),
{
    let mut v: Vec<&'static str> = Vec::new();
    v.push("%d.%m.%y");
    v.push("%d.%m.%Y");
    v.push("%Y.%m.%d");
    assert(views(v@) =~= dot_formats());
    v
}

/// Reads date and time strings in many formats. A text that gives no zone is
/// read in the parser's zone, and a text that gives no time of day takes the
/// default time, or else the current time of day in the zone that applies.
pub struct Parse {
    tz: FixedZone,
    default_time: Option<TimeOfDay>,
}

/// The instant at which the wall clock of the zone `east` shows the date `d`
/// and the time `t`, where `d` was read.
pub open spec fn date_at(d: Option<CalendarDate>, t: TimeOfDay, east: i32) -> Option<UtcDateTime> {
    match d {
        Some(date) => local_instant(east, LocalDateTime { date, time: t }),
        None => None,
    }
}

/// The instant at which the wall clock of the zone `east` shows the date `d`,
/// where there is one, and the time `t`.
pub fn date_with_time(d: Option<CalendarDate>, t: TimeOfDay, east: i32) -> (r: Option<UtcDateTime>)
    ensures
        r == date_at(d, t, east),
{
    match d {
        Some(date) => to_instant(east, LocalDateTime { date, time: t }),
        None => None,
    }
}

fn replace_text(s: &Vec<char>, pat: &str, rep: &str) -> (r: Vec<char>)
    requires
        pat@.len() > 0,
    ensures
        r@ == text::replaced(s@, pat@, rep@),
{
    text::replace_all(s, &text::str_chars(pat), &text::str_chars(rep))
}

/// The unix timestamp shape fits exactly the texts of ten to nineteen digits.
pub proof fn lemma_unix_timestamp_shape(s: Seq<char>)
    ensures
        full_match(shapes::unix_timestamp_shape(), s) <==> (10 <= s.len() <= 19 && text::all_digits(s)),
{
    crate::pattern::lemma_single_repeat_match(crate::pattern::CharClass::Digit, 10, 19, s);
    assert(shapes::unix_timestamp_shape() =~= seq![crate::pattern::PieceSpec { alts: seq![Seq::<char>::empty()], class: crate::pattern::CharClass::Digit, min: 10, max: 19, optional: false }]);
}

/// What a text of ten, thirteen or nineteen digits gives as a unix timestamp
/// in seconds, milliseconds or nanoseconds; nothing for other texts, or where
/// the number does not fit in an `i64`.
pub open spec fn unix_timestamp_result(s: Seq<char>) -> Attempt {
    if !full_match(shapes::unix_timestamp_shape(), s) {
        None
    } else {
        let v = text::decimal_value(s);
        if v > i64::MAX {
            None
        } else if s.len() == 10 {
            Some(Ok(UtcDateTime { timestamp: v as i64, nanosecond: 0 }))
        } else if s.len() == 13 {
            Some(Ok(UtcDateTime { timestamp: (v / 1000) as i64, nanosecond: ((v % 1000) * 1_000_000) as u32 }))
        } else if s.len() == 19 {
            Some(Ok(UtcDateTime { timestamp: (v / 1_000_000_000) as i64, nanosecond: (v % 1_000_000_000) as u32 }))
        } else {
            None
        }
    }
}

/// An RFC 3339 date and time, read by `chrono`.
pub open spec fn rfc3339_result(s: Seq<char>) -> Attempt {
    ok_instant(rfc3339_instant(s))
}

/// An RFC 2822 date and time, read by `chrono`.
pub open spec fn rfc2822_result(s: Seq<char>) -> Attempt {
    ok_instant(rfc2822_instant(s))
}

/// `yyyy-mm-dd hh:mm[:ss[.f]]` with an offset such as `-08` or `+00:00`.
pub open spec fn postgres_timestamp_result(s: Seq<char>) -> Attempt {
    if !full_match(shapes::postgres_shape(), s) {
        None
    } else {
        ok_instant(first_with_offset(s, postgres_formats()))
    }
}

/// The zone text of a match of `ps` on the whole of `s`: the characters from
/// the end of piece `idx` on, without white space at either end.
pub open spec fn zone_text(ps: Seq<crate::pattern::PieceSpec>, s: Seq<char>, idx: int) -> Option<Seq<char>> {
    match search(ps, s, 0, 0, true) {
        Some(ends) => Some(text::trimmed(s.skip(ends[idx]))),
        None => None,
    }
}

fn capture_zone(ps: &Vec<crate::pattern::Piece>, s: &Vec<char>, idx: usize) -> (r: Option<Vec<char>>)
    requires
        idx < ps.len(),
    ensures
        match r {
            Some(t) => zone_text(pieces_view(ps@), s@, idx as int) == Some(t@),
            None => zone_text(pieces_view(ps@), s@, idx as int) is None,
        },
{
    match whole_match_ends(ps, s) {
        None => None,
        Some(ends) => {
            proof {
                crate::pattern::lemma_search_bounds(pieces_view(ps@), s@, 0, 0, true);
            }
            assert(ints(ends@).len() == ends@.len());
            assert(ints(ends@)[idx as int] == ends@[idx as int] as int);
            Some(text::trim_from(s, ends[idx]))
        },
    }
}

/// `year`, a space, then `rest`, as `format!("{} {}", year, rest)` writes them.
pub open spec fn year_prefixed(year: i32, rest: Seq<char>) -> Seq<char> {
    text::decimal(year as int) + " "@ + rest
}

fn prefix_year(year: i32, rest: &Vec<char>) -> (r: Vec<char>)
    ensures
        r@ == year_prefixed(year, rest@),
{
    let y = text::decimal_of_i32(year);
    let ys = text::concat(&y, &text::str_chars(" "));
    let r = text::concat(&ys, rest);
    assert(r@ =~= year_prefixed(year, rest@));
    r
}

/// `Mon dd hh:mm` made ready for the formats: suffixes and `, ` out, the year
/// in front, `at ` and `the ` out.
pub open spec fn md_hms_text(s: Seq<char>, year: i32) -> Seq<char> {
    text::replaced(
        text::replaced(
            year_prefixed(year, text::replaced(text::without_ordinal_suffixes(s), ", "@, " "@)),
            "at "@,
            " "@,
        ),
        "the "@,
        " "@,
    )
}

fn md_hms_chars(s: &Vec<char>, year: i32) -> (r: Vec<char>)
    ensures
        r@ == md_hms_text(s@, year),
{
    proof {
        reveal_strlit(", ");
        reveal_strlit("at ");
        reveal_strlit("the ");
    }
    let a = text::strip_number_suffixes(s);
    let b = replace_text(&a, ", ", " ");
    let c = prefix_year(year, &b);
    let d = replace_text(&c, "at ", " ");
    replace_text(&d, "the ", " ")
}

/// `Mon dd` made ready for its format: `the ` and suffixes out, the year in
/// front.
pub open spec fn md_text(s: Seq<char>, year: i32) -> Seq<char> {
    year_prefixed(year, text::without_ordinal_suffixes(text::replaced(s, "the "@, " "@)))
}

fn md_chars(s: &Vec<char>, year: i32) -> (r: Vec<char>)
    ensures
        r@ == md_text(s@, year),
{
    proof {
        reveal_strlit("the ");
    }
    let a = replace_text(s, "the ", " ");
    let b = text::strip_number_suffixes(&a);
    prefix_year(year, &b)
}

/// `Mon dd, yyyy hh:mm` made ready for the formats.
pub open spec fn mdy_hms_text(s: Seq<char>) -> Seq<char> {
    text::without_ordinal_suffixes(
        text::replaced(
            text::replaced(text::replaced(text::replaced(s, ", "@, " "@), ". "@, " "@), "the "@, " "@),
            "at "@,
            " "@,
        ),
    )
}

fn mdy_hms_chars(s: &Vec<char>) -> (r: Vec<char>)
    ensures
        r@ == mdy_hms_text(s@),
{
    proof {
        reveal_strlit(", ");
        reveal_strlit(". ");
        reveal_strlit("the ");
        reveal_strlit("at ");
    }
    let a = replace_text(s, ", ", " ");
    let b = replace_text(&a, ". ", " ");
    let c = replace_text(&b, "the ", " ");
    let d = replace_text(&c, "at ", " ");
    text::strip_number_suffixes(&d)
}

/// `Mon dd, yyyy hh:mm z` made ready for the formats: commas and `at` out,
/// `the ` out, suffixes out.
pub open spec fn mdy_hms_z_text(s: Seq<char>) -> Seq<char> {
    text::without_ordinal_suffixes(
        text::replaced(text::replaced(text::replaced(s, ","@, ""@), "at"@, ""@), "the "@, " "@),
    )
}

fn mdy_hms_z_chars(s: &Vec<char>) -> (r: Vec<char>)
    ensures
        r@ == mdy_hms_z_text(s@),
{
    proof {
        reveal_strlit(",");
        reveal_strlit("at");
        reveal_strlit("the ");
    }
    let a = replace_text(s, ",", "");
    let b = replace_text(&a, "at", "");
    let c = replace_text(&b, "the ", " ");
    text::strip_number_suffixes(&c)
}

/// `Mon dd, yyyy` made ready for the formats.
pub open spec fn mdy_text(s: Seq<char>) -> Seq<char> {
    text::without_ordinal_suffixes(
        text::replaced(text::replaced(text::replaced(s, ", "@, " "@), ". "@, " "@), "the "@, " "@),
    )
}

fn mdy_chars(s: &Vec<char>) -> (r: Vec<char>)
    ensures
        r@ == mdy_text(s@),
{
    proof {
        reveal_strlit(", ");
        reveal_strlit(". ");
        reveal_strlit("the ");
    }
    let a = replace_text(s, ", ", " ");
    let b = replace_text(&a, ". ", " ");
    let c = replace_text(&b, "the ", " ");
    text::strip_number_suffixes(&c)
}

/// `dd Mon yyyy hh:mm` made ready for the formats.
pub open spec fn dmy_hms_text(s: Seq<char>) -> Seq<char> {
    text::without_ordinal_suffixes(
        text::replaced(text::replaced(text::replaced(s, ", "@, " "@), "at "@, " "@), "of "@, " "@),
    )
}

fn dmy_hms_chars(s: &Vec<char>) -> (r: Vec<char>)
    ensures
        r@ == dmy_hms_text(s@),
{
    proof {
        reveal_strlit(", ");
        reveal_strlit("at ");
        reveal_strlit("of ");
    }
    let a = replace_text(s, ", ", " ");
    let b = replace_text(&a, "at ", " ");
    let c = replace_text(&b, "of ", " ");
    text::strip_number_suffixes(&c)
}

/// `dd Mon yyyy` made ready for the formats.
pub open spec fn dmy_text(s: Seq<char>) -> Seq<char> {
    text::without_ordinal_suffixes(text::replaced(text::replaced(s, ", "@, " "@), "of "@, " "@))
}

fn dmy_chars(s: &Vec<char>) -> (r: Vec<char>)
    ensures
        r@ == dmy_text(s@),
{
    proof {
        reveal_strlit(", ");
        reveal_strlit("of ");
    }
    let a = replace_text(s, ", ", " ");
    let b = replace_text(&a, "of ", " ");
    text::strip_number_suffixes(&b)
}

/// `dd Mon` made ready for its format: `of ` and suffixes out, the year in
/// front.
pub open spec fn dm_text(s: Seq<char>, year: i32) -> Seq<char> {
    year_prefixed(year, text::without_ordinal_suffixes(text::replaced(s, "of "@, " "@)))
}

fn dm_chars(s: &Vec<char>, year: i32) -> (r: Vec<char>)
    ensures
        r@ == dm_text(s@, year),
{
    proof {
        reveal_strlit("of ");
    }
    let a = replace_text(s, "of ", " ");
    let b = text::strip_number_suffixes(&a);
    prefix_year(year, &b)
}

/// `dd Mon hh:mm` made ready for the formats: suffixes out, the year in
/// front, `at `, `, ` and `of ` out.
pub open spec fn dm_hms_text(s: Seq<char>, year: i32) -> Seq<char> {
    text::replaced(
        text::replaced(
            text::replaced(year_prefixed(year, text::without_ordinal_suffixes(s)), "at "@, " "@),
            ", "@,
            " "@,
        ),
        "of "@,
        " "@,
    )
}

fn dm_hms_chars(s: &Vec<char>, year: i32) -> (r: Vec<char>)
    ensures
        r@ == dm_hms_text(s@, year),
{
    proof {
        reveal_strlit(", ");
        reveal_strlit("at ");
        reveal_strlit("of ");
    }
    let a = text::strip_number_suffixes(s);
    let b = prefix_year(year, &a);
    let c = replace_text(&b, "at ", " ");
    let d = replace_text(&c, ", ", " ");
    replace_text(&d, "of ", " ")
}

/// A slash date with a time made ready for the formats: commas and `at` out.
pub open spec fn slash_hms_text(s: Seq<char>) -> Seq<char> {
    text::replaced(text::replaced(s, ","@, ""@), "at"@, ""@)
}

fn slash_hms_chars(s: &Vec<char>) -> (r: Vec<char>)
    ensures
        r@ == slash_hms_text(s@),
{
    proof {
        reveal_strlit(",");
        reveal_strlit("at");
    }
    let a = replace_text(s, ",", "");
    replace_text(&a, "at", "")
}

/// `yyyy.mm` with the day of the month `day` after a dot.
pub open spec fn with_day(s: Seq<char>, day: u32) -> Seq<char> {
    s + "."@ + text::decimal_nat(day as nat)
}

fn with_day_chars(s: &Vec<char>, day: u32) -> (r: Vec<char>)
    ensures
        r@ == with_day(s@, day),
{
    let a = text::concat(s, &text::str_chars("."));
    let r = text::concat(&a, &text::decimal_of_u64(day as u64));
    assert(r@ =~= with_day(s@, day));
    r
}

/// The first of two attempts that applies.
pub open spec fn either(a: Attempt, b: Attempt) -> Attempt {
    if a is Some {
        a
    } else {
        b
    }
}

impl Parse {
    /// The zone in which a text without a zone is read.
    pub closed spec fn zone(self) -> FixedZone {
        self.tz
    }

    /// The time of day that a text without one takes, where it is set.
    pub closed spec fn default_time_of_day(self) -> Option<TimeOfDay> {
        self.default_time
    }

    /// A parser that reads a text without a zone in `tz`, and gives a text
    /// without a time of day `default_time`, or else the current time of day.
    pub fn new(tz: &FixedZone, default_time: Option<TimeOfDay>) -> (p: Parse)
        ensures
            p.zone() == *tz,
            p.default_time_of_day() == default_time,
    {
        Parse { tz: *tz, default_time }
    }

    /// The time of day for a text that gives only a date: the default time,
    /// or else the time of day that the wall clock of zone `east` shows `now`.
    pub open spec fn time_to_use(self, now: UtcDateTime, east: i32) -> Result<TimeOfDay, DateParseError> {
        match self.default_time_of_day() {
            Some(t) => Ok(t),
            None => match instant_local(east, now) {
                Some(l) => Ok(l.time),
                None => Err(DateParseError::ClockOutOfRange),
            },
        }
    }

    fn pick_time(&self, now: UtcDateTime, east: i32) -> (r: Result<TimeOfDay, DateParseError>)
        ensures
            r == self.time_to_use(now, east),
    {
        match self.default_time {
            Some(t) => Ok(t),
            None => match to_local(east, now) {
                Some(l) => Ok(l.time),
                None => Err(DateParseError::ClockOutOfRange),
            },
        }
    }

    /// `yyyy-mm-dd hh:mm[:ss[.f]] [am|pm]` in the parser's zone.
    pub open spec fn ymd_hms_result(self, s: Seq<char>) -> Attempt {
        if !full_match(shapes::ymd_hms_shape(), s) {
            None
        } else {
            ok_instant(first_in_zone(self.zone().east, s, ymd_hms_formats()))
        }
    }

    /// `yyyy-mm-dd hh:mm[:ss[.f]] z`, where `z` is a zone name or an offset.
    pub open spec fn ymd_hms_z_result(self, s: Seq<char>) -> Attempt {
        match zone_text(shapes::ymd_hms_z_shape(), s, 10) {
            None => None,
            Some(zt) => match zone_of(zt) {
                Err(e) => Some(Err(DateParseError::Timezone(e))),
                Ok(z) => ok_instant(
                    match first_naive_datetime(s, ymd_hms_z_formats()) {
                        Some(n) => local_instant(z.east, n),
                        None => None,
                    },
                ),
            },
        }
    }

    /// `yyyy-mm-dd` at the time of day to use.
    pub open spec fn ymd_result(self, s: Seq<char>, now: UtcDateTime) -> Attempt {
        if !full_match(shapes::ymd_shape(), s) {
            None
        } else {
            match self.time_to_use(now, self.zone().east) {
                Err(e) => Some(Err(e)),
                Ok(t) => ok_instant(date_at(naive_date_format(s, "%Y-%m-%d"@), t, self.zone().east)),
            }
        }
    }

    /// `yyyy-mm-dd z` at the time of day to use in zone `z`.
    pub open spec fn ymd_z_result(self, s: Seq<char>, now: UtcDateTime) -> Attempt {
        match zone_text(shapes::ymd_z_shape(), s, 4) {
            None => None,
            Some(zt) => match zone_of(zt) {
                Err(e) => Some(Err(DateParseError::Timezone(e))),
                Ok(z) => match self.time_to_use(now, z.east) {
                    Err(e) => Some(Err(e)),
                    Ok(t) => ok_instant(date_at(naive_date_format(s, "%Y-%m-%d %Z"@), t, z.east)),
                },
            },
        }
    }

    /// `hh:mm[:ss] [am|pm]` on the current date in the parser's zone.
    pub open spec fn hms_result(self, s: Seq<char>, now: UtcDateTime) -> Attempt {
        if !full_match(shapes::hms_shape(), s) {
            None
        } else {
            match instant_local(self.zone().east, now) {
                None => Some(Err(DateParseError::ClockOutOfRange)),
                Some(l) => ok_instant(
                    match first_naive_time(s, hms_formats()) {
                        Some(t) => local_instant(self.zone().east, LocalDateTime { date: l.date, time: t }),
                        None => None,
                    },
                ),
            }
        }
    }

    /// `hh:mm[:ss] [am|pm] z` on the current date in zone `z`.
    pub open spec fn hms_z_result(self, s: Seq<char>, now: UtcDateTime) -> Attempt {
        match zone_text(shapes::hms_z_shape(), s, 5) {
            None => None,
            Some(zt) => match zone_of(zt) {
                Err(e) => Some(Err(DateParseError::Timezone(e))),
                Ok(z) => match instant_local(z.east, now) {
                    None => Some(Err(DateParseError::ClockOutOfRange)),
                    Some(l) => ok_instant(
                        match first_naive_time(s, hms_z_formats()) {
                            Some(t) => local_instant(z.east, LocalDateTime { date: l.date, time: t }),
                            None => None,
                        },
                    ),
                },
            },
        }
    }

    /// `yyyy-Mon-dd` at the time of day to use.
    pub open spec fn month_ymd_result(self, s: Seq<char>, now: UtcDateTime) -> Attempt {
        if !full_match(shapes::month_ymd_shape(), s) {
            None
        } else {
            match self.time_to_use(now, self.zone().east) {
                Err(e) => Some(Err(e)),
                Ok(t) => ok_instant(date_at(first_naive_date(s, month_ymd_formats()), t, self.zone().east)),
            }
        }
    }

    /// `Mon dd hh:mm[:ss] [am|pm]` in the current year.
    pub open spec fn month_md_hms_result(self, s: Seq<char>, now: UtcDateTime) -> Attempt {
        if !full_match(shapes::month_md_hms_shape(), s) {
            None
        } else {
            match instant_local(self.zone().east, now) {
                None => Some(Err(DateParseError::ClockOutOfRange)),
                Some(l) => ok_instant(
                    first_in_zone(self.zone().east, md_hms_text(s, l.date.year), month_md_hms_formats()),
                ),
            }
        }
    }

    /// `Mon dd` in the current year, at the time of day to use.
    pub open spec fn month_md_result(self, s: Seq<char>, now: UtcDateTime) -> Attempt {
        if !full_match(shapes::month_md_shape(), s) {
            None
        } else {
            match self.time_to_use(now, self.zone().east) {
                Err(e) => Some(Err(e)),
                Ok(t) => match instant_local(self.zone().east, now) {
                    None => Some(Err(DateParseError::ClockOutOfRange)),
                    Some(l) => ok_instant(
                        date_at(naive_date_format(md_text(s, l.date.year), "%Y %B %d"@), t, self.zone().east),
                    ),
                },
            }
        }
    }

    /// `Mon dd, yyyy hh:mm[:ss] [am|pm]` in the parser's zone.
    pub open spec fn month_mdy_hms_result(self, s: Seq<char>) -> Attempt {
        if !full_match(shapes::month_mdy_hms_shape(), s) {
            None
        } else {
            ok_instant(first_in_zone(self.zone().east, mdy_hms_text(s), month_mdy_hms_formats()))
        }
    }

    /// `Mon dd, yyyy hh:mm[:ss] [am|pm] z`.
    pub open spec fn month_mdy_hms_z_result(self, s: Seq<char>) -> Attempt {
        match zone_text(shapes::month_mdy_hms_z_shape(), s, 18) {
            None => None,
            Some(zt) => match zone_of(zt) {
                Err(e) => Some(Err(DateParseError::Timezone(e))),
                Ok(z) => ok_instant(
                    match first_naive_datetime(mdy_hms_z_text(s), month_mdy_hms_z_formats()) {
                        Some(n) => local_instant(z.east, n),
                        None => None,
                    },
                ),
            },
        }
    }

    /// `Mon dd, yyyy` at the time of day to use.
    pub open spec fn month_mdy_result(self, s: Seq<char>, now: UtcDateTime) -> Attempt {
        if !full_match(shapes::month_mdy_shape(), s) {
            None
        } else {
            match self.time_to_use(now, self.zone().east) {
                Err(e) => Some(Err(e)),
                Ok(t) => ok_instant(date_at(first_naive_date(mdy_text(s), month_mdy_formats()), t, self.zone().east)),
            }
        }
    }

    /// `dd Mon yyyy hh:mm[:ss[.f]] [am|pm]` in the parser's zone.
    pub open spec fn month_dmy_hms_result(self, s: Seq<char>) -> Attempt {
        if !full_match(shapes::month_dmy_hms_shape(), s) {
            None
        } else {
            ok_instant(first_in_zone(self.zone().east, dmy_hms_text(s), month_dmy_hms_formats()))
        }
    }

    /// `dd Mon yyyy` at the time of day to use.
    pub open spec fn month_dmy_result(self, s: Seq<char>, now: UtcDateTime) -> Attempt {
        if !full_match(shapes::month_dmy_shape(), s) {
            None
        } else {
            match self.time_to_use(now, self.zone().east) {
                Err(e) => Some(Err(e)),
                Ok(t) => ok_instant(date_at(first_naive_date(dmy_text(s), month_dmy_formats()), t, self.zone().east)),
            }
        }
    }

    /// `dd Mon` in the current year, at the time of day to use.
    pub open spec fn month_dm_result(self, s: Seq<char>, now: UtcDateTime) -> Attempt {
        if !full_match(shapes::month_dm_shape(), s) {
            None
        } else {
            match self.time_to_use(now, self.zone().east) {
                Err(e) => Some(Err(e)),
                Ok(t) => match instant_local(self.zone().east, now) {
                    None => Some(Err(DateParseError::ClockOutOfRange)),
                    Some(l) => ok_instant(
                        date_at(naive_date_format(dm_text(s, l.date.year), "%Y %d %B"@), t, self.zone().east),
                    ),
                },
            }
        }
    }

    /// `dd Mon hh:mm[:ss] [am|pm]` in the current year.
    pub open spec fn month_dm_hms_result(self, s: Seq<char>, now: UtcDateTime) -> Attempt {
        if !full_match(shapes::month_dm_hms_shape(), s) {
            None
        } else {
            match instant_local(self.zone().east, now) {
                None => Some(Err(DateParseError::ClockOutOfRange)),
                Some(l) => ok_instant(
                    first_in_zone(self.zone().east, dm_hms_text(s, l.date.year), month_dm_hms_formats()),
                ),
            }
        }
    }

    /// `dd/mm/yy[yy] hh:mm[:ss[.f]] [am|pm]` in the parser's zone.
    pub open spec fn slash_dmy_hms_result(self, s: Seq<char>) -> Attempt {
        if !full_match(shapes::slash_dmy_hms_shape(), s) {
            None
        } else {
            ok_instant(first_in_zone(self.zone().east, slash_hms_text(s), slash_dmy_hms_formats()))
        }
    }

    /// `dd/mm/yy[yy]` at the time of day to use.
    pub open spec fn slash_dmy_result(self, s: Seq<char>, now: UtcDateTime) -> Attempt {
        if !full_match(shapes::slash_dmy_shape(), s) {
            None
        } else {
            match self.time_to_use(now, self.zone().east) {
                Err(e) => Some(Err(e)),
                Ok(t) => ok_instant(date_at(first_naive_date(s, slash_dmy_formats()), t, self.zone().east)),
            }
        }
    }

    /// `yyyy/mm/dd hh:mm[:ss[.f]] [am|pm]` in the parser's zone.
    pub open spec fn slash_ymd_hms_result(self, s: Seq<char>) -> Attempt {
        if !full_match(shapes::slash_ymd_hms_shape(), s) {
            None
        } else {
            ok_instant(first_in_zone(self.zone().east, slash_hms_text(s), slash_ymd_hms_formats()))
        }
    }

    /// `yyyy/mm/dd` at the time of day to use.
    pub open spec fn slash_ymd_result(self, s: Seq<char>, now: UtcDateTime) -> Attempt {
        if !full_match(shapes::slash_ymd_shape(), s) {
            None
        } else {
            match self.time_to_use(now, self.zone().east) {
                Err(e) => Some(Err(e)),
                Ok(t) => ok_instant(date_at(naive_date_format(s, "%Y/%m/%d"@), t, self.zone().east)),
            }
        }
    }

    /// `dd.mm.yy[yy]`, `yyyy.mm.dd`, or `yyyy.mm` on the current day of the
    /// month in UTC, at the time of day to use.
    pub open spec fn dot_dmy_or_ymd_result(self, s: Seq<char>, now: UtcDateTime) -> Attempt {
        if !crate::pattern::occurs_in(shapes::dot_date_shape(), s) {
            None
        } else {
            match self.time_to_use(now, self.zone().east) {
                Err(e) => Some(Err(e)),
                Ok(t) => match first_naive_date(s, dot_formats()) {
                    Some(d) => ok_instant(date_at(Some(d), t, self.zone().east)),
                    None => match instant_local(0, now) {
                        None => Some(Err(DateParseError::ClockOutOfRange)),
                        Some(u) => ok_instant(
                            date_at(naive_date_format(with_day(s, u.date.day), "%Y.%m.%d"@), t, self.zone().east),
                        ),
                    },
                },
            }
        }
    }

    /// `yymmdd hh:mm:ss`, as in MySQL logs, in the parser's zone.
    pub open spec fn mysql_log_timestamp_result(self, s: Seq<char>) -> Attempt {
        if !crate::pattern::occurs_in(shapes::mysql_log_shape(), s) {
            None
        } else {
            ok_instant(wall_clock_instant(self.zone().east, naive_datetime_format(s, "%y%m%d %H:%M:%S"@)))
        }
    }

    /// `yyyy年mm月dd日hh时mm分ss秒` in the parser's zone.
    pub open spec fn chinese_ymd_hms_result(self, s: Seq<char>) -> Attempt {
        if !full_match(shapes::chinese_ymd_hms_shape(), s) {
            None
        } else {
            ok_instant(wall_clock_instant(self.zone().east, naive_datetime_format(s, "%Y年%m月%d日%H时%M分%S秒"@)))
        }
    }

    /// `yyyy年mm月dd日` at the time of day to use.
    pub open spec fn chinese_ymd_result(self, s: Seq<char>, now: UtcDateTime) -> Attempt {
        if !full_match(shapes::chinese_ymd_shape(), s) {
            None
        } else {
            match self.time_to_use(now, self.zone().east) {
                Err(e) => Some(Err(e)),
                Ok(t) => ok_instant(date_at(naive_date_format(s, "%Y年%m月%d日"@), t, self.zone().east)),
            }
        }
    }

    /// For a date that begins `yyyy-mm`: the first of its formats that applies.
    pub open spec fn ymd_family_result(self, s: Seq<char>, now: UtcDateTime) -> Attempt {
        if !prefix_match(shapes::ymd_start_shape(), s) {
            None
        } else {
            either(rfc3339_result(s), either(postgres_timestamp_result(s), either(self.ymd_hms_result(s), either(self.ymd_hms_z_result(s), either(self.ymd_result(s, now), self.ymd_z_result(s, now))))))
        }
    }

    /// For a text that begins `hh:mm`: the first of its formats that applies.
    pub open spec fn hms_family_result(self, s: Seq<char>, now: UtcDateTime) -> Attempt {
        if !prefix_match(shapes::hms_start_shape(), s) {
            None
        } else {
            either(self.hms_result(s, now), self.hms_z_result(s, now))
        }
    }

    /// For a text that begins with a month name and then the day: the first of its formats that applies.
    pub open spec fn month_mdy_family_result(self, s: Seq<char>, now: UtcDateTime) -> Attempt {
        if !prefix_match(shapes::month_mdy_start_shape(), s) {
            None
        } else {
            either(self.month_md_hms_result(s, now), either(self.month_md_result(s, now), either(self.month_mdy_hms_result(s), either(self.month_mdy_hms_z_result(s), self.month_mdy_result(s, now)))))
        }
    }

    /// For a text that begins with the day and then a month name: the first of its formats that applies.
    pub open spec fn month_dmy_family_result(self, s: Seq<char>, now: UtcDateTime) -> Attempt {
        if !prefix_match(shapes::month_dmy_start_shape(), s) {
            None
        } else {
            either(self.month_dmy_hms_result(s), either(self.month_dmy_result(s, now), either(self.month_dm_result(s, now), self.month_dm_hms_result(s, now))))
        }
    }

    /// For a text that begins `dd/mm`: the first of its formats that applies.
    pub open spec fn slash_dmy_family_result(self, s: Seq<char>, now: UtcDateTime) -> Attempt {
        if !prefix_match(shapes::slash_dmy_start_shape(), s) {
            None
        } else {
            either(self.slash_dmy_hms_result(s), self.slash_dmy_result(s, now))
        }
    }

    /// For a text that begins `yyyy/mm`: the first of its formats that applies.
    pub open spec fn slash_ymd_family_result(self, s: Seq<char>, now: UtcDateTime) -> Attempt {
        if !prefix_match(shapes::slash_ymd_start_shape(), s) {
            None
        } else {
            either(self.slash_ymd_hms_result(s), self.slash_ymd_result(s, now))
        }
    }

    /// For a text that begins `yyyy年mm月`: the first of its formats that applies.
    pub open spec fn chinese_ymd_family_result(self, s: Seq<char>, now: UtcDateTime) -> Attempt {
        if !prefix_match(shapes::chinese_start_shape(), s) {
            None
        } else {
            either(self.chinese_ymd_hms_result(s), self.chinese_ymd_result(s, now))
        }
    }

    /// The first of the accepted formats, in their fixed order, that applies
    /// to `s` with the clock at `now`.
    pub open spec fn first_format_result(self, s: Seq<char>, now: UtcDateTime) -> Attempt {
        either(unix_timestamp_result(s), either(rfc2822_result(s), either(self.ymd_family_result(s, now), either(self.hms_family_result(s, now), either(self.month_ymd_result(s, now), either(self.month_mdy_family_result(s, now), either(self.month_dmy_family_result(s, now), either(self.slash_dmy_family_result(s, now), either(self.slash_ymd_family_result(s, now), either(self.dot_dmy_or_ymd_result(s, now), either(self.mysql_log_timestamp_result(s), self.chinese_ymd_family_result(s, now))))))))))))
    }

    /// What `parse` gives for `s` with the clock at `now`: what the first
    /// format that applies gives, or `NoMatchingFormat` where none applies.
    pub open spec fn parse_result(self, s: Seq<char>, now: UtcDateTime) -> Result<UtcDateTime, DateParseError> {
        match self.first_format_result(s, now) {
            Some(r) => r,
            None => Err(DateParseError::NoMatchingFormat),
        }
    }

    /// A unix timestamp: `1511648546` (seconds), `1620021848429`
    /// (milliseconds), `1620024872717915000` (nanoseconds).
    pub fn unix_timestamp(&self, input: &str) -> (r: Attempt)
        ensures
            r == unix_timestamp_result(input@),
    {
        let s = text::str_chars(input);
        if !matches_whole(&shapes::unix_timestamp_pieces(), &s) {
            return None;
        }
        proof {
            lemma_unix_timestamp_shape(s@);
        }
        let v = match text::parse_decimal_i64(&s) {
            Some(v) => v,
            None => return None,
        };
        proof {
            crate::text::lemma_decimal_value_nonneg(s@);
        }
        if s.len() == 10 {
            Some(Ok(UtcDateTime { timestamp: v, nanosecond: 0 }))
        } else if s.len() == 13 {
            Some(Ok(UtcDateTime { timestamp: v / 1000, nanosecond: ((v % 1000) * 1_000_000) as u32 }))
        } else if s.len() == 19 {
            Some(Ok(UtcDateTime { timestamp: v / 1_000_000_000, nanosecond: (v % 1_000_000_000) as u32 }))
        } else {
            None
        }
    }

    /// RFC 3339: `2021-05-01T01:17:02.604456Z`.
    pub fn rfc3339(&self, input: &str) -> (r: Attempt)
        ensures
            r == rfc3339_result(input@),
    {
        let s = text::str_chars(input);
        ok_attempt(parse_rfc3339(&s))
    }

    /// RFC 2822: `Wed, 02 Jun 2021 06:31:39 GMT`.
    pub fn rfc2822(&self, input: &str) -> (r: Attempt)
        ensures
            r == rfc2822_result(input@),
    {
        let s = text::str_chars(input);
        ok_attempt(parse_rfc2822(&s))
    }

    /// A postgres timestamp with its offset: `2019-11-29 08:08-08`,
    /// `2021-05-02 23:31:36.0741-07`, `2017-07-19 03:21:51+00:00`.
    pub fn postgres_timestamp(&self, input: &str) -> (r: Attempt)
        ensures
            r == postgres_timestamp_result(input@),
    {
        let s = text::str_chars(input);
        if !matches_whole(&shapes::postgres_pieces(), &s) {
            return None;
        }
        ok_attempt(try_with_offset(&s, &postgres_format_list()))
    }

    /// `yyyy-mm-dd hh:mm[:ss[.f]] [am|pm]`: `2021-04-30 21:14`,
    /// `2014-04-26 05:24:37 PM`, `2014-04-26 17:24:37.3186369`.
    pub fn ymd_hms(&self, input: &str) -> (r: Attempt)
        ensures
            r == self.ymd_hms_result(input@),
    {
        let s = text::str_chars(input);
        if !matches_whole(&shapes::ymd_hms_pieces(), &s) {
            return None;
        }
        ok_attempt(try_in_zone(self.tz.east, &s, &ymd_hms_format_list()))
    }

    /// `yyyy-mm-dd hh:mm[:ss[.f]] z`: `2017-11-25 13:31:15 PST`,
    /// `2014-04-26 13:13:44 +09:00`, `2015-09-30 18:48:56.35272715 UTC`.
    pub fn ymd_hms_z(&self, input: &str) -> (r: Attempt)
        ensures
            r == self.ymd_hms_z_result(input@),
    {
        let s = text::str_chars(input);
        let zt = match capture_zone(&shapes::ymd_hms_z_pieces(), &s, 10) {
            Some(t) => t,
            None => return None,
        };
        match parse_zone(&zt) {
            Err(e) => Some(Err(DateParseError::Timezone(e))),
            Ok(z) => {
                let n = try_naive_datetime(&s, &ymd_hms_z_format_list());
                ok_attempt(
                    match n {
                        Some(n) => to_instant(z.east, n),
                        None => None,
                    },
                )
            },
        }
    }

    /// `yyyy-mm-dd`: `2021-02-21`, with the clock read as `now`.
    pub fn ymd_at(&self, input: &str, now: UtcDateTime) -> (r: Attempt)
        ensures
            r == self.ymd_result(input@, now),
    {
        let s = text::str_chars(input);
        if !matches_whole(&shapes::ymd_pieces(), &s) {
            return None;
        }
        match self.pick_time(now, self.tz.east) {
            Err(e) => Some(Err(e)),
            Ok(t) => ok_attempt(date_with_time(parse_naive_date(&s, "%Y-%m-%d"), t, self.tz.east)),
        }
    }

    /// `yyyy-mm-dd z`: `2021-02-21 PST`, `2020-07-20+08:00`, with the clock
    /// read as `now`.
    pub fn ymd_z_at(&self, input: &str, now: UtcDateTime) -> (r: Attempt)
        ensures
            r == self.ymd_z_result(input@, now),
    {
        let s = text::str_chars(input);
        let zt = match capture_zone(&shapes::ymd_z_pieces(), &s, 4) {
            Some(t) => t,
            None => return None,
        };
        match parse_zone(&zt) {
            Err(e) => Some(Err(DateParseError::Timezone(e))),
            Ok(z) => match self.pick_time(now, z.east) {
                Err(e) => Some(Err(e)),
                Ok(t) => ok_attempt(date_with_time(parse_naive_date(&s, "%Y-%m-%d %Z"), t, z.east)),
            },
        }
    }

    /// `hh:mm[:ss] [am|pm]`: `01:06:06`, `4:00pm`, `6:00 AM`, with the clock
    /// read as `now`.
    pub fn hms_at(&self, input: &str, now: UtcDateTime) -> (r: Attempt)
        ensures
            r == self.hms_result(input@, now),
    {
        let s = text::str_chars(input);
        if !matches_whole(&shapes::hms_pieces(), &s) {
            return None;
        }
        match to_local(self.tz.east, now) {
            None => Some(Err(DateParseError::ClockOutOfRange)),
            Some(l) => ok_attempt(
                match try_naive_time(&s, &hms_format_list()) {
                    Some(t) => to_instant(self.tz.east, LocalDateTime { date: l.date, time: t }),
                    None => None,
                },
            ),
        }
    }

    /// `hh:mm[:ss] [am|pm] z`: `01:06:06 PST`, `6:00pm UTC`, with the clock
    /// read as `now`.
    pub fn hms_z_at(&self, input: &str, now: UtcDateTime) -> (r: Attempt)
        ensures
            r == self.hms_z_result(input@, now),
    {
        let s = text::str_chars(input);
        let zt = match capture_zone(&shapes::hms_z_pieces(), &s, 5) {
            Some(t) => t,
            None => return None,
        };
        match parse_zone(&zt) {
            Err(e) => Some(Err(DateParseError::Timezone(e))),
            Ok(z) => match to_local(z.east, now) {
                None => Some(Err(DateParseError::ClockOutOfRange)),
                Some(l) => ok_attempt(
                    match try_naive_time(&s, &hms_z_format_list()) {
                        Some(t) => to_instant(z.east, LocalDateTime { date: l.date, time: t }),
                        None => None,
                    },
                ),
            },
        }
    }

    /// `yyyy-Mon-dd`: `2021-Feb-21`, `2013-september-15`, with the clock read
    /// as `now`.
    pub fn month_ymd_at(&self, input: &str, now: UtcDateTime) -> (r: Attempt)
        ensures
            r == self.month_ymd_result(input@, now),
    {
        let s = text::str_chars(input);
        if !matches_whole(&shapes::month_ymd_pieces(), &s) {
            return None;
        }
        match self.pick_time(now, self.tz.east) {
            Err(e) => Some(Err(e)),
            Ok(t) => ok_attempt(date_with_time(try_naive_date(&s, &month_ymd_format_list()), t, self.tz.east)),
        }
    }

    /// `Mon dd hh:mm[:ss] [am|pm]`: `May 6 at 9:24 PM`, `May 27 02:45:27`,
    /// with the clock read as `now`.
    pub fn month_md_hms_at(&self, input: &str, now: UtcDateTime) -> (r: Attempt)
        ensures
            r == self.month_md_hms_result(input@, now),
    {
        let s = text::str_chars(input);
        if !matches_whole(&shapes::month_md_hms_pieces(), &s) {
            return None;
        }
        match to_local(self.tz.east, now) {
            None => Some(Err(DateParseError::ClockOutOfRange)),
            Some(l) => {
                let dt = md_hms_chars(&s, l.date.year);
                ok_attempt(try_in_zone(self.tz.east, &dt, &month_md_hms_format_list()))
            },
        }
    }

    /// `Mon dd`: `May 6`, `May the 1st`, `August 24`, with the clock read as
    /// `now`.
    pub fn month_md_at(&self, input: &str, now: UtcDateTime) -> (r: Attempt)
        ensures
            r == self.month_md_result(input@, now),
    {
        let s = text::str_chars(input);
        if !matches_whole(&shapes::month_md_pieces(), &s) {
            return None;
        }
        match self.pick_time(now, self.tz.east) {
            Err(e) => Some(Err(e)),
            Ok(t) => match to_local(self.tz.east, now) {
                None => Some(Err(DateParseError::ClockOutOfRange)),
                Some(l) => {
                    let dt = md_chars(&s, l.date.year);
                    ok_attempt(date_with_time(parse_naive_date(&dt, "%Y %B %d"), t, self.tz.east))
                },
            },
        }
    }

    /// `Mon dd, yyyy hh:mm[:ss] [am|pm]`: `May 8, 2009 5:57:51 PM`,
    /// `September 17, 2012, 10:10:09`.
    pub fn month_mdy_hms(&self, input: &str) -> (r: Attempt)
        ensures
            r == self.month_mdy_hms_result(input@),
    {
        let s = text::str_chars(input);
        if !matches_whole(&shapes::month_mdy_hms_pieces(), &s) {
            return None;
        }
        let dt = mdy_hms_chars(&s);
        ok_attempt(try_in_zone(self.tz.east, &dt, &month_mdy_hms_format_list()))
    }

    /// `Mon dd, yyyy hh:mm[:ss] [am|pm] z`: `May 02, 2021 15:51:31 UTC`,
    /// `May 26, 2021, 12:49 AM PDT`.
    pub fn month_mdy_hms_z(&self, input: &str) -> (r: Attempt)
        ensures
            r == self.month_mdy_hms_z_result(input@),
    {
        let s = text::str_chars(input);
        let zt = match capture_zone(&shapes::month_mdy_hms_z_pieces(), &s, 18) {
            Some(t) => t,
            None => return None,
        };
        match parse_zone(&zt) {
            Err(e) => Some(Err(DateParseError::Timezone(e))),
            Ok(z) => {
                let dt = mdy_hms_z_chars(&s);
                ok_attempt(
                    match try_naive_datetime(&dt, &month_mdy_hms_z_format_list()) {
                        Some(n) => to_instant(z.east, n),
                        None => None,
                    },
                )
            },
        }
    }

    /// `Mon dd, yyyy`: `May 25, 2021`, `oct. 7, 70`, with the clock read as
    /// `now`.
    pub fn month_mdy_at(&self, input: &str, now: UtcDateTime) -> (r: Attempt)
        ensures
            r == self.month_mdy_result(input@, now),
    {
        let s = text::str_chars(input);
        if !matches_whole(&shapes::month_mdy_pieces(), &s) {
            return None;
        }
        match self.pick_time(now, self.tz.east) {
            Err(e) => Some(Err(e)),
            Ok(t) => {
                let dt = mdy_chars(&s);
                ok_attempt(date_with_time(try_naive_date(&dt, &month_mdy_format_list()), t, self.tz.east))
            },
        }
    }

    /// `dd Mon yyyy hh:mm[:ss[.f]] [am|pm]`: `12 Feb 2006, 19:17`,
    /// `14 May 2019 19:11:40.164`.
    pub fn month_dmy_hms(&self, input: &str) -> (r: Attempt)
        ensures
            r == self.month_dmy_hms_result(input@),
    {
        let s = text::str_chars(input);
        if !matches_whole(&shapes::month_dmy_hms_pieces(), &s) {
            return None;
        }
        let dt = dmy_hms_chars(&s);
        ok_attempt(try_in_zone(self.tz.east, &dt, &month_dmy_hms_format_list()))
    }

    /// `dd Mon yyyy`: `7 oct 70`, `03 February 2013`, with the clock read as
    /// `now`.
    pub fn month_dmy_at(&self, input: &str, now: UtcDateTime) -> (r: Attempt)
        ensures
            r == self.month_dmy_result(input@, now),
    {
        let s = text::str_chars(input);
        if !matches_whole(&shapes::month_dmy_pieces(), &s) {
            return None;
        }
        match self.pick_time(now, self.tz.east) {
            Err(e) => Some(Err(e)),
            Ok(t) => {
                let dt = dmy_chars(&s);
                ok_attempt(date_with_time(try_naive_date(&dt, &month_dmy_format_list()), t, self.tz.east))
            },
        }
    }

    /// `dd Mon`: `7 oct`, `1st of July`, with the clock read as `now`.
    pub fn month_dm_at(&self, input: &str, now: UtcDateTime) -> (r: Attempt)
        ensures
            r == self.month_dm_result(input@, now),
    {
        let s = text::str_chars(input);
        if !matches_whole(&shapes::month_dm_pieces(), &s) {
            return None;
        }
        match self.pick_time(now, self.tz.east) {
            Err(e) => Some(Err(e)),
            Ok(t) => match to_local(self.tz.east, now) {
                None => Some(Err(DateParseError::ClockOutOfRange)),
                Some(l) => {
                    let dt = dm_chars(&s, l.date.year);
                    ok_attempt(date_with_time(parse_naive_date(&dt, "%Y %d %B"), t, self.tz.east))
                },
            },
        }
    }

    /// `dd Mon hh:mm[:ss] [am|pm]`: `6th May at 9:24 PM`, `27 May 02:45:27`,
    /// with the clock read as `now`.
    pub fn month_dm_hms_at(&self, input: &str, now: UtcDateTime) -> (r: Attempt)
        ensures
            r == self.month_dm_hms_result(input@, now),
    {
        let s = text::str_chars(input);
        if !matches_whole(&shapes::month_dm_hms_pieces(), &s) {
            return None;
        }
        match to_local(self.tz.east, now) {
            None => Some(Err(DateParseError::ClockOutOfRange)),
            Some(l) => {
                let dt = dm_hms_chars(&s, l.date.year);
                ok_attempt(try_in_zone(self.tz.east, &dt, &month_dm_hms_format_list()))
            },
        }
    }

    /// `dd/mm/yy[yy] hh:mm[:ss[.f]] [am|pm]`: `8/4/2014 22:05`,
    /// `8/8/1965 12:00:00 AM`, `19/03/2012 10:11:59.3186369`.
    pub fn slash_dmy_hms(&self, input: &str) -> (r: Attempt)
        ensures
            r == self.slash_dmy_hms_result(input@),
    {
        let s = text::str_chars(input);
        if !matches_whole(&shapes::slash_dmy_hms_pieces(), &s) {
            return None;
        }
        let dt = slash_hms_chars(&s);
        ok_attempt(try_in_zone(self.tz.east, &dt, &slash_dmy_hms_format_list()))
    }

    /// `dd/mm/yy[yy]`: `31/3/2014`, `21/08/71`, with the clock read as `now`.
    pub fn slash_dmy_at(&self, input: &str, now: UtcDateTime) -> (r: Attempt)
        ensures
            r == self.slash_dmy_result(input@, now),
    {
        let s = text::str_chars(input);
        if !matches_whole(&shapes::slash_dmy_pieces(), &s) {
            return None;
        }
        match self.pick_time(now, self.tz.east) {
            Err(e) => Some(Err(e)),
            Ok(t) => ok_attempt(date_with_time(try_naive_date(&s, &slash_dmy_format_list()), t, self.tz.east)),
        }
    }

    /// `yyyy/mm/dd hh:mm[:ss[.f]] [am|pm]`: `2014/4/8 22:05`,
    /// `2012/03/19 10:11:59.3186369`.
    pub fn slash_ymd_hms(&self, input: &str) -> (r: Attempt)
        ensures
            r == self.slash_ymd_hms_result(input@),
    {
        let s = text::str_chars(input);
        if !matches_whole(&shapes::slash_ymd_hms_pieces(), &s) {
            return None;
        }
        let dt = slash_hms_chars(&s);
        ok_attempt(try_in_zone(self.tz.east, &dt, &slash_ymd_hms_format_list()))
    }

    /// `yyyy/mm/dd`: `2014/3/31`, with the clock read as `now`.
    pub fn slash_ymd_at(&self, input: &str, now: UtcDateTime) -> (r: Attempt)
        ensures
            r == self.slash_ymd_result(input@, now),
    {
        let s = text::str_chars(input);
        if !matches_whole(&shapes::slash_ymd_pieces(), &s) {
            return None;
        }
        match self.pick_time(now, self.tz.east) {
            Err(e) => Some(Err(e)),
            Ok(t) => ok_attempt(date_with_time(parse_naive_date(&s, "%Y/%m/%d"), t, self.tz.east)),
        }
    }

    /// `dd.mm.yy[yy]`, `yyyy.mm.dd` or `yyyy.mm`: `31.3.2014`, `2014.03.30`,
    /// `2014.03`, with the clock read as `now`.
    pub fn dot_dmy_or_ymd_at(&self, input: &str, now: UtcDateTime) -> (r: Attempt)
        ensures
            r == self.dot_dmy_or_ymd_result(input@, now),
    {
        let s = text::str_chars(input);
        if !matches_anywhere(&shapes::dot_date_pieces(), &s) {
            return None;
        }
        match self.pick_time(now, self.tz.east) {
            Err(e) => Some(Err(e)),
            Ok(t) => match try_naive_date(&s, &dot_format_list()) {
                Some(d) => ok_attempt(date_with_time(Some(d), t, self.tz.east)),
                None => match to_local(0, now) {
                    None => Some(Err(DateParseError::ClockOutOfRange)),
                    Some(u) => {
                        let dt = with_day_chars(&s, u.date.day);
                        ok_attempt(date_with_time(parse_naive_date(&dt, "%Y.%m.%d"), t, self.tz.east))
                    },
                },
            },
        }
    }

    /// `yymmdd hh:mm:ss` as in MySQL logs: `171113 14:14:20`.
    pub fn mysql_log_timestamp(&self, input: &str) -> (r: Attempt)
        ensures
            r == self.mysql_log_timestamp_result(input@),
    {
        let s = text::str_chars(input);
        if !matches_anywhere(&shapes::mysql_log_pieces(), &s) {
            return None;
        }
        proof {
            reveal_strlit("%y%m%d %H:%M:%S");
        }
        ok_attempt(parse_in_zone(self.tz.east, &s, "%y%m%d %H:%M:%S"))
    }

    /// `yyyy年mm月dd日hh时mm分ss秒`: `2014年04月08日11时25分18秒`.
    pub fn chinese_ymd_hms(&self, input: &str) -> (r: Attempt)
        ensures
            r == self.chinese_ymd_hms_result(input@),
    {
        let s = text::str_chars(input);
        if !matches_whole(&shapes::chinese_ymd_hms_pieces(), &s) {
            return None;
        }
        proof {
            reveal_strlit("%Y年%m月%d日%H时%M分%S秒");
        }
        ok_attempt(parse_in_zone(self.tz.east, &s, "%Y年%m月%d日%H时%M分%S秒"))
    }

    /// `yyyy年mm月dd日`: `2014年04月08日`, with the clock read as `now`.
    pub fn chinese_ymd_at(&self, input: &str, now: UtcDateTime) -> (r: Attempt)
        ensures
            r == self.chinese_ymd_result(input@, now),
    {
        let s = text::str_chars(input);
        if !matches_whole(&shapes::chinese_ymd_pieces(), &s) {
            return None;
        }
        match self.pick_time(now, self.tz.east) {
            Err(e) => Some(Err(e)),
            Ok(t) => ok_attempt(date_with_time(parse_naive_date(&s, "%Y年%m月%d日"), t, self.tz.east)),
        }
    }

    /// For a date that begins `yyyy-mm`, the first of its formats that applies, with the clock
    /// read as `now`.
    pub fn ymd_family_at(&self, input: &str, now: UtcDateTime) -> (r: Attempt)
        ensures
            r == self.ymd_family_result(input@, now),
    {
        let s = text::str_chars(input);
        if !matches_start(&shapes::ymd_start_pieces(), &s) {
            return None;
        }
        let r = self.rfc3339(input);
        if r.is_some() {
            return r;
        }
        let r = self.postgres_timestamp(input);
        if r.is_some() {
            return r;
        }
        let r = self.ymd_hms(input);
        if r.is_some() {
            return r;
        }
        let r = self.ymd_hms_z(input);
        if r.is_some() {
            return r;
        }
        let r = self.ymd_at(input, now);
        if r.is_some() {
            return r;
        }
        self.ymd_z_at(input, now)
    }

    /// For a text that begins `hh:mm`, the first of its formats that applies, with the clock
    /// read as `now`.
    pub fn hms_family_at(&self, input: &str, now: UtcDateTime) -> (r: Attempt)
        ensures
            r == self.hms_family_result(input@, now),
    {
        let s = text::str_chars(input);
        if !matches_start(&shapes::hms_start_pieces(), &s) {
            return None;
        }
        let r = self.hms_at(input, now);
        if r.is_some() {
            return r;
        }
        self.hms_z_at(input, now)
    }

    /// For a text that begins with a month name and then the day, the first of its formats that applies, with the clock
    /// read as `now`.
    pub fn month_mdy_family_at(&self, input: &str, now: UtcDateTime) -> (r: Attempt)
        ensures
            r == self.month_mdy_family_result(input@, now),
    {
        let s = text::str_chars(input);
        if !matches_start(&shapes::month_mdy_start_pieces(), &s) {
            return None;
        }
        let r = self.month_md_hms_at(input, now);
        if r.is_some() {
            return r;
        }
        let r = self.month_md_at(input, now);
        if r.is_some() {
            return r;
        }
        let r = self.month_mdy_hms(input);
        if r.is_some() {
            return r;
        }
        let r = self.month_mdy_hms_z(input);
        if r.is_some() {
            return r;
        }
        self.month_mdy_at(input, now)
    }

    /// For a text that begins with the day and then a month name, the first of its formats that applies, with the clock
    /// read as `now`.
    pub fn month_dmy_family_at(&self, input: &str, now: UtcDateTime) -> (r: Attempt)
        ensures
            r == self.month_dmy_family_result(input@, now),
    {
        let s = text::str_chars(input);
        if !matches_start(&shapes::month_dmy_start_pieces(), &s) {
            return None;
        }
        let r = self.month_dmy_hms(input);
        if r.is_some() {
            return r;
        }
        let r = self.month_dmy_at(input, now);
        if r.is_some() {
            return r;
        }
        let r = self.month_dm_at(input, now);
        if r.is_some() {
            return r;
        }
        self.month_dm_hms_at(input, now)
    }

    /// For a text that begins `dd/mm`, the first of its formats that applies, with the clock
    /// read as `now`.
    pub fn slash_dmy_family_at(&self, input: &str, now: UtcDateTime) -> (r: Attempt)
        ensures
            r == self.slash_dmy_family_result(input@, now),
    {
        let s = text::str_chars(input);
        if !matches_start(&shapes::slash_dmy_start_pieces(), &s) {
            return None;
        }
        let r = self.slash_dmy_hms(input);
        if r.is_some() {
            return r;
        }
        self.slash_dmy_at(input, now)
    }

    /// For a text that begins `yyyy/mm`, the first of its formats that applies, with the clock
    /// read as `now`.
    pub fn slash_ymd_family_at(&self, input: &str, now: UtcDateTime) -> (r: Attempt)
        ensures
            r == self.slash_ymd_family_result(input@, now),
    {
        let s = text::str_chars(input);
        if !matches_start(&shapes::slash_ymd_start_pieces(), &s) {
            return None;
        }
        let r = self.slash_ymd_hms(input);
        if r.is_some() {
            return r;
        }
        self.slash_ymd_at(input, now)
    }

    /// For a text that begins `yyyy年mm月`, the first of its formats that applies, with the clock
    /// read as `now`.
    pub fn chinese_ymd_family_at(&self, input: &str, now: UtcDateTime) -> (r: Attempt)
        ensures
            r == self.chinese_ymd_family_result(input@, now),
    {
        let s = text::str_chars(input);
        if !matches_start(&shapes::chinese_start_pieces(), &s) {
            return None;
        }
        let r = self.chinese_ymd_hms(input);
        if r.is_some() {
            return r;
        }
        self.chinese_ymd_at(input, now)
    }

    /// Reads `input` in the first accepted format that applies, with the clock
    /// read as `now`.
    pub fn parse_at(&self, input: &str, now: UtcDateTime) -> (r: Result<UtcDateTime, DateParseError>)
        ensures
            r == self.parse_result(input@, now),
    {
        let r = self.unix_timestamp(input);
        if let Some(r) = r {
            return r;
        }
        let r = self.rfc2822(input);
        if let Some(r) = r {
            return r;
        }
        let r = self.ymd_family_at(input, now);
        if let Some(r) = r {
            return r;
        }
        let r = self.hms_family_at(input, now);
        if let Some(r) = r {
            return r;
        }
        let r = self.month_ymd_at(input, now);
        if let Some(r) = r {
            return r;
        }
        let r = self.month_mdy_family_at(input, now);
        if let Some(r) = r {
            return r;
        }
        let r = self.month_dmy_family_at(input, now);
        if let Some(r) = r {
            return r;
        }
        let r = self.slash_dmy_family_at(input, now);
        if let Some(r) = r {
            return r;
        }
        let r = self.slash_ymd_family_at(input, now);
        if let Some(r) = r {
            return r;
        }
        let r = self.dot_dmy_or_ymd_at(input, now);
        if let Some(r) = r {
            return r;
        }
        let r = self.mysql_log_timestamp(input);
        if let Some(r) = r {
            return r;
        }
        let r = self.chinese_ymd_family_at(input, now);
        if let Some(r) = r {
            return r;
        }
        Err(DateParseError::NoMatchingFormat)
    }

    /// Reads `input` in the first accepted format that applies: a unix
    /// timestamp, RFC 2822, the `yyyy-mm-dd` family, the `hh:mm` family,
    /// `yyyy-Mon-dd`, the month-first family, the day-first family, the
    /// `dd/mm` family, the `yyyy/mm` family, dotted dates, MySQL log
    /// timestamps and Chinese dates, in that order.
    pub fn parse(&self, input: &str) -> (r: Result<UtcDateTime, DateParseError>)
        ensures
            exists|now: UtcDateTime| now.clock_reading() && #[trigger] self.parse_result(input@, now) == r,
    {
        let now = utc_now();
        let r = self.parse_at(input, now);
        assert(self.parse_result(input@, now) == r);
        r
    }

    /// [`Parse::ymd_at`] with the clock read now.
    pub fn ymd(&self, input: &str) -> (r: Attempt)
        ensures
            exists|now: UtcDateTime| now.clock_reading() && #[trigger] self.ymd_result(input@, now) == r,
    {
        let now = utc_now();
        let r = self.ymd_at(input, now);
        assert(self.ymd_result(input@, now) == r);
        r
    }

    /// [`Parse::ymd_z_at`] with the clock read now.
    pub fn ymd_z(&self, input: &str) -> (r: Attempt)
        ensures
            exists|now: UtcDateTime| now.clock_reading() && #[trigger] self.ymd_z_result(input@, now) == r,
    {
        let now = utc_now();
        let r = self.ymd_z_at(input, now);
        assert(self.ymd_z_result(input@, now) == r);
        r
    }

    /// [`Parse::hms_at`] with the clock read now.
    pub fn hms(&self, input: &str) -> (r: Attempt)
        ensures
            exists|now: UtcDateTime| now.clock_reading() && #[trigger] self.hms_result(input@, now) == r,
    {
        let now = utc_now();
        let r = self.hms_at(input, now);
        assert(self.hms_result(input@, now) == r);
        r
    }

    /// [`Parse::hms_z_at`] with the clock read now.
    pub fn hms_z(&self, input: &str) -> (r: Attempt)
        ensures
            exists|now: UtcDateTime| now.clock_reading() && #[trigger] self.hms_z_result(input@, now) == r,
    {
        let now = utc_now();
        let r = self.hms_z_at(input, now);
        assert(self.hms_z_result(input@, now) == r);
        r
    }

    /// [`Parse::month_ymd_at`] with the clock read now.
    pub fn month_ymd(&self, input: &str) -> (r: Attempt)
        ensures
            exists|now: UtcDateTime| now.clock_reading() && #[trigger] self.month_ymd_result(input@, now) == r,
    {
        let now = utc_now();
        let r = self.month_ymd_at(input, now);
        assert(self.month_ymd_result(input@, now) == r);
        r
    }

    /// [`Parse::month_md_hms_at`] with the clock read now.
    pub fn month_md_hms(&self, input: &str) -> (r: Attempt)
        ensures
            exists|now: UtcDateTime| now.clock_reading() && #[trigger] self.month_md_hms_result(input@, now) == r,
    {
        let now = utc_now();
        let r = self.month_md_hms_at(input, now);
        assert(self.month_md_hms_result(input@, now) == r);
        r
    }

    /// [`Parse::month_md_at`] with the clock read now.
    pub fn month_md(&self, input: &str) -> (r: Attempt)
        ensures
            exists|now: UtcDateTime| now.clock_reading() && #[trigger] self.month_md_result(input@, now) == r,
    {
        let now = utc_now();
        let r = self.month_md_at(input, now);
        assert(self.month_md_result(input@, now) == r);
        r
    }

    /// [`Parse::month_mdy_at`] with the clock read now.
    pub fn month_mdy(&self, input: &str) -> (r: Attempt)
        ensures
            exists|now: UtcDateTime| now.clock_reading() && #[trigger] self.month_mdy_result(input@, now) == r,
    {
        let now = utc_now();
        let r = self.month_mdy_at(input, now);
        assert(self.month_mdy_result(input@, now) == r);
        r
    }

    /// [`Parse::month_dmy_at`] with the clock read now.
    pub fn month_dmy(&self, input: &str) -> (r: Attempt)
        ensures
            exists|now: UtcDateTime| now.clock_reading() && #[trigger] self.month_dmy_result(input@, now) == r,
    {
        let now = utc_now();
        let r = self.month_dmy_at(input, now);
        assert(self.month_dmy_result(input@, now) == r);
        r
    }

    /// [`Parse::month_dm_at`] with the clock read now.
    pub fn month_dm(&self, input: &str) -> (r: Attempt)
        ensures
            exists|now: UtcDateTime| now.clock_reading() && #[trigger] self.month_dm_result(input@, now) == r,
    {
        let now = utc_now();
        let r = self.month_dm_at(input, now);
        assert(self.month_dm_result(input@, now) == r);
        r
    }

    /// [`Parse::month_dm_hms_at`] with the clock read now.
    pub fn month_dm_hms(&self, input: &str) -> (r: Attempt)
        ensures
            exists|now: UtcDateTime| now.clock_reading() && #[trigger] self.month_dm_hms_result(input@, now) == r,
    {
        let now = utc_now();
        let r = self.month_dm_hms_at(input, now);
        assert(self.month_dm_hms_result(input@, now) == r);
        r
    }

    /// [`Parse::slash_dmy_at`] with the clock read now.
    pub fn slash_dmy(&self, input: &str) -> (r: Attempt)
        ensures
            exists|now: UtcDateTime| now.clock_reading() && #[trigger] self.slash_dmy_result(input@, now) == r,
    {
        let now = utc_now();
        let r = self.slash_dmy_at(input, now);
        assert(self.slash_dmy_result(input@, now) == r);
        r
    }

    /// [`Parse::slash_ymd_at`] with the clock read now.
    pub fn slash_ymd(&self, input: &str) -> (r: Attempt)
        ensures
            exists|now: UtcDateTime| now.clock_reading() && #[trigger] self.slash_ymd_result(input@, now) == r,
    {
        let now = utc_now();
        let r = self.slash_ymd_at(input, now);
        assert(self.slash_ymd_result(input@, now) == r);
        r
    }

    /// [`Parse::dot_dmy_or_ymd_at`] with the clock read now.
    pub fn dot_dmy_or_ymd(&self, input: &str) -> (r: Attempt)
        ensures
            exists|now: UtcDateTime| now.clock_reading() && #[trigger] self.dot_dmy_or_ymd_result(input@, now) == r,
    {
        let now = utc_now();
        let r = self.dot_dmy_or_ymd_at(input, now);
        assert(self.dot_dmy_or_ymd_result(input@, now) == r);
        r
    }

    /// [`Parse::chinese_ymd_at`] with the clock read now.
    pub fn chinese_ymd(&self, input: &str) -> (r: Attempt)
        ensures
            exists|now: UtcDateTime| now.clock_reading() && #[trigger] self.chinese_ymd_result(input@, now) == r,
    {
        let now = utc_now();
        let r = self.chinese_ymd_at(input, now);
        assert(self.chinese_ymd_result(input@, now) == r);
        r
    }

    /// [`Parse::ymd_family_at`] with the clock read now.
    pub fn ymd_family(&self, input: &str) -> (r: Attempt)
        ensures
            exists|now: UtcDateTime| now.clock_reading() && #[trigger] self.ymd_family_result(input@, now) == r,
    {
        let now = utc_now();
        let r = self.ymd_family_at(input, now);
        assert(self.ymd_family_result(input@, now) == r);
        r
    }

    /// [`Parse::hms_family_at`] with the clock read now.
    pub fn hms_family(&self, input: &str) -> (r: Attempt)
        ensures
            exists|now: UtcDateTime| now.clock_reading() && #[trigger] self.hms_family_result(input@, now) == r,
    {
        let now = utc_now();
        let r = self.hms_family_at(input, now);
        assert(self.hms_family_result(input@, now) == r);
        r
    }

    /// [`Parse::month_mdy_family_at`] with the clock read now.
    pub fn month_mdy_family(&self, input: &str) -> (r: Attempt)
        ensures
            exists|now: UtcDateTime| now.clock_reading() && #[trigger] self.month_mdy_family_result(input@, now) == r,
    {
        let now = utc_now();
        let r = self.month_mdy_family_at(input, now);
        assert(self.month_mdy_family_result(input@, now) == r);
        r
    }

    /// [`Parse::month_dmy_family_at`] with the clock read now.
    pub fn month_dmy_family(&self, input: &str) -> (r: Attempt)
        ensures
            exists|now: UtcDateTime| now.clock_reading() && #[trigger] self.month_dmy_family_result(input@, now) == r,
    {
        let now = utc_now();
        let r = self.month_dmy_family_at(input, now);
        assert(self.month_dmy_family_result(input@, now) == r);
        r
    }

    /// [`Parse::slash_dmy_family_at`] with the clock read now.
    pub fn slash_dmy_family(&self, input: &str) -> (r: Attempt)
        ensures
            exists|now: UtcDateTime| now.clock_reading() && #[trigger] self.slash_dmy_family_result(input@, now) == r,
    {
        let now = utc_now();
        let r = self.slash_dmy_family_at(input, now);
        assert(self.slash_dmy_family_result(input@, now) == r);
        r
    }

    /// [`Parse::slash_ymd_family_at`] with the clock read now.
    pub fn slash_ymd_family(&self, input: &str) -> (r: Attempt)
        ensures
            exists|now: UtcDateTime| now.clock_reading() && #[trigger] self.slash_ymd_family_result(input@, now) == r,
    {
        let now = utc_now();
        let r = self.slash_ymd_family_at(input, now);
        assert(self.slash_ymd_family_result(input@, now) == r);
        r
    }

    /// [`Parse::chinese_ymd_family_at`] with the clock read now.
    pub fn chinese_ymd_family(&self, input: &str) -> (r: Attempt)
        ensures
            exists|now: UtcDateTime| now.clock_reading() && #[trigger] self.chinese_ymd_family_result(input@, now) == r,
    {
        let now = utc_now();
        let r = self.chinese_ymd_family_at(input, now);
        assert(self.chinese_ymd_family_result(input@, now) == r);
        r
    }
}

} // verus!
