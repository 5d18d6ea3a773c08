//! What each reader gives in terms of what `chrono` reads from the text: which
//! formats it answers for, which reading wins, and the time of day that a
//! date without one takes.
use vstd::prelude::*;
use crate::calendar::{days_from_epoch, CalendarDate, LocalDateTime, TimeOfDay, UtcDateTime};
use crate::chrono_bridge::{
    instant_local, local_instant, naive_date_format, naive_datetime_format, naive_time_format,
    offset_format_instant, rfc3339_instant, shows, wall_clock_instant,
};
use crate::datetime::{
    date_at, dm_hms_text, dm_text, dmy_hms_text, dmy_text, first_in_zone, first_naive_date,
    first_naive_datetime, first_naive_time, first_with_offset, md_hms_text, md_text, mdy_hms_text,
    mdy_hms_z_text, mdy_text, slash_hms_text, with_day, zone_text, DateParseError, Parse,
    unix_timestamp_result,
};
use crate::timezone::zone_of;
use crate::pattern::{full_match, prefix_match};
use crate::shapes;

verus! {

/// Some format of `fmts` reads from `s` a wall-clock value that the zone
/// `east` shows at the instant `u`.
pub open spec fn some_format_reads(east: i32, s: Seq<char>, fmts: Seq<Seq<char>>, u: UtcDateTime) -> bool {
    exists|i: int|
        0 <= i < fmts.len() && #[trigger] wall_clock_instant(east, naive_datetime_format(s, fmts[i]))
            == Some(u)
}

/// Some format of `fmts` reads from `s` a wall-clock value that the zone
/// `east` can show.
pub open spec fn some_format_applies(east: i32, s: Seq<char>, fmts: Seq<Seq<char>>) -> bool {
    exists|i: int|
        0 <= i < fmts.len() && #[trigger] wall_clock_instant(east, naive_datetime_format(s, fmts[i])) is Some
}

proof fn lemma_first_complete(east: i32, s: Seq<char>, fmts: Seq<Seq<char>>, i: int)
    requires
        0 <= i < fmts.len(),
        wall_clock_instant(east, naive_datetime_format(s, fmts[i])) is Some,
    ensures
        first_in_zone(east, s, fmts) is Some,
    decreases fmts.len(),
{
    if i > 0 && wall_clock_instant(east, naive_datetime_format(s, fmts[0])) is None {
        assert(fmts.skip(1)[i - 1] == fmts[i]);
        lemma_first_complete(east, s, fmts.skip(1), i - 1);
    }
}

proof fn lemma_first_sound(east: i32, s: Seq<char>, fmts: Seq<Seq<char>>)
    ensures
        first_in_zone(east, s, fmts) matches Some(u) ==> some_format_reads(east, s, fmts, u),
    decreases fmts.len(),
{
    if fmts.len() > 0 {
        if wall_clock_instant(east, naive_datetime_format(s, fmts[0])) is Some {
            let u = first_in_zone(east, s, fmts)->0;
            assert(wall_clock_instant(east, naive_datetime_format(s, fmts[0])) == Some(u));
        } else {
            let rest = fmts.skip(1);
            lemma_first_sound(east, s, rest);
            if first_in_zone(east, s, fmts) is Some {
                let u = first_in_zone(east, s, fmts)->0;
                let i = choose|i: int|
                    0 <= i < rest.len() && #[trigger] wall_clock_instant(east, naive_datetime_format(s, rest[i]))
                        == Some(u);
                assert(rest[i] == fmts[i + 1]);
                assert(wall_clock_instant(east, naive_datetime_format(s, fmts[i + 1])) == Some(u));
            }
        }
    }
}

proof fn lemma_first_prefix(east: i32, s: Seq<char>, a: Seq<Seq<char>>, b: Seq<Seq<char>>, i: int)
    requires
        0 <= i < a.len(),
        wall_clock_instant(east, naive_datetime_format(s, a[i])) is Some,
    ensures
        first_in_zone(east, s, a + b) == first_in_zone(east, s, a),
    decreases a.len(),
{
    assert((a + b)[0] == a[0]);
    if wall_clock_instant(east, naive_datetime_format(s, a[0])) is None {
        assert((a + b).skip(1) =~= a.skip(1) + b);
        assert(a.skip(1)[i - 1] == a[i]);
        lemma_first_prefix(east, s, a.skip(1), b, i - 1);
    }
}

/// The list of formats that a reader tries answers for each of them and for
/// nothing else: the reader gives an instant exactly where one of them reads
/// a wall-clock value that the zone can show, and that instant is one that
/// some format of the list reads.
proof fn lemma_reader_exact(east: i32, s: Seq<char>, fmts: Seq<Seq<char>>)
    ensures
        first_in_zone(east, s, fmts) is Some <==> some_format_applies(east, s, fmts),
        first_in_zone(east, s, fmts) matches Some(u) ==> some_format_reads(east, s, fmts, u),
{
    lemma_first_sound(east, s, fmts);
    if some_format_applies(east, s, fmts) {
        let i = choose|i: int|
            0 <= i < fmts.len() && #[trigger] wall_clock_instant(east, naive_datetime_format(s, fmts[i])) is Some;
        lemma_first_complete(east, s, fmts, i);
    }
    if first_in_zone(east, s, fmts) is Some {
        let u = first_in_zone(east, s, fmts)->0;
        let i = choose|i: int|
            0 <= i < fmts.len() && #[trigger] wall_clock_instant(east, naive_datetime_format(s, fmts[i]))
                == Some(u);
        assert(wall_clock_instant(east, naive_datetime_format(s, fmts[i])) is Some);
    }
}

/// A text of the `yyyy-mm-dd hh:mm[:ss[.f]]` shape with an offset such as
/// `-08` or `+00:00`, which is no RFC 3339 text, is read by the first of the
/// postgres formats (`%Y-%m-%d %H:%M:%S%#z`, `%Y-%m-%d %H:%M:%S%.f%#z`,
/// `%Y-%m-%d %H:%M%#z`) that reads it: that instant is what the `yyyy-mm`
/// family gives, and what `parse` gives where neither the unix timestamp nor
/// the RFC 2822 reader applies. No reader of a zone name comes before it.
pub proof fn law_postgres_offsets_read_first(p: Parse, s: Seq<char>, now: UtcDateTime, u: UtcDateTime)
    requires
        prefix_match(shapes::ymd_start_shape(), s),
        full_match(shapes::postgres_shape(), s),
        rfc3339_instant(s) is None,
        first_with_offset(
            s,
            seq!["%Y-%m-%d %H:%M:%S%#z"@, "%Y-%m-%d %H:%M:%S%.f%#z"@, "%Y-%m-%d %H:%M%#z"@],
        ) == Some(u),
    ensures
        p.ymd_family_result(s, now) == Some(Ok::<UtcDateTime, crate::datetime::DateParseError>(u)),
        unix_timestamp_result(s) is None && crate::chrono_bridge::rfc2822_instant(s) is None ==> p.parse_result(
            s,
            now,
        ) == Ok::<UtcDateTime, crate::datetime::DateParseError>(u),
{
    assert(crate::datetime::postgres_formats() =~= seq![
        "%Y-%m-%d %H:%M:%S%#z"@,
        "%Y-%m-%d %H:%M:%S%.f%#z"@,
        "%Y-%m-%d %H:%M%#z"@,
    ]);
    assert(crate::datetime::postgres_timestamp_result(s) == Some(Ok::<UtcDateTime, DateParseError>(u)));
    assert(crate::datetime::rfc3339_result(s) is None);
}

/// The readers of a date and a time in the parser's zone answer for each of
/// the forms they list and for nothing else: where the shape fits, the
/// reader gives an instant exactly where one of the forms reads, from the
/// prepared text, a wall-clock value that the zone can show, and that instant
/// is what one of the forms reads.
pub proof fn law_date_time_readers_exact(p: Parse, s: Seq<char>)
    ensures
        ({
            let e = p.zone().east;
            let fs = seq![
                "%Y-%m-%d %H:%M:%S"@,
                "%Y-%m-%d %H:%M"@,
                "%Y-%m-%d %H:%M:%S%.f"@,
                "%Y-%m-%d %I:%M:%S %P"@,
                "%Y-%m-%d %I:%M %P"@,
            ];
            full_match(shapes::ymd_hms_shape(), s) ==> (p.ymd_hms_result(s) is Some <==> some_format_applies(e, s, fs))
                && (p.ymd_hms_result(s) matches Some(r) ==> r matches Ok(u) && some_format_reads(e, s, fs, u))
        }),
        ({
            let e = p.zone().east;
            let t = mdy_hms_text(s);
            let fs = seq![
                "%B %d %Y %H:%M:%S"@,
                "%B %d %Y %H:%M"@,
                "%B %d %Y %I:%M:%S %P"@,
                "%B %d %Y %I:%M %P"@,
            ];
            full_match(shapes::month_mdy_hms_shape(), s) ==> (p.month_mdy_hms_result(s) is Some
                <==> some_format_applies(e, t, fs)) && (p.month_mdy_hms_result(s) matches Some(r) ==> r matches Ok(u)
                && some_format_reads(e, t, fs, u))
        }),
        ({
            let e = p.zone().east;
            let t = dmy_hms_text(s);
            let fs = seq![
                "%d %B %Y %H:%M:%S"@,
                "%d %B %Y %H:%M"@,
                "%d %B %Y %H:%M:%S%.f"@,
                "%d %B %Y %I:%M:%S %P"@,
                "%d %B %Y %I:%M %P"@,
            ];
            full_match(shapes::month_dmy_hms_shape(), s) ==> (p.month_dmy_hms_result(s) is Some
                <==> some_format_applies(e, t, fs)) && (p.month_dmy_hms_result(s) matches Some(r) ==> r matches Ok(u)
                && some_format_reads(e, t, fs, u))
        }),
        ({
            let e = p.zone().east;
            let t = slash_hms_text(s);
            let fs = seq![
                "%d/%m/%y %H:%M:%S"@,
                "%d/%m/%y %H:%M"@,
                "%d/%m/%y %H:%M:%S%.f"@,
                "%d/%m/%y %I:%M:%S %P"@,
                "%d/%m/%y %I:%M %P"@,
                "%d/%m/%Y %H:%M:%S"@,
                "%d/%m/%Y %H:%M"@,
                "%d/%m/%Y %H:%M:%S%.f"@,
                "%d/%m/%Y %I:%M:%S %P"@,
                "%d/%m/%Y %I:%M %P"@,
            ];
            full_match(shapes::slash_dmy_hms_shape(), s) ==> (p.slash_dmy_hms_result(s) is Some
                <==> some_format_applies(e, t, fs)) && (p.slash_dmy_hms_result(s) matches Some(r) ==> r matches Ok(u)
                && some_format_reads(e, t, fs, u))
        }),
        ({
            let e = p.zone().east;
            let t = slash_hms_text(s);
            let fs = seq![
                "%Y/%m/%d %H:%M:%S"@,
                "%Y/%m/%d %H:%M"@,
                "%Y/%m/%d %H:%M:%S%.f"@,
                "%Y/%m/%d %I:%M:%S %P"@,
                "%Y/%m/%d %I:%M %P"@,
            ];
            full_match(shapes::slash_ymd_hms_shape(), s) ==> (p.slash_ymd_hms_result(s) is Some
                <==> some_format_applies(e, t, fs)) && (p.slash_ymd_hms_result(s) matches Some(r) ==> r matches Ok(u)
                && some_format_reads(e, t, fs, u))
        }),
        ({
            let e = p.zone().east;
            let fs = seq!["%y%m%d %H:%M:%S"@];
            crate::pattern::occurs_in(shapes::mysql_log_shape(), s) ==> (p.mysql_log_timestamp_result(s) is Some
                <==> some_format_applies(e, s, fs)) && (p.mysql_log_timestamp_result(s) matches Some(r) ==> r matches Ok(
                u,
            ) && some_format_reads(e, s, fs, u))
        }),
        ({
            let e = p.zone().east;
            let fs = seq!["%Y年%m月%d日%H时%M分%S秒"@];
            full_match(shapes::chinese_ymd_hms_shape(), s) ==> (p.chinese_ymd_hms_result(s) is Some
                <==> some_format_applies(e, s, fs)) && (p.chinese_ymd_hms_result(s) matches Some(r) ==> r matches Ok(u)
                && some_format_reads(e, s, fs, u))
        }),
{
    let e = p.zone().east;
    lemma_reader_exact(e, s, crate::datetime::ymd_hms_formats());
    lemma_reader_exact(e, mdy_hms_text(s), crate::datetime::month_mdy_hms_formats());
    lemma_reader_exact(e, dmy_hms_text(s), crate::datetime::month_dmy_hms_formats());
    lemma_reader_exact(e, slash_hms_text(s), crate::datetime::slash_dmy_hms_formats());
    lemma_reader_exact(e, slash_hms_text(s), crate::datetime::slash_ymd_hms_formats());
    let m = seq!["%y%m%d %H:%M:%S"@];
    lemma_reader_exact(e, s, m);
    assert(m[0] == "%y%m%d %H:%M:%S"@ && m.skip(1).len() == 0);
    let c = seq!["%Y年%m月%d日%H时%M分%S秒"@];
    lemma_reader_exact(e, s, c);
    assert(c[0] == "%Y年%m月%d日%H时%M分%S秒"@ && c.skip(1).len() == 0);
}

/// A `dd/mm/yy` date with a time whose year a two-digit-year form reads
/// (`%d/%m/%y` with `%H:%M:%S`, `%H:%M`, `%H:%M:%S%.f`, `%I:%M:%S %P` or
/// `%I:%M %P`) is read by such a form, never by a four-digit-year form that
/// would take `14` for the year 14.
pub proof fn law_two_digit_years_read_first(p: Parse, s: Seq<char>)
    ensures
        ({
            let e = p.zone().east;
            let t = slash_hms_text(s);
            let short = seq![
                "%d/%m/%y %H:%M:%S"@,
                "%d/%m/%y %H:%M"@,
                "%d/%m/%y %H:%M:%S%.f"@,
                "%d/%m/%y %I:%M:%S %P"@,
                "%d/%m/%y %I:%M %P"@,
            ];
            full_match(shapes::slash_dmy_hms_shape(), s) && some_format_applies(e, t, short) ==> (
            p.slash_dmy_hms_result(s) matches Some(r) && r matches Ok(u) && some_format_reads(e, t, short, u))
        }),
{
    let e = p.zone().east;
    let t = slash_hms_text(s);
    let short = seq![
        "%d/%m/%y %H:%M:%S"@,
        "%d/%m/%y %H:%M"@,
        "%d/%m/%y %H:%M:%S%.f"@,
        "%d/%m/%y %I:%M:%S %P"@,
        "%d/%m/%y %I:%M %P"@,
    ];
    let long = seq![
        "%d/%m/%Y %H:%M:%S"@,
        "%d/%m/%Y %H:%M"@,
        "%d/%m/%Y %H:%M:%S%.f"@,
        "%d/%m/%Y %I:%M:%S %P"@,
        "%d/%m/%Y %I:%M %P"@,
    ];
    if full_match(shapes::slash_dmy_hms_shape(), s) && some_format_applies(e, t, short) {
        let i = choose|i: int|
            0 <= i < short.len() && #[trigger] wall_clock_instant(e, naive_datetime_format(t, short[i])) is Some;
        assert(crate::datetime::slash_dmy_hms_formats() =~= short + long);
        lemma_first_prefix(e, t, short, long, i);
        lemma_reader_exact(e, t, short);
    }
}

proof fn lemma_same_seconds_same_time(a: LocalDateTime, b: LocalDateTime)
    requires
        a.time.hour < 24,
        a.time.minute < 60,
        a.time.second < 60,
        b.time.hour < 24,
        b.time.minute < 60,
        b.time.second < 60,
        a.epoch_seconds() == b.epoch_seconds(),
        a.time.nanosecond == b.time.nanosecond,
    ensures
        a.time == b.time,
{
    let da = days_from_epoch(a.date.year as int, a.date.month as int, a.date.day as int);
    let db = days_from_epoch(b.date.year as int, b.date.month as int, b.date.day as int);
    let (ha, ma, sa) = (a.time.hour as int, a.time.minute as int, a.time.second as int);
    let (hb, mb, sb) = (b.time.hour as int, b.time.minute as int, b.time.second as int);
    assert(da * 86400 + ha * 3600 + ma * 60 + sa == db * 86400 + hb * 3600 + mb * 60 + sb);
    assert(ha == hb && ma == mb && sa == sb) by (nonlinear_arith)
        requires
            da * 86400 + ha * 3600 + ma * 60 + sa == db * 86400 + hb * 3600 + mb * 60 + sb,
            0 <= ha < 24,
            0 <= ma < 60,
            0 <= sa < 60,
            0 <= hb < 24,
            0 <= mb < 60,
            0 <= sb < 60,
    ;
}

proof fn lemma_date_at_time_of_day(d: Option<CalendarDate>, t: TimeOfDay, east: i32)
    ensures
        date_at(d, t, east) matches Some(i) ==> (instant_local(east, i) matches Some(l) ==> l.time == t),
{
    if let Some(date) = d {
        let loc = LocalDateTime { date, time: t };
        if let Some(i) = local_instant(east, loc) {
            if let Some(l) = instant_local(east, i) {
                let secs = loc.epoch_seconds();
                assert(i.timestamp + east == secs);
                assert(shows(loc, secs, t.nanosecond));
                assert(shows(l, secs, i.nanosecond));
                lemma_same_seconds_same_time(l, loc);
            }
        }
    }
}

/// Where the attempt gives an instant, the wall clock of the zone `e` shows
/// at it, where it can show it, the parser's default time of day, or where
/// there is none, the time of day that this wall clock shows at `now`.
pub open spec fn shows_time_of_day(p: Parse, e: i32, now: UtcDateTime, a: Option<Result<UtcDateTime, crate::datetime::DateParseError>>) -> bool {
    a matches Some(Ok(i)) ==> match p.default_time_of_day() {
        Some(t) => instant_local(e, i) matches Some(l) ==> l.time == t,
        None => instant_local(e, now) matches Some(c) && (instant_local(e, i) matches Some(l) ==> l.time == c.time),
    }
}

/// The time of day that a date without one takes: where the parser has no
/// default time, the instant shows, on the parser's wall clock, the time of
/// day that this wall clock shows at `now`; where it has one, it shows that.
/// This holds of every reader of a date alone in the parser's zone, wherever
/// the wall clock can show the instant.
pub proof fn law_dates_take_the_wall_clock_time(p: Parse, s: Seq<char>, now: UtcDateTime)
    ensures
        shows_time_of_day(p, p.zone().east, now, p.ymd_result(s, now)),
        shows_time_of_day(p, p.zone().east, now, p.month_ymd_result(s, now)),
        shows_time_of_day(p, p.zone().east, now, p.month_mdy_result(s, now)),
        shows_time_of_day(p, p.zone().east, now, p.month_dmy_result(s, now)),
        shows_time_of_day(p, p.zone().east, now, p.month_dm_result(s, now)),
        shows_time_of_day(p, p.zone().east, now, p.slash_dmy_result(s, now)),
        shows_time_of_day(p, p.zone().east, now, p.slash_ymd_result(s, now)),
        shows_time_of_day(p, p.zone().east, now, p.dot_dmy_or_ymd_result(s, now)),
        shows_time_of_day(p, p.zone().east, now, p.chinese_ymd_result(s, now)),
        zone_text(shapes::ymd_z_shape(), s, 4) matches Some(zt) ==> zone_of(zt) matches Ok(z)
            ==> shows_time_of_day(p, z.east, now, p.ymd_z_result(s, now)),
{
    let e = p.zone().east;
    let t = match p.default_time_of_day() {
        Some(t) => t,
        None => instant_local(e, now)->0.time,
    };
    lemma_date_at_time_of_day(naive_date_format(s, "%Y-%m-%d"@), t, e);
    let dm = crate::datetime::first_naive_date(s, crate::datetime::month_ymd_formats());
    lemma_date_at_time_of_day(dm, t, e);
    lemma_date_at_time_of_day(
        crate::datetime::first_naive_date(crate::datetime::mdy_text(s), crate::datetime::month_mdy_formats()),
        t,
        e,
    );
    lemma_date_at_time_of_day(
        crate::datetime::first_naive_date(crate::datetime::dmy_text(s), crate::datetime::month_dmy_formats()),
        t,
        e,
    );
    if let Some(l) = instant_local(e, now) {
        lemma_date_at_time_of_day(
            naive_date_format(crate::datetime::dm_text(s, l.date.year), "%Y %d %B"@),
            t,
            e,
        );
    }
    lemma_date_at_time_of_day(crate::datetime::first_naive_date(s, crate::datetime::slash_dmy_formats()), t, e);
    lemma_date_at_time_of_day(naive_date_format(s, "%Y/%m/%d"@), t, e);
    let dd = crate::datetime::first_naive_date(s, crate::datetime::dot_formats());
    if dd is Some {
        lemma_date_at_time_of_day(dd, t, e);
    }
    if let Some(u) = instant_local(0, now) {
        lemma_date_at_time_of_day(
            naive_date_format(crate::datetime::with_day(s, u.date.day), "%Y.%m.%d"@),
            t,
            e,
        );
    }
    lemma_date_at_time_of_day(naive_date_format(s, "%Y年%m月%d日"@), t, e);
    if let Some(zt) = zone_text(shapes::ymd_z_shape(), s, 4) {
        if let Ok(z) = zone_of(zt) {
            let tz = match p.default_time_of_day() {
                Some(t) => t,
                None => instant_local(z.east, now)->0.time,
            };
            lemma_date_at_time_of_day(naive_date_format(s, "%Y-%m-%d %Z"@), tz, z.east);
        }
    }
}


/// Some format of `fmts` reads a date from `s`.
pub open spec fn some_date_read(s: Seq<char>, fmts: Seq<Seq<char>>) -> bool {
    exists|i: int| 0 <= i < fmts.len() && (#[trigger] naive_date_format(s, fmts[i])) is Some
}

/// Some format of `fmts` reads the date `d` from `s`.
pub open spec fn date_read_as(s: Seq<char>, fmts: Seq<Seq<char>>, d: CalendarDate) -> bool {
    exists|i: int| 0 <= i < fmts.len() && #[trigger] naive_date_format(s, fmts[i]) == Some(d)
}

/// Some format of `fmts` reads a time of day from `s`.
pub open spec fn some_time_read(s: Seq<char>, fmts: Seq<Seq<char>>) -> bool {
    exists|i: int| 0 <= i < fmts.len() && (#[trigger] naive_time_format(s, fmts[i])) is Some
}

/// Some format of `fmts` reads the time of day `t` from `s`.
pub open spec fn time_read_as(s: Seq<char>, fmts: Seq<Seq<char>>, t: TimeOfDay) -> bool {
    exists|i: int| 0 <= i < fmts.len() && #[trigger] naive_time_format(s, fmts[i]) == Some(t)
}

/// Some format of `fmts` reads a wall-clock date and time from `s`.
pub open spec fn some_datetime_read(s: Seq<char>, fmts: Seq<Seq<char>>) -> bool {
    exists|i: int| 0 <= i < fmts.len() && (#[trigger] naive_datetime_format(s, fmts[i])) is Some
}

/// Some format of `fmts` reads the wall-clock date and time `n` from `s`.
pub open spec fn datetime_read_as(s: Seq<char>, fmts: Seq<Seq<char>>, n: LocalDateTime) -> bool {
    exists|i: int| 0 <= i < fmts.len() && #[trigger] naive_datetime_format(s, fmts[i]) == Some(n)
}

/// Some format of `fmts` reads an instant, with its offset, from `s`.
pub open spec fn some_offset_read(s: Seq<char>, fmts: Seq<Seq<char>>) -> bool {
    exists|i: int| 0 <= i < fmts.len() && (#[trigger] offset_format_instant(s, fmts[i])) is Some
}

/// Some format of `fmts` reads the instant `u`, with its offset, from `s`.
pub open spec fn offset_read_as(s: Seq<char>, fmts: Seq<Seq<char>>, u: UtcDateTime) -> bool {
    exists|i: int| 0 <= i < fmts.len() && #[trigger] offset_format_instant(s, fmts[i]) == Some(u)
}

proof fn lemma_first_date_exact(s: Seq<char>, fmts: Seq<Seq<char>>)
    ensures
        first_naive_date(s, fmts) is Some <==> some_date_read(s, fmts),
        first_naive_date(s, fmts) matches Some(d) ==> date_read_as(s, fmts, d),
    decreases fmts.len(),
{
    if fmts.len() > 0 {
        let rest = fmts.skip(1);
        lemma_first_date_exact(s, rest);
        assert forall|i: int| 0 <= i < rest.len() implies #[trigger] naive_date_format(s, rest[i])
            == naive_date_format(s, fmts[i + 1]) by {
            assert(rest[i] == fmts[i + 1]);
        }
        if some_date_read(s, fmts) && naive_date_format(s, fmts[0]) is None {
            let i = choose|i: int| 0 <= i < fmts.len() && (#[trigger] naive_date_format(s, fmts[i])) is Some;
            assert(naive_date_format(s, rest[i - 1]) is Some);
        }
        if let Some(d) = first_naive_date(s, fmts) {
            if naive_date_format(s, fmts[0]) is None {
                let i = choose|i: int| 0 <= i < rest.len() && #[trigger] naive_date_format(s, rest[i]) == Some(d);
                assert(naive_date_format(s, fmts[i + 1]) == Some(d));
            }
        }
    }
}

proof fn lemma_first_time_exact(s: Seq<char>, fmts: Seq<Seq<char>>)
    ensures
        first_naive_time(s, fmts) is Some <==> some_time_read(s, fmts),
        first_naive_time(s, fmts) matches Some(t) ==> time_read_as(s, fmts, t),
    decreases fmts.len(),
{
    if fmts.len() > 0 {
        let rest = fmts.skip(1);
        lemma_first_time_exact(s, rest);
        assert forall|i: int| 0 <= i < rest.len() implies #[trigger] naive_time_format(s, rest[i])
            == naive_time_format(s, fmts[i + 1]) by {
            assert(rest[i] == fmts[i + 1]);
        }
        if some_time_read(s, fmts) && naive_time_format(s, fmts[0]) is None {
            let i = choose|i: int| 0 <= i < fmts.len() && (#[trigger] naive_time_format(s, fmts[i])) is Some;
            assert(naive_time_format(s, rest[i - 1]) is Some);
        }
        if let Some(t) = first_naive_time(s, fmts) {
            if naive_time_format(s, fmts[0]) is None {
                let i = choose|i: int| 0 <= i < rest.len() && #[trigger] naive_time_format(s, rest[i]) == Some(t);
                assert(naive_time_format(s, fmts[i + 1]) == Some(t));
            }
        }
    }
}

proof fn lemma_first_datetime_exact(s: Seq<char>, fmts: Seq<Seq<char>>)
    ensures
        first_naive_datetime(s, fmts) is Some <==> some_datetime_read(s, fmts),
        first_naive_datetime(s, fmts) matches Some(n) ==> datetime_read_as(s, fmts, n),
    decreases fmts.len(),
{
    if fmts.len() > 0 {
        let rest = fmts.skip(1);
        lemma_first_datetime_exact(s, rest);
        assert forall|i: int| 0 <= i < rest.len() implies #[trigger] naive_datetime_format(s, rest[i])
            == naive_datetime_format(s, fmts[i + 1]) by {
            assert(rest[i] == fmts[i + 1]);
        }
        if some_datetime_read(s, fmts) && naive_datetime_format(s, fmts[0]) is None {
            let i = choose|i: int| 0 <= i < fmts.len() && (#[trigger] naive_datetime_format(s, fmts[i])) is Some;
            assert(naive_datetime_format(s, rest[i - 1]) is Some);
        }
        if let Some(n) = first_naive_datetime(s, fmts) {
            if naive_datetime_format(s, fmts[0]) is None {
                let i = choose|i: int| 0 <= i < rest.len() && #[trigger] naive_datetime_format(s, rest[i]) == Some(n);
                assert(naive_datetime_format(s, fmts[i + 1]) == Some(n));
            }
        }
    }
}

proof fn lemma_first_offset_exact(s: Seq<char>, fmts: Seq<Seq<char>>)
    ensures
        first_with_offset(s, fmts) is Some <==> some_offset_read(s, fmts),
        first_with_offset(s, fmts) matches Some(u) ==> offset_read_as(s, fmts, u),
    decreases fmts.len(),
{
    if fmts.len() > 0 {
        let rest = fmts.skip(1);
        lemma_first_offset_exact(s, rest);
        assert forall|i: int| 0 <= i < rest.len() implies #[trigger] offset_format_instant(s, rest[i])
            == offset_format_instant(s, fmts[i + 1]) by {
            assert(rest[i] == fmts[i + 1]);
        }
        if some_offset_read(s, fmts) && offset_format_instant(s, fmts[0]) is None {
            let i = choose|i: int| 0 <= i < fmts.len() && (#[trigger] offset_format_instant(s, fmts[i])) is Some;
            assert(offset_format_instant(s, rest[i - 1]) is Some);
        }
        if let Some(u) = first_with_offset(s, fmts) {
            if offset_format_instant(s, fmts[0]) is None {
                let i = choose|i: int| 0 <= i < rest.len() && #[trigger] offset_format_instant(s, rest[i]) == Some(u);
                assert(offset_format_instant(s, fmts[i + 1]) == Some(u));
            }
        }
    }
}

/// The readers of a month name and a day with a time, in the current year
/// of the parser's wall clock, answer for each of the forms they list and for
/// nothing else, as `law_date_time_readers_exact` says of the others.
pub proof fn law_current_year_readers_exact(p: Parse, s: Seq<char>, now: UtcDateTime)
    ensures
        ({
            let e = p.zone().east;
            let fs = seq![
                "%Y %B %d %I:%M %P"@,
                "%Y %B %d %I:%M"@,
                "%Y %B %d %I:%M:%S"@,
                "%Y %B %d %I:%M:%S %P"@,
                "%Y %B %d %H:%M"@,
                "%Y %B %d %H:%M:%S"@,
                "%Y %B %d %H:%M %P"@,
                "%Y %B %d %H:%M:%S %P"@,
            ];
            instant_local(e, now) matches Some(c) ==> full_match(shapes::month_md_hms_shape(), s) ==> ({
                let t = md_hms_text(s, c.date.year);
                &&& p.month_md_hms_result(s, now) is Some <==> some_format_applies(e, t, fs)
                &&& p.month_md_hms_result(s, now) matches Some(r) ==> r matches Ok(u) && some_format_reads(e, t, fs, u)
            })
        }),
        ({
            let e = p.zone().east;
            let fs = seq![
                "%Y %d %B %I:%M %P"@,
                "%Y %d %B %I:%M"@,
                "%Y %d %B %I:%M:%S"@,
                "%Y %d %B %I:%M:%S %P"@,
                "%Y %d %B %H:%M"@,
                "%Y %d %B %H:%M:%S"@,
                "%Y %d %B %H:%M %P"@,
                "%Y %d %B %H:%M:%S %P"@,
            ];
            instant_local(e, now) matches Some(c) ==> full_match(shapes::month_dm_hms_shape(), s) ==> ({
                let t = dm_hms_text(s, c.date.year);
                &&& p.month_dm_hms_result(s, now) is Some <==> some_format_applies(e, t, fs)
                &&& p.month_dm_hms_result(s, now) matches Some(r) ==> r matches Ok(u) && some_format_reads(e, t, fs, u)
            })
        }),
{
    let e = p.zone().east;
    if let Some(c) = instant_local(e, now) {
        lemma_reader_exact(e, md_hms_text(s, c.date.year), crate::datetime::month_md_hms_formats());
        lemma_reader_exact(e, dm_hms_text(s, c.date.year), crate::datetime::month_dm_hms_formats());
    }
}

/// Every time of day that a format of `fmts` reads from `s`, on the date `d`,
/// the zone `east` can show.
pub open spec fn times_placeable(s: Seq<char>, fmts: Seq<Seq<char>>, d: CalendarDate, east: i32) -> bool {
    forall|i: int|
        0 <= i < fmts.len() ==> (#[trigger] naive_time_format(s, fmts[i]) matches Some(t) ==> local_instant(
            east,
            LocalDateTime { date: d, time: t },
        ) is Some)
}

/// A time of day alone is read on the date that the parser's wall clock
/// shows, by one of the forms `%H:%M:%S`, `%H:%M`, `%I:%M:%S %P`, `%I:%M %P`:
/// every instant it gives is one of these times on that date, and it gives
/// one wherever a form reads a time and the zone can show each time read.
pub proof fn law_time_reader_exact(p: Parse, s: Seq<char>, now: UtcDateTime)
    ensures
        ({
            let e = p.zone().east;
            let fs = seq!["%H:%M:%S"@, "%H:%M"@, "%I:%M:%S %P"@, "%I:%M %P"@];
            instant_local(e, now) matches Some(c) ==> full_match(shapes::hms_shape(), s) ==> ({
                &&& p.hms_result(s, now) matches Some(Ok(u)) ==> exists|t: TimeOfDay|
                    time_read_as(s, fs, t) && #[trigger] local_instant(e, LocalDateTime { date: c.date, time: t })
                        == Some(u)
                &&& some_time_read(s, fs) && times_placeable(s, fs, c.date, e) ==> (p.hms_result(s, now) matches Some(Ok(_)))
                &&& !some_time_read(s, fs) ==> p.hms_result(s, now) is None
            })
        }),
        ({
            let fs = seq!["%H:%M:%S %Z"@, "%H:%M %Z"@, "%I:%M:%S %P %Z"@, "%I:%M %P %Z"@];
            zone_text(shapes::hms_z_shape(), s, 5) matches Some(zt) ==> zone_of(zt) matches Ok(z) ==> instant_local(
                z.east,
                now,
            ) matches Some(c) ==> ({
                &&& p.hms_z_result(s, now) matches Some(Ok(u)) ==> exists|t: TimeOfDay|
                    time_read_as(s, fs, t) && #[trigger] local_instant(z.east, LocalDateTime { date: c.date, time: t })
                        == Some(u)
                &&& some_time_read(s, fs) && times_placeable(s, fs, c.date, z.east) ==> (p.hms_z_result(s, now) matches Some(Ok(_)))
                &&& !some_time_read(s, fs) ==> p.hms_z_result(s, now) is None
            })
        }),
{
    let e = p.zone().east;
    lemma_first_time_exact(s, crate::datetime::hms_z_formats());
    if let Some(zt) = zone_text(shapes::hms_z_shape(), s, 5) {
        if let Ok(z) = zone_of(zt) {
            if let Some(c) = instant_local(z.east, now) {
                let fs = crate::datetime::hms_z_formats();
                if let Some(t) = first_naive_time(s, fs) {
                    if times_placeable(s, fs, c.date, z.east) {
                        let i = choose|i: int| 0 <= i < fs.len() && #[trigger] naive_time_format(s, fs[i]) == Some(t);
                        assert(naive_time_format(s, fs[i]) matches Some(t2) ==> local_instant(
                            z.east,
                            LocalDateTime { date: c.date, time: t2 },
                        ) is Some);
                    }
                }
            }
        }
    }
    lemma_first_time_exact(s, crate::datetime::hms_formats());
    if let Some(c) = instant_local(e, now) {
        if let Some(t) = first_naive_time(s, crate::datetime::hms_formats()) {
            let fs = crate::datetime::hms_formats();
            assert(local_instant(e, LocalDateTime { date: c.date, time: t }) == local_instant(
                e,
                LocalDateTime { date: c.date, time: t },
            ));
            if times_placeable(s, fs, c.date, e) {
                let i = choose|i: int| 0 <= i < fs.len() && #[trigger] naive_time_format(s, fs[i]) == Some(t);
                assert(naive_time_format(s, fs[i]) matches Some(t2) ==> local_instant(
                    e,
                    LocalDateTime { date: c.date, time: t2 },
                ) is Some);
            }
        }
    }
}

/// Every wall-clock value that a format of `fmts` reads from `s` the zone
/// `east` can show.
pub open spec fn datetimes_placeable(s: Seq<char>, fmts: Seq<Seq<char>>, east: i32) -> bool {
    forall|i: int|
        0 <= i < fmts.len() ==> (#[trigger] naive_datetime_format(s, fmts[i]) matches Some(n) ==> local_instant(
            east,
            n,
        ) is Some)
}

/// A date and time that gives its own zone is read in that zone by one of
/// the forms the reader lists: every instant it gives is one that a form
/// reads, placed in the zone the text names, and it gives one wherever a form
/// reads a value and the zone can show each value read.
pub proof fn law_own_zone_readers_exact(p: Parse, s: Seq<char>)
    ensures
        ({
            let fs = seq!["%Y-%m-%d %H:%M:%S %Z"@, "%Y-%m-%d %H:%M %Z"@, "%Y-%m-%d %H:%M:%S%.f %Z"@];
            zone_text(shapes::ymd_hms_z_shape(), s, 10) matches Some(zt) ==> zone_of(zt) matches Ok(z) ==> ({
                &&& p.ymd_hms_z_result(s) matches Some(Ok(u)) ==> exists|n: LocalDateTime|
                    datetime_read_as(s, fs, n) && #[trigger] local_instant(z.east, n) == Some(u)
                &&& some_datetime_read(s, fs) && datetimes_placeable(s, fs, z.east) ==> (p.ymd_hms_z_result(s) matches Some(Ok(_)))
                &&& !some_datetime_read(s, fs) ==> p.ymd_hms_z_result(s) is None
            })
        }),
        ({
            let fs = seq![
                "%B %d %Y %H:%M:%S %Z"@,
                "%B %d %Y %H:%M %Z"@,
                "%B %d %Y %I:%M:%S %P %Z"@,
                "%B %d %Y %I:%M %P %Z"@,
            ];
            let t = mdy_hms_z_text(s);
            zone_text(shapes::month_mdy_hms_z_shape(), s, 18) matches Some(zt) ==> zone_of(zt) matches Ok(z) ==> ({
                &&& p.month_mdy_hms_z_result(s) matches Some(Ok(u)) ==> exists|n: LocalDateTime|
                    datetime_read_as(t, fs, n) && #[trigger] local_instant(z.east, n) == Some(u)
                &&& some_datetime_read(t, fs) && datetimes_placeable(t, fs, z.east) ==> (p.month_mdy_hms_z_result(s) matches Some(Ok(_)))
                &&& !some_datetime_read(t, fs) ==> p.month_mdy_hms_z_result(s) is None
            })
        }),
{
    let f1 = crate::datetime::ymd_hms_z_formats();
    let f2 = crate::datetime::month_mdy_hms_z_formats();
    let t = mdy_hms_z_text(s);
    lemma_first_datetime_exact(s, f1);
    lemma_first_datetime_exact(t, f2);
    if let Some(n) = first_naive_datetime(s, f1) {
        let i = choose|i: int| 0 <= i < f1.len() && #[trigger] naive_datetime_format(s, f1[i]) == Some(n);
        assert(naive_datetime_format(s, f1[i]) matches Some(m) ==> m == n);
    }
    if let Some(n) = first_naive_datetime(t, f2) {
        let i = choose|i: int| 0 <= i < f2.len() && #[trigger] naive_datetime_format(t, f2[i]) == Some(n);
        assert(naive_datetime_format(t, f2[i]) matches Some(m) ==> m == n);
    }
}

/// A postgres timestamp is read by one of `%Y-%m-%d %H:%M:%S%#z`,
/// `%Y-%m-%d %H:%M:%S%.f%#z` and `%Y-%m-%d %H:%M%#z`, with the offset that it
/// gives: where its shape fits, the reader gives an instant exactly where one
/// of them reads one, and that instant is what one of them reads.
pub proof fn law_postgres_reader_exact(s: Seq<char>)
    ensures
        ({
            let fs = seq!["%Y-%m-%d %H:%M:%S%#z"@, "%Y-%m-%d %H:%M:%S%.f%#z"@, "%Y-%m-%d %H:%M%#z"@];
            full_match(shapes::postgres_shape(), s) ==> ({
                &&& crate::datetime::postgres_timestamp_result(s) is Some <==> some_offset_read(s, fs)
                &&& crate::datetime::postgres_timestamp_result(s) matches Some(r) ==> r matches Ok(u)
                    && offset_read_as(s, fs, u)
            })
        }),
{
    lemma_first_offset_exact(s, crate::datetime::postgres_formats());
}

/// The time of day that a date without one takes in the zone `east`: the
/// parser's default time where it has one, and else the time of day that the
/// wall clock of that zone shows at `now`, where it can show `now`.
pub open spec fn time_for(p: Parse, east: i32, now: UtcDateTime) -> Option<TimeOfDay> {
    match p.default_time_of_day() {
        Some(t) => Some(t),
        None => match instant_local(east, now) {
            Some(c) => Some(c.time),
            None => None,
        },
    }
}

/// The answer for the date `d` at the time `t` in the zone `east`: that
/// instant, or nothing where the zone cannot show it.
pub open spec fn placed(east: i32, d: CalendarDate, t: TimeOfDay) -> Option<Result<UtcDateTime, DateParseError>> {
    match local_instant(east, LocalDateTime { date: d, time: t }) {
        Some(i) => Some(Ok(i)),
        None => None,
    }
}

/// The answer for a date text that the form `short`, or else the form
/// `long`, reads: the date of the first that reads one, at `t` in the zone
/// `east`.
pub open spec fn short_then_long(east: i32, s: Seq<char>, short: Seq<char>, long: Seq<char>, t: TimeOfDay) -> Option<
    Result<UtcDateTime, DateParseError>,
> {
    match naive_date_format(s, short) {
        Some(d) => placed(east, d, t),
        None => match naive_date_format(s, long) {
            Some(d) => placed(east, d, t),
            None => None,
        },
    }
}

/// The readers of a date alone: where the shape fits and a time of day is
/// to be had, the answer is the date that the first of the reader's forms
/// reads (a two-digit-year form before the four-digit one: `%B %d %y` before
/// `%B %d %Y`, `%d %B %y` before `%d %B %Y`, `%d/%m/%y` before `%d/%m/%Y`;
/// `%Y-%m-%d` before `%Y-%B-%d`; a single form for `yyyy-mm-dd`,
/// `yyyy/mm/dd` and Chinese dates), at that time in the parser's zone; where
/// no time can be had, the clock cannot be shown.
pub proof fn law_date_readers(p: Parse, s: Seq<char>, now: UtcDateTime)
    ensures
        ({
            let e = p.zone().east;
            full_match(shapes::month_mdy_shape(), s) ==> p.month_mdy_result(s, now) == match time_for(p, e, now) {
                Some(t) => short_then_long(e, mdy_text(s), "%B %d %y"@, "%B %d %Y"@, t),
                None => Some(Err(DateParseError::ClockOutOfRange)),
            }
        }),
        ({
            let e = p.zone().east;
            full_match(shapes::month_dmy_shape(), s) ==> p.month_dmy_result(s, now) == match time_for(p, e, now) {
                Some(t) => short_then_long(e, dmy_text(s), "%d %B %y"@, "%d %B %Y"@, t),
                None => Some(Err(DateParseError::ClockOutOfRange)),
            }
        }),
        ({
            let e = p.zone().east;
            full_match(shapes::slash_dmy_shape(), s) ==> p.slash_dmy_result(s, now) == match time_for(p, e, now) {
                Some(t) => short_then_long(e, s, "%d/%m/%y"@, "%d/%m/%Y"@, t),
                None => Some(Err(DateParseError::ClockOutOfRange)),
            }
        }),
        ({
            let e = p.zone().east;
            full_match(shapes::month_ymd_shape(), s) ==> p.month_ymd_result(s, now) == match time_for(p, e, now) {
                Some(t) => short_then_long(e, s, "%Y-%m-%d"@, "%Y-%B-%d"@, t),
                None => Some(Err(DateParseError::ClockOutOfRange)),
            }
        }),
        ({
            let e = p.zone().east;
            full_match(shapes::ymd_shape(), s) ==> p.ymd_result(s, now) == match time_for(p, e, now) {
                Some(t) => match naive_date_format(s, "%Y-%m-%d"@) {
                    Some(d) => placed(e, d, t),
                    None => None,
                },
                None => Some(Err(DateParseError::ClockOutOfRange)),
            }
        }),
        ({
            zone_text(shapes::ymd_z_shape(), s, 4) matches Some(zt) ==> zone_of(zt) matches Ok(z) ==> p.ymd_z_result(
                s,
                now,
            ) == match time_for(p, z.east, now) {
                Some(t) => match naive_date_format(s, "%Y-%m-%d %Z"@) {
                    Some(d) => placed(z.east, d, t),
                    None => None,
                },
                None => Some(Err(DateParseError::ClockOutOfRange)),
            }
        }),
        ({
            let e = p.zone().east;
            full_match(shapes::slash_ymd_shape(), s) ==> p.slash_ymd_result(s, now) == match time_for(p, e, now) {
                Some(t) => match naive_date_format(s, "%Y/%m/%d"@) {
                    Some(d) => placed(e, d, t),
                    None => None,
                },
                None => Some(Err(DateParseError::ClockOutOfRange)),
            }
        }),
        ({
            let e = p.zone().east;
            full_match(shapes::chinese_ymd_shape(), s) ==> p.chinese_ymd_result(s, now) == match time_for(p, e, now) {
                Some(t) => match naive_date_format(s, "%Y年%m月%d日"@) {
                    Some(d) => placed(e, d, t),
                    None => None,
                },
                None => Some(Err(DateParseError::ClockOutOfRange)),
            }
        }),
{
    reveal_with_fuel(first_naive_date, 3);
    let (a, b, c) = (
        crate::datetime::month_mdy_formats(),
        crate::datetime::month_dmy_formats(),
        crate::datetime::slash_dmy_formats(),
    );
    assert(a.skip(1)[0] == a[1] && a.skip(1).skip(1).len() == 0);
    assert(b.skip(1)[0] == b[1] && b.skip(1).skip(1).len() == 0);
    assert(c.skip(1)[0] == c[1] && c.skip(1).skip(1).len() == 0);
    let d = crate::datetime::month_ymd_formats();
    assert(d.skip(1)[0] == d[1] && d.skip(1).skip(1).len() == 0);
}

/// A date with a month name and a day but no year takes the year that the
/// parser's wall clock shows at `now` (`%Y %B %d` or `%Y %d %B` on the text
/// with that year in front), at the time of day to take.
pub proof fn law_current_year_dates(p: Parse, s: Seq<char>, now: UtcDateTime)
    ensures
        ({
            let e = p.zone().east;
            time_for(p, e, now) matches Some(t) ==> instant_local(e, now) matches Some(c) ==> full_match(
                shapes::month_md_shape(),
                s,
            ) ==> p.month_md_result(s, now) == match naive_date_format(md_text(s, c.date.year), "%Y %B %d"@) {
                Some(d) => placed(e, d, t),
                None => None,
            }
        }),
        ({
            let e = p.zone().east;
            time_for(p, e, now) matches Some(t) ==> instant_local(e, now) matches Some(c) ==> full_match(
                shapes::month_dm_shape(),
                s,
            ) ==> p.month_dm_result(s, now) == match naive_date_format(dm_text(s, c.date.year), "%Y %d %B"@) {
                Some(d) => placed(e, d, t),
                None => None,
            }
        }),
{
}

/// A dotted date is read by the first of `%d.%m.%y`, `%d.%m.%Y` and
/// `%Y.%m.%d` that reads it, at the time of day to take in the parser's zone;
/// a year and a month alone take the day of the month that the clock shows in
/// UTC.
pub proof fn law_dotted_dates(p: Parse, s: Seq<char>, now: UtcDateTime)
    ensures
        ({
            let e = p.zone().east;
            time_for(p, e, now) matches Some(t) ==> crate::pattern::occurs_in(shapes::dot_date_shape(), s) ==> p.dot_dmy_or_ymd_result(
                s,
                now,
            ) == match short_then_long(e, s, "%d.%m.%y"@, "%d.%m.%Y"@, t) {
                Some(r) => Some(r),
                None => if naive_date_format(s, "%d.%m.%y"@) is Some || naive_date_format(s, "%d.%m.%Y"@) is Some {
                    None
                } else {
                    match naive_date_format(s, "%Y.%m.%d"@) {
                        Some(d) => placed(e, d, t),
                        None => match instant_local(0, now) {
                            None => Some(Err(DateParseError::ClockOutOfRange)),
                            Some(u) => match naive_date_format(with_day(s, u.date.day), "%Y.%m.%d"@) {
                                Some(d) => placed(e, d, t),
                                None => None,
                            },
                        },
                    }
                },
            }
        }),
{
    reveal_with_fuel(first_naive_date, 4);
    let f = crate::datetime::dot_formats();
    assert(f.skip(1)[0] == f[1] && f.skip(1).skip(1)[0] == f[2] && f.skip(1).skip(1).skip(1).len() == 0);
}

} // verus!
