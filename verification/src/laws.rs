//! What holds of the parser across inputs, clocks and parsers.
use vstd::prelude::*;
use crate::calendar::{CalendarDate, LocalDateTime, TimeOfDay, UtcDateTime};
use crate::chrono_bridge::{naive_date_format, naive_datetime_format, offset_ok};
use crate::datetime::{
    Attempt, DateParseError, Parse, dmy_hms_text, dmy_text, first_in_zone, first_naive_date,
    month_dmy_formats, month_mdy_formats, month_ymd_formats, mdy_text, slash_dmy_formats, month_dmy_hms_formats,
    month_mdy_hms_formats, mdy_hms_text, ok_instant, rfc2822_result, slash_dmy_hms_formats,
    slash_hms_text, slash_ymd_hms_formats, unix_timestamp_result, ymd_hms_formats,
};
use crate::text::{all_digits, decimal_value, is_ordinal_suffix, without_ordinal_suffixes};
use crate::pattern::{PieceSpec, chain, fits, is_digit, is_letter, is_white_space, search};
use crate::timezone::{ascii_lower, letters_len, lower_char, signed_offset, skip_separators, zone_of};
use crate::text::digit_value;

verus! {

/// A unix timestamp is read exactly from a text of ten, thirteen or nineteen
/// digits whose value fits in an `i64`: as seconds, milliseconds or
/// nanoseconds since the epoch.
pub proof fn law_unix_timestamp_units(s: Seq<char>)
    ensures
        unix_timestamp_result(s) is Some <==> ((s.len() == 10 || s.len() == 13 || s.len() == 19)
            && all_digits(s) && decimal_value(s) <= i64::MAX),
        unix_timestamp_result(s) matches Some(r) ==> r matches Ok(u) && u.nanosecond < 1_000_000_000
            && (s.len() == 10 ==> u.timestamp == decimal_value(s) && u.nanosecond == 0)
            && (s.len() == 13 ==> u.timestamp * 1000 + u.nanosecond / 1_000_000 == decimal_value(s)
                && u.nanosecond % 1_000_000 == 0)
            && (s.len() == 19 ==> u.timestamp * 1_000_000_000 + u.nanosecond == decimal_value(s)),
{
    crate::datetime::lemma_unix_timestamp_shape(s);
    if all_digits(s) {
        crate::text::lemma_decimal_value_nonneg(s);
    }
    let v = decimal_value(s);
    if unix_timestamp_result(s) is Some && s.len() == 13 {
        assert((v % 1000) * 1_000_000 / 1_000_000 == v % 1000) by (nonlinear_arith)
            requires
                v >= 0,
        ;
        assert(((v % 1000) * 1_000_000) % 1_000_000 == 0) by (nonlinear_arith)
            requires
                v >= 0,
        ;
    }
}

/// With a default time of day, the formats that give only a date do not
/// depend on the clock.
pub proof fn law_default_time_frees_dates_from_clock(
    p: Parse,
    s: Seq<char>,
    now1: UtcDateTime,
    now2: UtcDateTime,
)
    requires
        p.default_time_of_day() is Some,
    ensures
        p.ymd_result(s, now1) == p.ymd_result(s, now2),
        p.ymd_z_result(s, now1) == p.ymd_z_result(s, now2),
        p.month_ymd_result(s, now1) == p.month_ymd_result(s, now2),
        p.month_mdy_result(s, now1) == p.month_mdy_result(s, now2),
        p.month_dmy_result(s, now1) == p.month_dmy_result(s, now2),
        p.slash_dmy_result(s, now1) == p.slash_dmy_result(s, now2),
        p.slash_ymd_result(s, now1) == p.slash_ymd_result(s, now2),
        p.chinese_ymd_result(s, now1) == p.chinese_ymd_result(s, now2),
{
}

/// A text that gives its own zone is read the same by every parser, whatever
/// zone the parser reads other texts in; where a date without a time takes
/// the default time, the parsers must agree on it.
pub proof fn law_own_zone_ignores_parser_zone(p: Parse, q: Parse, s: Seq<char>, now: UtcDateTime)
    ensures
        p.ymd_hms_z_result(s) == q.ymd_hms_z_result(s),
        p.month_mdy_hms_z_result(s) == q.month_mdy_hms_z_result(s),
        p.hms_z_result(s, now) == q.hms_z_result(s, now),
        p.default_time_of_day() == q.default_time_of_day() ==> p.ymd_z_result(s, now)
            == q.ymd_z_result(s, now),
{
}

/// Where no digit is directly followed by an ordinal suffix, taking the
/// suffixes out leaves the text as it is: `August` keeps its `st`.
pub proof fn law_suffixes_only_after_digits(s: Seq<char>)
    requires
        forall|i: int|
            0 <= i && i + 2 < s.len() ==> !(is_digit(#[trigger] s[i]) && is_ordinal_suffix(
                s[i + 1],
                s[i + 2],
            )),
    ensures
        without_ordinal_suffixes(s) == s,
    decreases s.len(),
{
    if s.len() >= 3 {
        let t = s.skip(1);
        assert forall|i: int| 0 <= i && i + 2 < t.len() implies !(is_digit(#[trigger] t[i])
            && is_ordinal_suffix(t[i + 1], t[i + 2])) by {
            assert(t[i] == s[i + 1]);
            assert(t[i + 1] == s[i + 2]);
            assert(t[i + 2] == s[i + 3]);
        }
        law_suffixes_only_after_digits(t);
        assert(s =~= seq![s[0]] + t);
    }
}

/// Taking the ordinal suffixes out never makes a text longer, and takes out
/// two characters for each suffix it drops.
pub proof fn law_suffixes_shorten(s: Seq<char>)
    ensures
        without_ordinal_suffixes(s).len() <= s.len(),
        (s.len() - without_ordinal_suffixes(s).len()) % 2 == 0,
    decreases s.len(),
{
    if s.len() >= 3 {
        if is_digit(s[0]) && is_ordinal_suffix(s[1], s[2]) {
            law_suffixes_shorten(s.skip(3));
        } else {
            law_suffixes_shorten(s.skip(1));
        }
    }
}


/// The attempt is not the error that says no format applies.
pub open spec fn not_no_match(a: Attempt) -> bool {
    a != Some(Err::<UtcDateTime, DateParseError>(DateParseError::NoMatchingFormat))
}

proof fn lemma_formats_never_say_no_match(p: Parse, s: Seq<char>, now: UtcDateTime)
    ensures
        not_no_match(p.ymd_family_result(s, now)),
        not_no_match(p.hms_family_result(s, now)),
        not_no_match(p.month_ymd_result(s, now)),
        not_no_match(p.month_mdy_family_result(s, now)),
        not_no_match(p.month_dmy_family_result(s, now)),
        not_no_match(p.slash_dmy_family_result(s, now)),
        not_no_match(p.slash_ymd_family_result(s, now)),
        not_no_match(p.dot_dmy_or_ymd_result(s, now)),
        not_no_match(p.mysql_log_timestamp_result(s)),
        not_no_match(p.chinese_ymd_family_result(s, now)),
        not_no_match(unix_timestamp_result(s)),
        not_no_match(rfc2822_result(s)),
{
}

/// `parse` answers that no format fits exactly where none of the accepted
/// formats applies; a format that applies but cannot read the text gives its
/// own reason.
pub proof fn law_no_match_only_when_nothing_applies(p: Parse, s: Seq<char>, now: UtcDateTime)
    ensures
        p.parse_result(s, now) == Err::<UtcDateTime, DateParseError>(DateParseError::NoMatchingFormat)
            <==> p.first_format_result(s, now) is None,
{
    lemma_formats_never_say_no_match(p, s, now);
}


proof fn lemma_lower_char(c: char)
    ensures
        is_digit(lower_char(c)) == is_digit(c),
        is_letter(lower_char(c)) == is_letter(c),
        is_white_space(lower_char(c)) == is_white_space(c),
        lower_char(lower_char(c)) == lower_char(c),
        !is_letter(c) ==> lower_char(c) == c,
        (lower_char(c) == ':') == (c == ':'),
        (lower_char(c) == '+') == (c == '+'),
        (lower_char(c) == '-') == (c == '-'),
        is_digit(c) ==> digit_value(lower_char(c)) == digit_value(c),
{
    let u = c as u32;
    if 65 <= u && u <= 90 {
        let l = (u + 32) as char;
        assert(l as u32 == u + 32);
    }
}

proof fn lemma_lower_index(s: Seq<char>, i: int)
    requires
        0 <= i < s.len(),
    ensures
        ascii_lower(s).len() == s.len(),
        ascii_lower(s)[i] == lower_char(s[i]),
{
}

proof fn lemma_lower_skip(s: Seq<char>, n: int)
    requires
        0 <= n <= s.len(),
    ensures
        ascii_lower(s).skip(n) == ascii_lower(s.skip(n)),
        ascii_lower(s).take(n) == ascii_lower(s.take(n)),
{
    assert(ascii_lower(s).skip(n) =~= ascii_lower(s.skip(n)));
    assert(ascii_lower(s).take(n) =~= ascii_lower(s.take(n)));
}

proof fn lemma_lower_idempotent(s: Seq<char>)
    ensures
        ascii_lower(ascii_lower(s)) == ascii_lower(s),
{
    assert forall|i: int| 0 <= i < s.len() implies #[trigger] ascii_lower(ascii_lower(s))[i]
        == ascii_lower(s)[i] by {
        lemma_lower_char(s[i]);
    }
    assert(ascii_lower(ascii_lower(s)) =~= ascii_lower(s));
}

proof fn lemma_lower_skip_separators(s: Seq<char>)
    ensures
        skip_separators(ascii_lower(s)) == ascii_lower(skip_separators(s)),
    decreases s.len(),
{
    if s.len() > 0 {
        lemma_lower_char(s[0]);
        lemma_lower_skip(s, 1);
        lemma_lower_skip_separators(s.skip(1));
    }
}

proof fn lemma_lower_signed_offset(s: Seq<char>, separators: bool)
    ensures
        signed_offset(ascii_lower(s), separators) == signed_offset(s, separators),
{
    let l = ascii_lower(s);
    if s.len() > 0 {
        lemma_lower_char(s[0]);
    }
    if s.len() >= 3 {
        lemma_lower_char(s[1]);
        lemma_lower_char(s[2]);
        lemma_lower_skip(s, 3);
        lemma_lower_skip_separators(s.skip(3));
        let rest = if separators {
            skip_separators(s.skip(3))
        } else {
            s.skip(3)
        };
        if rest.len() >= 2 {
            lemma_lower_char(rest[0]);
            lemma_lower_char(rest[1]);
        }
    }
}

proof fn lemma_lower_letters_len(s: Seq<char>)
    ensures
        letters_len(ascii_lower(s)) == letters_len(s),
    decreases s.len(),
{
    if s.len() > 0 {
        lemma_lower_char(s[0]);
        lemma_lower_skip(s, 1);
        lemma_lower_letters_len(s.skip(1));
    }
}

/// Zone names are read without regard to case, and every zone that is read
/// lies less than a day from UTC.
pub proof fn law_zone_names_ignore_case(s: Seq<char>)
    ensures
        zone_of(ascii_lower(s)) == zone_of(s),
        zone_of(s) matches Ok(z) ==> z.valid(),
{
    let l = ascii_lower(s);
    assert(l.contains(':') == s.contains(':')) by {
        if s.contains(':') {
            let i = choose|i: int| 0 <= i < s.len() && s[i] == ':';
            lemma_lower_char(s[i]);
            assert(l[i] == ':');
        }
        if l.contains(':') {
            let i = choose|i: int| 0 <= i < l.len() && l[i] == ':';
            lemma_lower_char(s[i]);
            assert(s[i] == ':');
        }
    }
    lemma_lower_signed_offset(s, true);
    lemma_lower_signed_offset(s, false);
    lemma_lower_letters_len(s);
    let n = letters_len(s);
    if n > 0 {
        assert(n <= s.len()) by {
            lemma_letters_len_bound(s);
        }
        lemma_lower_skip(s, n as int);
        lemma_lower_idempotent(s.take(n as int));
    }
}

proof fn lemma_letters_len_bound(s: Seq<char>)
    ensures
        letters_len(s) <= s.len(),
    decreases s.len(),
{
    if s.len() > 0 {
        lemma_letters_len_bound(s.skip(1));
    }
}


/// A shape matches `s` from `i` exactly where its pieces can match one after
/// another from there (up to the end of `s` where `to_end`), and the ends that
/// the matcher gives show how they do.
pub proof fn law_matcher_right_and_complete(ps: Seq<PieceSpec>, s: Seq<char>, i: int, to_end: bool)
    requires
        0 <= i <= s.len(),
    ensures
        search(ps, s, 0, i, to_end) is Some <==> fits(ps, s, 0, i, to_end),
        search(ps, s, 0, i, to_end) matches Some(r) ==> chain(ps, s, 0, i, r, to_end),
{
    crate::pattern::lemma_search_sound(ps, s, 0, i, to_end);
    if fits(ps, s, 0, i, to_end) {
        let ends = choose|ends: Seq<int>| #[trigger] chain(ps, s, 0, i, ends, to_end);
        crate::pattern::lemma_search_complete(ps, s, 0, i, ends, to_end);
    }
}

/// Two readings of one text: neither gives an instant, or both do, the second
/// `d` seconds after the first, with the same nanoseconds.
pub open spec fn shifted(a: Attempt, b: Attempt, d: int) -> bool {
    match (a, b) {
        (None, None) => true,
        (Some(Ok(u)), Some(Ok(v))) => v.timestamp == u.timestamp + d && v.nanosecond == u.nanosecond,
        _ => false,
    }
}

/// Every wall-clock value that one of `fmts` reads from `s` lies at least a
/// day inside the range of instants that `chrono` can show.
pub open spec fn readings_inside(s: Seq<char>, fmts: Seq<Seq<char>>) -> bool {
    forall|i: int|
        0 <= i < fmts.len() ==> (#[trigger] naive_datetime_format(s, fmts[i]) matches Some(n)
            ==> n.a_day_inside())
}

proof fn lemma_first_in_zone_shift(pe: i32, qe: i32, s: Seq<char>, fmts: Seq<Seq<char>>)
    requires
        offset_ok(pe as int),
        offset_ok(qe as int),
        readings_inside(s, fmts),
    ensures
        shifted(ok_instant(first_in_zone(pe, s, fmts)), ok_instant(first_in_zone(qe, s, fmts)), pe - qe),
    decreases fmts.len(),
{
    if fmts.len() > 0 {
        let rest = fmts.skip(1);
        assert forall|i: int| 0 <= i < rest.len() implies (#[trigger] naive_datetime_format(s, rest[i])
            matches Some(n) ==> n.a_day_inside()) by {
            assert(rest[i] == fmts[i + 1]);
            assert(naive_datetime_format(s, fmts[i + 1]) matches Some(n) ==> n.a_day_inside());
        }
        assert(naive_datetime_format(s, fmts[0]) matches Some(n) ==> n.a_day_inside());
        lemma_first_in_zone_shift(pe, qe, s, rest);
    }
}

/// Moving the parser's zone moves the instant of a text that gives a date and
/// a wall-clock time without a zone: read in a zone `d` seconds further east,
/// it is `d` seconds earlier, with the same nanoseconds, and a text that one
/// parser cannot read the other cannot read either. This holds wherever every
/// value that the formats read from the text lies at least a day inside the
/// range of instants that `chrono` can show.
pub proof fn law_parser_zone_shifts_wall_clock_texts(p: Parse, q: Parse, s: Seq<char>)
    requires
        p.zone().valid(),
        q.zone().valid(),
    ensures
        readings_inside(s, ymd_hms_formats()) ==> shifted(
            p.ymd_hms_result(s),
            q.ymd_hms_result(s),
            p.zone().east - q.zone().east,
        ),
        readings_inside(mdy_hms_text(s), month_mdy_hms_formats()) ==> shifted(
            p.month_mdy_hms_result(s),
            q.month_mdy_hms_result(s),
            p.zone().east - q.zone().east,
        ),
        readings_inside(dmy_hms_text(s), month_dmy_hms_formats()) ==> shifted(
            p.month_dmy_hms_result(s),
            q.month_dmy_hms_result(s),
            p.zone().east - q.zone().east,
        ),
        readings_inside(slash_hms_text(s), slash_dmy_hms_formats()) ==> shifted(
            p.slash_dmy_hms_result(s),
            q.slash_dmy_hms_result(s),
            p.zone().east - q.zone().east,
        ),
        readings_inside(slash_hms_text(s), slash_ymd_hms_formats()) ==> shifted(
            p.slash_ymd_hms_result(s),
            q.slash_ymd_hms_result(s),
            p.zone().east - q.zone().east,
        ),
        readings_inside(s, seq!["%y%m%d %H:%M:%S"@]) ==> shifted(
            p.mysql_log_timestamp_result(s),
            q.mysql_log_timestamp_result(s),
            p.zone().east - q.zone().east,
        ),
        readings_inside(s, seq!["%Y年%m月%d日%H时%M分%S秒"@]) ==> shifted(
            p.chinese_ymd_hms_result(s),
            q.chinese_ymd_hms_result(s),
            p.zone().east - q.zone().east,
        ),
{
    let (pe, qe) = (p.zone().east, q.zone().east);
    if readings_inside(s, ymd_hms_formats()) {
        lemma_first_in_zone_shift(pe, qe, s, ymd_hms_formats());
    }
    if readings_inside(mdy_hms_text(s), month_mdy_hms_formats()) {
        lemma_first_in_zone_shift(pe, qe, mdy_hms_text(s), month_mdy_hms_formats());
    }
    if readings_inside(dmy_hms_text(s), month_dmy_hms_formats()) {
        lemma_first_in_zone_shift(pe, qe, dmy_hms_text(s), month_dmy_hms_formats());
    }
    if readings_inside(slash_hms_text(s), slash_dmy_hms_formats()) {
        lemma_first_in_zone_shift(pe, qe, slash_hms_text(s), slash_dmy_hms_formats());
    }
    if readings_inside(slash_hms_text(s), slash_ymd_hms_formats()) {
        lemma_first_in_zone_shift(pe, qe, slash_hms_text(s), slash_ymd_hms_formats());
    }
    if readings_inside(s, seq!["%y%m%d %H:%M:%S"@]) {
        lemma_first_in_zone_shift(pe, qe, s, seq!["%y%m%d %H:%M:%S"@]);
        assert(seq!["%y%m%d %H:%M:%S"@][0] == "%y%m%d %H:%M:%S"@);
    }
    if readings_inside(s, seq!["%Y年%m月%d日%H时%M分%S秒"@]) {
        lemma_first_in_zone_shift(pe, qe, s, seq!["%Y年%m月%d日%H时%M分%S秒"@]);
        assert(seq!["%Y年%m月%d日%H时%M分%S秒"@][0] == "%Y年%m月%d日%H时%M分%S秒"@);
    }
}

/// The date `d`, where one was read, at the time `t` lies at least a day
/// inside the range of instants that `chrono` can show.
pub open spec fn day_inside(d: Option<CalendarDate>, t: TimeOfDay) -> bool {
    d matches Some(date) ==> (LocalDateTime { date, time: t }).a_day_inside()
}

/// With one default time of day, moving the parser's zone moves the instant
/// of a text that gives only a date as it moves a wall-clock time: read in a
/// zone `d` seconds further east, it is `d` seconds earlier. This holds
/// wherever the date, at that time, lies at least a day inside the range of
/// instants that `chrono` can show.
pub proof fn law_parser_zone_shifts_dates(p: Parse, q: Parse, s: Seq<char>, now: UtcDateTime)
    requires
        p.zone().valid(),
        q.zone().valid(),
        p.default_time_of_day() is Some,
        p.default_time_of_day() == q.default_time_of_day(),
    ensures
        ({
            let t = p.default_time_of_day()->0;
            let d = p.zone().east - q.zone().east;
            &&& day_inside(naive_date_format(s, "%Y-%m-%d"@), t) ==> shifted(
                p.ymd_result(s, now),
                q.ymd_result(s, now),
                d,
            )
            &&& day_inside(first_naive_date(s, month_ymd_formats()), t) ==> shifted(
                p.month_ymd_result(s, now),
                q.month_ymd_result(s, now),
                d,
            )
            &&& day_inside(first_naive_date(mdy_text(s), month_mdy_formats()), t) ==> shifted(
                p.month_mdy_result(s, now),
                q.month_mdy_result(s, now),
                d,
            )
            &&& day_inside(first_naive_date(dmy_text(s), month_dmy_formats()), t) ==> shifted(
                p.month_dmy_result(s, now),
                q.month_dmy_result(s, now),
                d,
            )
            &&& day_inside(first_naive_date(s, slash_dmy_formats()), t) ==> shifted(
                p.slash_dmy_result(s, now),
                q.slash_dmy_result(s, now),
                d,
            )
            &&& day_inside(naive_date_format(s, "%Y/%m/%d"@), t) ==> shifted(
                p.slash_ymd_result(s, now),
                q.slash_ymd_result(s, now),
                d,
            )
            &&& day_inside(naive_date_format(s, "%Y年%m月%d日"@), t) ==> shifted(
                p.chinese_ymd_result(s, now),
                q.chinese_ymd_result(s, now),
                d,
            )
        }),
{
}

/// The attempt is not the error that says the clock cannot be shown.
pub open spec fn not_clock_failure(a: Attempt) -> bool {
    a != Some(Err::<UtcDateTime, DateParseError>(DateParseError::ClockOutOfRange))
}

proof fn lemma_clock_inside_formats(p: Parse, s: Seq<char>, now: UtcDateTime)
    requires
        p.zone().valid(),
        now.clock_like(),
    ensures
        not_clock_failure(p.ymd_family_result(s, now)),
        not_clock_failure(p.hms_family_result(s, now)),
        not_clock_failure(p.month_ymd_result(s, now)),
        not_clock_failure(p.month_mdy_family_result(s, now)),
        not_clock_failure(p.month_dmy_family_result(s, now)),
        not_clock_failure(p.slash_dmy_family_result(s, now)),
        not_clock_failure(p.slash_ymd_family_result(s, now)),
        not_clock_failure(p.dot_dmy_or_ymd_result(s, now)),
        not_clock_failure(p.chinese_ymd_family_result(s, now)),
{
}

/// At a clock reading at least a day inside the range of instants that
/// `chrono` can show, a parser whose zone is less than a day from UTC never
/// answers that the clock cannot be shown: every fixed zone's wall clock
/// shows such a reading.
pub proof fn law_clock_inside_range_is_always_shown(p: Parse, s: Seq<char>, now: UtcDateTime)
    requires
        p.zone().valid(),
        now.clock_like(),
    ensures
        p.parse_result(s, now) != Err::<UtcDateTime, DateParseError>(DateParseError::ClockOutOfRange),
{
    lemma_clock_inside_formats(p, s, now);
}

} // verus!
