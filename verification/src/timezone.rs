//! Reading a time zone written after a date or a time: an offset such as
//! `+0800`, `-08:00` or `+09:00`, or a name such as `UTC` or `PST`.
use vstd::prelude::*;
use crate::calendar::FixedZone;
use crate::pattern::{is_digit, is_letter, is_white_space, digit, letter, white_space};
use crate::text::digit_value;

verus! {

/// Why a time zone could not be read.
#[derive(Clone, Copy, Debug, PartialEq, Eq, Structural)]
pub enum TimezoneError {
    /// The minutes are 60 or more, or the offset is a day or more.
    OutOfRange,
    /// A sign or a digit is missing where one must be.
    InvalidCharacters,
    /// The text ends before the hours or the minutes.
    TooShort,
}

/// The number that two decimal digits write.
pub open spec fn two_digits(a: char, b: char) -> int {
    digit_value(a) * 10 + digit_value(b)
}

/// `s` without the colons and white space at its beginning.
pub open spec fn skip_separators(s: Seq<char>) -> Seq<char>
    decreases s.len(),
{
    if s.len() > 0 && (s[0] == ':' || is_white_space(s[0])) {
        skip_separators(s.skip(1))
    } else {
        s
    }
}

/// The seconds east of UTC that `[+-]hh[:]mm` gives, where `separators` lets
/// colons and white space stand between the hours and the minutes. What
/// follows the minutes is not read.
pub open spec fn signed_offset(s: Seq<char>, separators: bool) -> Result<int, TimezoneError> {
    if s.len() == 0 {
        Err(TimezoneError::TooShort)
    } else if s[0] != '+' && s[0] != '-' {
        Err(TimezoneError::InvalidCharacters)
    } else if s.len() < 3 {
        Err(TimezoneError::TooShort)
    } else if !(is_digit(s[1]) && is_digit(s[2])) {
        Err(TimezoneError::InvalidCharacters)
    } else {
        let hours = two_digits(s[1], s[2]);
        let rest = if separators {
            skip_separators(s.skip(3))
        } else {
            s.skip(3)
        };
        if rest.len() < 2 {
            Err(TimezoneError::TooShort)
        } else if !is_digit(rest[1]) || !is_digit(rest[0]) {
            Err(TimezoneError::InvalidCharacters)
        } else if digit_value(rest[0]) > 5 {
            Err(TimezoneError::OutOfRange)
        } else {
            let secs = hours * 3600 + two_digits(rest[0], rest[1]) * 60;
            Ok(
                if s[0] == '-' {
                    -secs
                } else {
                    secs
                },
            )
        }
    }
}

/// How many ASCII letters begin `s`.
pub open spec fn letters_len(s: Seq<char>) -> nat
    decreases s.len(),
{
    if s.len() > 0 && is_letter(s[0]) {
        1 + letters_len(s.skip(1))
    } else {
        0
    }
}

/// `c`, made small where it is an ASCII capital.
pub open spec fn lower_char(c: char) -> char {
    if 65 <= (c as u32) && (c as u32) <= 90 {
        ((c as u32) + 32) as char
    } else {
        c
    }
}

/// `s` with its ASCII capitals made small.
pub open spec fn ascii_lower(s: Seq<char>) -> Seq<char> {
    s.map_values(|c: char| lower_char(c))
}

/// The hours east of UTC of a zone name written in small letters: `gmt`,
/// `ut` and `utc` are 0, `edt` is -4, `est` and `cdt` are -5, `cst` and `mdt`
/// are -6, `mst` and `pdt` are -7, `pst` is -8; any other name counts as 0.
pub open spec fn named_zone_hours(name: Seq<char>) -> int {
    if name == seq!['g', 'm', 't'] || name == seq!['u', 't'] || name == seq!['u', 't', 'c'] {
        0
    } else if name == seq!['e', 'd', 't'] {
        -4
    } else if name == seq!['e', 's', 't'] || name == seq!['c', 'd', 't'] {
        -5
    } else if name == seq!['c', 's', 't'] || name == seq!['m', 'd', 't'] {
        -6
    } else if name == seq!['m', 's', 't'] || name == seq!['p', 'd', 't'] {
        -7
    } else if name == seq!['p', 's', 't'] {
        -8
    } else {
        0
    }
}

/// A zone name at the beginning of `s`, or else a signed offset without
/// separators.
pub open spec fn named_or_offset(s: Seq<char>) -> Result<int, TimezoneError> {
    let n = letters_len(s);
    if n > 0 {
        Ok(named_zone_hours(ascii_lower(s.take(n as int))) * 3600)
    } else {
        signed_offset(s, false)
    }
}

/// The seconds east of UTC that the zone text `s` gives: a signed offset with
/// separators where `s` holds a colon, and else a zone name or a signed offset.
pub open spec fn zone_seconds(s: Seq<char>) -> Result<int, TimezoneError> {
    if s.contains(':') {
        signed_offset(s, true)
    } else {
        named_or_offset(s)
    }
}

/// The zone that `s` names, where its offset is less than a day.
pub open spec fn zone_of(s: Seq<char>) -> Result<FixedZone, TimezoneError> {
    match zone_seconds(s) {
        Err(e) => Err(e),
        Ok(secs) => if -86_400 < secs && secs < 86_400 {
            Ok(FixedZone { east: secs as i32 })
        } else {
            Err(TimezoneError::OutOfRange)
        },
    }
}

fn digit_of(c: char) -> (d: i32)
    requires
        is_digit(c),
    ensures
        d == digit_value(c),
        0 <= d <= 9,
{
    (c as u32 - 48) as i32
}

fn skip_separators_from(s: &Vec<char>, from: usize) -> (i: usize)
    requires
        from <= s.len(),
    ensures
        from <= i <= s.len(),
        skip_separators(s@.skip(from as int)) == s@.skip(i as int),
{
    let mut i: usize = from;
    while i < s.len()
        invariant
            from <= i <= s.len(),
            skip_separators(s@.skip(from as int)) == skip_separators(s@.skip(i as int)),
        ensures
            from <= i <= s.len(),
            skip_separators(s@.skip(from as int)) == s@.skip(i as int),
        decreases s.len() - i,
    {
        if !(s[i] == ':' || white_space(s[i])) {
            break;
        }
        assert(s@.skip(i as int).skip(1) =~= s@.skip(i + 1));
        i += 1;
    }
    i
}

fn parse_signed_offset(s: &Vec<char>, separators: bool) -> (r: Result<i32, TimezoneError>)
    ensures
        match r {
            Ok(v) => signed_offset(s@, separators) == Ok::<int, TimezoneError>(v as int),
            Err(e) => signed_offset(s@, separators) == Err::<int, TimezoneError>(e),
        },
{
    if s.len() == 0 {
        return Err(TimezoneError::TooShort);
    }
    if s[0] != '+' && s[0] != '-' {
        return Err(TimezoneError::InvalidCharacters);
    }
    if s.len() < 3 {
        return Err(TimezoneError::TooShort);
    }
    if !(digit(s[1]) && digit(s[2])) {
        return Err(TimezoneError::InvalidCharacters);
    }
    let hours: i32 = digit_of(s[1]) * 10 + digit_of(s[2]);
    let i = if separators {
        skip_separators_from(s, 3)
    } else {
        3
    };
    let ghost rest = if separators {
        skip_separators(s@.skip(3))
    } else {
        s@.skip(3)
    };
    assert(rest == s@.skip(i as int));
    if s.len() - i < 2 {
        return Err(TimezoneError::TooShort);
    }
    assert(rest[0] == s@[i as int] && rest[1] == s@[i + 1]);
    if !digit(s[i + 1]) || !digit(s[i]) {
        return Err(TimezoneError::InvalidCharacters);
    }
    let m1 = digit_of(s[i]);
    if m1 > 5 {
        return Err(TimezoneError::OutOfRange);
    }
    let secs: i32 = hours * 3600 + (m1 * 10 + digit_of(s[i + 1])) * 60;
    if s[0] == '-' {
        Ok(-secs)
    } else {
        Ok(secs)
    }
}

fn lower(c: char) -> (r: char)
    ensures
        r == lower_char(c),
{
    let u: u32 = c as u32;
    if 65 <= u && u <= 90 {
        ((u + 32) as u8) as char
    } else {
        c
    }
}

fn is_name(name: &Vec<char>, want: &[char]) -> (r: bool)
    ensures
        r == (name@ == want@),
{
    if name.len() != want.len() {
        return false;
    }
    let mut i: usize = 0;
    while i < name.len()
        invariant
            i <= name.len(),
            name.len() == want.len(),
            forall|t: int| 0 <= t < i ==> name@[t] == want@[t],
        decreases name.len() - i,
    {
        if name[i] != want[i] {
            return false;
        }
        i += 1;
    }
    assert(name@ =~= want@);
    true
}

fn zone_name_hours(name: &Vec<char>) -> (h: i32)
    ensures
        h == named_zone_hours(name@),
{
    if is_name(name, &['g', 'm', 't']) || is_name(name, &['u', 't']) || is_name(name, &['u', 't', 'c']) {
        0
    } else if is_name(name, &['e', 'd', 't']) {
        -4
    } else if is_name(name, &['e', 's', 't']) || is_name(name, &['c', 'd', 't']) {
        -5
    } else if is_name(name, &['c', 's', 't']) || is_name(name, &['m', 'd', 't']) {
        -6
    } else if is_name(name, &['m', 's', 't']) || is_name(name, &['p', 'd', 't']) {
        -7
    } else if is_name(name, &['p', 's', 't']) {
        -8
    } else {
        0
    }
}

fn parse_named_or_offset(s: &Vec<char>) -> (r: Result<i32, TimezoneError>)
    ensures
        match r {
            Ok(v) => named_or_offset(s@) == Ok::<int, TimezoneError>(v as int),
            Err(e) => named_or_offset(s@) == Err::<int, TimezoneError>(e),
        },
{
    let mut n: usize = 0;
    assert(s@.skip(0) =~= s@);
    while n < s.len()
        invariant
            n <= s.len(),
            letters_len(s@) == n + letters_len(s@.skip(n as int)),
            forall|t: int| 0 <= t < n ==> is_letter(s@[t]),
        ensures
            n <= s.len(),
            letters_len(s@) == n,
            forall|t: int| 0 <= t < n ==> is_letter(s@[t]),
        decreases s.len() - n,
    {
        if !letter(s[n]) {
            break;
        }
        assert(s@.skip(n as int).skip(1) =~= s@.skip(n + 1));
        n += 1;
    }
    if n > 0 {
        let mut name: Vec<char> = Vec::new();
        let mut i: usize = 0;
        while i < n
            invariant
                i <= n <= s.len(),
                name@ == ascii_lower(s@.take(i as int)),
            decreases n - i,
        {
            name.push(lower(s[i]));
            assert(name@ =~= ascii_lower(s@.take(i + 1)));
            i += 1;
        }
        Ok(zone_name_hours(&name) * 3600)
    } else {
        parse_signed_offset(s, false)
    }
}

/// Reads the zone that the text `s` gives; its offset must be less than a
/// day either way.
pub fn parse_zone(s: &Vec<char>) -> (r: Result<FixedZone, TimezoneError>)
    ensures
        r == zone_of(s@),
{
    let mut has_colon = false;
    let mut i: usize = 0;
    while i < s.len()
        invariant
            i <= s.len(),
            has_colon == (exists|t: int| 0 <= t < i && s@[t] == ':'),
        decreases s.len() - i,
    {
        if s[i] == ':' {
            has_colon = true;
        }
        i += 1;
    }
    assert(has_colon == s@.contains(':'));
    let secs = if has_colon {
        parse_signed_offset(s, true)
    } else {
        parse_named_or_offset(s)
    };
    match secs {
        Err(e) => Err(e),
        Ok(v) => {
            if -86_400 < v && v < 86_400 {
                Ok(FixedZone { east: v })
            } else {
                Err(TimezoneError::OutOfRange)
            }
        },
    }
}

} // verus!
