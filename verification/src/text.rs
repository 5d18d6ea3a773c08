//! Character-level text operations with exact specifications.
use vstd::prelude::*;
use crate::pattern::{is_digit, is_white_space, digit, white_space};

verus! {

/// The characters of `s`.
pub fn str_chars(s: &str) -> (v: Vec<char>)
    ensures
        v@ == s@,
{
    let mut v: Vec<char> = Vec::new();
    for c in it: s.chars()
        invariant
            v@ == it.seq().take(it.index() as int),
    {
        v.push(c);
    }
    v
}


/// `s` with every occurrence of `pat`, taken from the left without overlap,
/// replaced by `rep`.
pub open spec fn replaced(s: Seq<char>, pat: Seq<char>, rep: Seq<char>) -> Seq<char>
    decreases s.len(),
{
    if pat.len() == 0 || s.len() < pat.len() {
        s
    } else if s.take(pat.len() as int) == pat {
        rep + replaced(s.skip(pat.len() as int), pat, rep)
    } else {
        seq![s[0]] + replaced(s.skip(1), pat, rep)
    }
}

proof fn lemma_replaced_short(s: Seq<char>, pat: Seq<char>, rep: Seq<char>)
    requires
        pat.len() > 0,
        s.len() < pat.len(),
        s.len() > 0,
    ensures
        replaced(s, pat, rep) == seq![s[0]] + replaced(s.skip(1), pat, rep),
{
    assert(s =~= seq![s[0]] + s.skip(1));
}

/// Every occurrence of `pat` in `s`, from the left and without overlap,
/// replaced by `rep`.
pub fn replace_all(s: &Vec<char>, pat: &Vec<char>, rep: &Vec<char>) -> (r: Vec<char>)
    requires
        pat.len() > 0,
    ensures
        r@ == replaced(s@, pat@, rep@),
{
    let mut out: Vec<char> = Vec::new();
    let mut i: usize = 0;
    assert(s@.skip(0) =~= s@);
    assert(out@ + replaced(s@, pat@, rep@) =~= replaced(s@, pat@, rep@));
    while i < s.len()
        invariant
            i <= s.len(),
            pat.len() > 0,
            out@ + replaced(s@.skip(i as int), pat@, rep@) == replaced(s@, pat@, rep@),
        decreases s.len() - i,
    {
        let ghost t = s@.skip(i as int);
        let mut found = pat.len() <= s.len() - i;
        let mut j: usize = 0;
        while found && j < pat.len()
            invariant
                i < s.len(),
                j <= pat.len(),
                found ==> i + pat.len() <= s.len(),
                found ==> forall|x: int| 0 <= x < j ==> s@[i + x] == pat@[x],
                !found ==> !(i + pat.len() <= s.len() && s@.subrange(i as int, i + pat.len())
                    == pat@),
            decreases pat.len() - j + (if found { 1int } else { 0int }),
        {
            if s[i + j] != pat[j] {
                proof {
                    if i + pat.len() <= s.len() {
                        assert(s@.subrange(i as int, i + pat.len())[j as int] != pat@[j as int]);
                    }
                }
                found = false;
            } else {
                j += 1;
            }
        }
        if found {
            assert(s@.subrange(i as int, i + pat.len()) =~= pat@);
        }
        let ghost before = out@;
        if found {
            assert(t.take(pat.len() as int) =~= s@.subrange(i as int, i + pat.len()));
            assert(t.skip(pat.len() as int) =~= s@.skip(i + pat.len()));
            let mut k: usize = 0;
            while k < rep.len()
                invariant
                    k <= rep.len(),
                    out@ == before + rep@.take(k as int),
                decreases rep.len() - k,
            {
                out.push(rep[k]);
                assert(out@ =~= before + rep@.take(k + 1));
                k += 1;
            }
            assert(rep@.take(rep.len() as int) =~= rep@);
            assert(out@ + replaced(s@.skip(i + pat.len()), pat@, rep@) =~= before + replaced(
                t,
                pat@,
                rep@,
            ));
            i = i + pat.len();
        } else {
            proof {
                if t.len() < pat.len() {
                    lemma_replaced_short(t, pat@, rep@);
                } else {
                    assert(t.take(pat.len() as int) =~= s@.subrange(i as int, i + pat.len()));
                }
            }
            assert(t.skip(1) =~= s@.skip(i + 1));
            out.push(s[i]);
            assert(out@ + replaced(s@.skip(i + 1), pat@, rep@) =~= before + replaced(t, pat@, rep@));
            i = i + 1;
        }
    }
    assert(s@.skip(i as int) =~= Seq::<char>::empty());
    assert(out@ + Seq::<char>::empty() =~= out@);
    out
}

/// `a` and `b` spell one of the ordinal suffixes `st`, `nd`, `rd`, `th`.
pub open spec fn is_ordinal_suffix(a: char, b: char) -> bool {
    ||| (a == 's' && b == 't')
    ||| (a == 'n' && b == 'd')
    ||| (a == 'r' && b == 'd')
    ||| (a == 't' && b == 'h')
}

/// `s` with every ordinal suffix that directly follows a digit taken out,
/// scanning from the left: `1st` becomes `1`, `August 12th` becomes
/// `August 12`, and `1 st` stays as it is.
pub open spec fn without_ordinal_suffixes(s: Seq<char>) -> Seq<char>
    decreases s.len(),
{
    if s.len() < 3 {
        s
    } else if is_digit(s[0]) && is_ordinal_suffix(s[1], s[2]) {
        seq![s[0]] + without_ordinal_suffixes(s.skip(3))
    } else {
        seq![s[0]] + without_ordinal_suffixes(s.skip(1))
    }
}

fn ordinal_suffix(a: char, b: char) -> (r: bool)
    ensures
        r == is_ordinal_suffix(a, b),
{
    (a == 's' && b == 't') || (a == 'n' && b == 'd') || (a == 'r' && b == 'd') || (a == 't' && b
        == 'h')
}

/// Removes `st`, `nd`, `rd` and `th` where they directly follow a digit.
pub fn strip_number_suffixes(s: &Vec<char>) -> (r: Vec<char>)
    ensures
        r@ == without_ordinal_suffixes(s@),
{
    let mut out: Vec<char> = Vec::new();
    let mut i: usize = 0;
    assert(s@.skip(0) =~= s@);
    assert(out@ + without_ordinal_suffixes(s@) =~= without_ordinal_suffixes(s@));
    while i < s.len()
        invariant
            i <= s.len(),
            out@ + without_ordinal_suffixes(s@.skip(i as int)) == without_ordinal_suffixes(s@),
        decreases s.len() - i,
    {
        let ghost t = s@.skip(i as int);
        let ghost before = out@;
        out.push(s[i]);
        if s.len() - i >= 3 && digit(s[i]) && ordinal_suffix(s[i + 1], s[i + 2]) {
            assert(t.skip(3) =~= s@.skip(i + 3));
            assert(out@ + without_ordinal_suffixes(s@.skip(i + 3)) =~= before
                + without_ordinal_suffixes(t));
            i = i + 3;
        } else {
            assert(t.skip(1) =~= s@.skip(i + 1));
            proof {
                if t.len() < 3 {
                    assert(t =~= seq![t[0]] + t.skip(1));
                    assert(without_ordinal_suffixes(t.skip(1)) == t.skip(1));
                }
            }
            assert(out@ + without_ordinal_suffixes(s@.skip(i + 1)) =~= before
                + without_ordinal_suffixes(t));
            i = i + 1;
        }
    }
    assert(s@.skip(i as int) =~= Seq::<char>::empty());
    assert(out@ + Seq::<char>::empty() =~= out@);
    out
}

/// `s` without the white space at its beginning.
pub open spec fn trim_start(s: Seq<char>) -> Seq<char>
    decreases s.len(),
{
    if s.len() > 0 && is_white_space(s[0]) {
        trim_start(s.skip(1))
    } else {
        s
    }
}

/// `s` without the white space at its end.
pub open spec fn trim_end(s: Seq<char>) -> Seq<char>
    decreases s.len(),
{
    if s.len() > 0 && is_white_space(s.last()) {
        trim_end(s.drop_last())
    } else {
        s
    }
}

/// `s` without the white space at either end.
pub open spec fn trimmed(s: Seq<char>) -> Seq<char> {
    trim_end(trim_start(s))
}

/// The characters of `s` from `from` to its end, without white space at
/// either end.
pub fn trim_from(s: &Vec<char>, from: usize) -> (r: Vec<char>)
    requires
        from <= s.len(),
    ensures
        r@ == trimmed(s@.skip(from as int)),
{
    let mut a: usize = from;
    while a < s.len()
        invariant
            from <= a <= s.len(),
            trim_start(s@.skip(from as int)) == trim_start(s@.skip(a as int)),
        ensures
            from <= a <= s.len(),
            trim_start(s@.skip(from as int)) == s@.skip(a as int),
        decreases s.len() - a,
    {
        if !white_space(s[a]) {
            break;
        }
        assert(s@.skip(a as int).skip(1) =~= s@.skip(a + 1));
        a += 1;
    }
    let mut b: usize = s.len();
    while b > a
        invariant
            a <= b <= s.len(),
            trim_end(s@.skip(a as int)) == trim_end(s@.subrange(a as int, b as int)),
        ensures
            a <= b <= s.len(),
            trim_end(s@.skip(a as int)) == s@.subrange(a as int, b as int),
        decreases b - a,
    {
        if !white_space(s[b - 1]) {
            break;
        }
        assert(s@.subrange(a as int, b as int).drop_last() =~= s@.subrange(a as int, b - 1));
        b -= 1;
    }
    assert(s@.skip(a as int) =~= s@.subrange(a as int, s.len() as int));
    let mut r: Vec<char> = Vec::new();
    let mut k: usize = a;
    while k < b
        invariant
            a <= k <= b,
            b <= s.len(),
            r@ == s@.subrange(a as int, k as int),
        decreases b - k,
    {
        r.push(s[k]);
        assert(r@ =~= s@.subrange(a as int, k + 1));
        k += 1;
    }
    r
}

/// `a` followed by `b`.
pub fn concat(a: &Vec<char>, b: &Vec<char>) -> (r: Vec<char>)
    ensures
        r@ == a@ + b@,
{
    let mut r: Vec<char> = Vec::new();
    let mut k: usize = 0;
    while k < a.len()
        invariant
            k <= a.len(),
            r@ == a@.take(k as int),
        decreases a.len() - k,
    {
        r.push(a[k]);
        assert(r@ =~= a@.take(k + 1));
        k += 1;
    }
    let mut k: usize = 0;
    while k < b.len()
        invariant
            k <= b.len(),
            r@ == a@ + b@.take(k as int),
        decreases b.len() - k,
    {
        r.push(b[k]);
        assert(r@ =~= a@ + b@.take(k + 1));
        k += 1;
    }
    assert(a@.take(a.len() as int) =~= a@);
    assert(b@.take(b.len() as int) =~= b@);
    r
}

/// The character that writes the decimal digit `d`.
pub open spec fn digit_char(d: int) -> char {
    if d == 0 {
        '0'
    } else if d == 1 {
        '1'
    } else if d == 2 {
        '2'
    } else if d == 3 {
        '3'
    } else if d == 4 {
        '4'
    } else if d == 5 {
        '5'
    } else if d == 6 {
        '6'
    } else if d == 7 {
        '7'
    } else if d == 8 {
        '8'
    } else {
        '9'
    }
}

/// `n` written in decimal, without leading zeros.
pub open spec fn decimal_nat(n: nat) -> Seq<char>
    decreases n,
{
    if n < 10 {
        seq![digit_char(n as int)]
    } else {
        decimal_nat(n / 10).push(digit_char((n % 10) as int))
    }
}

/// `n` written in decimal, with a `-` before it where it is negative.
pub open spec fn decimal(n: int) -> Seq<char> {
    if n < 0 {
        seq!['-'] + decimal_nat((-n) as nat)
    } else {
        decimal_nat(n as nat)
    }
}

fn char_of_digit(d: u64) -> (c: char)
    requires
        d < 10,
    ensures
        c == digit_char(d as int),
{
    if d == 0 {
        '0'
    } else if d == 1 {
        '1'
    } else if d == 2 {
        '2'
    } else if d == 3 {
        '3'
    } else if d == 4 {
        '4'
    } else if d == 5 {
        '5'
    } else if d == 6 {
        '6'
    } else if d == 7 {
        '7'
    } else if d == 8 {
        '8'
    } else {
        '9'
    }
}

/// `n` in decimal.
pub fn decimal_of_u64(n: u64) -> (r: Vec<char>)
    ensures
        r@ == decimal_nat(n as nat),
    decreases n,
{
    if n < 10 {
        let mut r: Vec<char> = Vec::new();
        r.push(char_of_digit(n));
        assert(r@ =~= seq![digit_char(n as int)]);
        r
    } else {
        let mut r = decimal_of_u64(n / 10);
        r.push(char_of_digit(n % 10));
        r
    }
}

/// `n` in decimal, as `{}` formats an integer.
pub fn decimal_of_i32(n: i32) -> (r: Vec<char>)
    ensures
        r@ == decimal(n as int),
{
    if n < 0 {
        let m: i64 = -(n as i64);
        let digits = decimal_of_u64(m as u64);
        let mut minus: Vec<char> = Vec::new();
        minus.push('-');
        concat(&minus, &digits)
    } else {
        decimal_of_u64(n as u64)
    }
}

/// The value of the decimal digit `c`.
pub open spec fn digit_value(c: char) -> int {
    (c as u32) - 48
}

/// The number that the digits `s` write in decimal.
pub open spec fn decimal_value(s: Seq<char>) -> int
    decreases s.len(),
{
    if s.len() == 0 {
        0
    } else {
        decimal_value(s.drop_last()) * 10 + digit_value(s.last())
    }
}

/// Every character of `s` is an ASCII digit.
pub open spec fn all_digits(s: Seq<char>) -> bool {
    forall|i: int| 0 <= i < s.len() ==> is_digit(#[trigger] s[i])
}

/// The digits write a number of zero or more.
pub proof fn lemma_decimal_value_nonneg(s: Seq<char>)
    requires
        all_digits(s),
    ensures
        decimal_value(s) >= 0,
    decreases s.len(),
{
    if s.len() > 0 {
        lemma_decimal_value_nonneg(s.drop_last());
    }
}

proof fn lemma_decimal_value_prefix(s: Seq<char>, i: int)
    requires
        all_digits(s),
        0 <= i <= s.len(),
    ensures
        decimal_value(s.take(i)) <= decimal_value(s),
    decreases s.len(),
{
    if i == s.len() {
        assert(s.take(i) =~= s);
    } else {
        let d = s.drop_last();
        assert(d.take(i) =~= s.take(i));
        lemma_decimal_value_prefix(d, i);
        lemma_decimal_value_nonneg(d);
    }
}

/// The value of the digits `s`, where it fits in an `i64`.
pub fn parse_decimal_i64(s: &Vec<char>) -> (r: Option<i64>)
    requires
        all_digits(s@),
    ensures
        r matches Some(v) ==> v == decimal_value(s@),
        r is None <==> decimal_value(s@) > i64::MAX,
{
    let mut v: i64 = 0;
    let mut i: usize = 0;
    assert(s@.take(0) =~= Seq::<char>::empty());
    while i < s.len()
        invariant
            i <= s.len(),
            all_digits(s@),
            v == decimal_value(s@.take(i as int)),
        decreases s.len() - i,
    {
        assert(s@.take(i + 1).drop_last() =~= s@.take(i as int));
        assert(is_digit(s@[i as int]));
        let d: i64 = (s[i] as u32 - 48) as i64;
        proof {
            lemma_decimal_value_nonneg(s@.take(i as int));
        }
        let next = match v.checked_mul(10) {
            Some(t) => t.checked_add(d),
            None => None,
        };
        match next {
            Some(t) => {
                v = t;
            },
            None => {
                proof {
                    lemma_decimal_value_prefix(s@, i + 1);
                }
                return None;
            },
        }
        i += 1;
    }
    assert(s@.take(i as int) =~= s@);
    Some(v)
}

} // verus!
