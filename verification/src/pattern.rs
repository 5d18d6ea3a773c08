//! A small pattern language for the shapes of date and time strings, with a
//! matcher whose results follow leftmost-first (backtracking) priority.
use vstd::prelude::*;

verus! {

/// A class of characters that a pattern piece repeats.
#[derive(Clone, Copy, Debug, PartialEq, Eq, Structural)]
pub enum CharClass {
    /// ASCII digits `0`..`9`.
    Digit,
    /// ASCII letters `a`..`z` and `A`..`Z`.
    Letter,
    /// Unicode white space.
    Space,
    /// Any character but a line feed.
    NotNewline,
    /// The characters `+` through `:`, that is `+ , - . /`, the digits and `:`.
    OffsetChar,
    /// An offset character or an ASCII letter.
    ZoneChar,
}

/// Unicode `White_Space`, the set that `char::is_whitespace` and `\s` use.
pub open spec fn is_white_space_code(u: u32) -> bool {
    ||| (9 <= u && u <= 13)
    ||| u == 32
    ||| u == 0x85
    ||| u == 0xA0
    ||| u == 0x1680
    ||| (0x2000 <= u && u <= 0x200A)
    ||| u == 0x2028
    ||| u == 0x2029
    ||| u == 0x202F
    ||| u == 0x205F
    ||| u == 0x3000
}

/// `c` is Unicode white space.
pub open spec fn is_white_space(c: char) -> bool {
    is_white_space_code(c as u32)
}

/// `c` is an ASCII digit.
pub open spec fn is_digit(c: char) -> bool {
    48 <= (c as u32) && (c as u32) <= 57
}

/// `c` is an ASCII letter.
pub open spec fn is_letter(c: char) -> bool {
    (65 <= (c as u32) && (c as u32) <= 90) || (97 <= (c as u32) && (c as u32) <= 122)
}

/// `c` belongs to the class `k`.
pub open spec fn class_has(k: CharClass, c: char) -> bool {
    match k {
        CharClass::Digit => is_digit(c),
        CharClass::Letter => is_letter(c),
        CharClass::Space => is_white_space(c),
        CharClass::NotNewline => (c as u32) != 10,
        CharClass::OffsetChar => 43 <= (c as u32) && (c as u32) <= 58,
        CharClass::ZoneChar => (43 <= (c as u32) && (c as u32) <= 58) || is_letter(c),
    }
}

/// Whether `c` is Unicode white space.
pub fn white_space(c: char) -> (b: bool)
    ensures
        b == is_white_space(c),
{
    let u: u32 = c as u32;
    (9 <= u && u <= 13) || u == 32 || u == 0x85 || u == 0xA0 || u == 0x1680 || (0x2000 <= u && u
        <= 0x200A) || u == 0x2028 || u == 0x2029 || u == 0x202F || u == 0x205F || u == 0x3000
}

/// Whether `c` is an ASCII digit.
pub fn digit(c: char) -> (b: bool)
    ensures
        b == is_digit(c),
{
    let u: u32 = c as u32;
    48 <= u && u <= 57
}

/// Whether `c` is an ASCII letter.
pub fn letter(c: char) -> (b: bool)
    ensures
        b == is_letter(c),
{
    let u: u32 = c as u32;
    (65 <= u && u <= 90) || (97 <= u && u <= 122)
}

/// Whether `c` belongs to the class `k`.
pub fn class_contains(k: CharClass, c: char) -> (b: bool)
    ensures
        b == class_has(k, c),
{
    let u: u32 = c as u32;
    match k {
        CharClass::Digit => digit(c),
        CharClass::Letter => letter(c),
        CharClass::Space => white_space(c),
        CharClass::NotNewline => u != 10,
        CharClass::OffsetChar => 43 <= u && u <= 58,
        CharClass::ZoneChar => (43 <= u && u <= 58) || letter(c),
    }
}


/// One piece of a pattern: one of the literals `alts`, followed by `min..=max`
/// characters of `class`, taken greedily; when `optional`, the whole piece may
/// also be skipped, which is tried last.
pub struct Piece {
    pub alts: Vec<Vec<char>>,
    pub class: CharClass,
    pub min: usize,
    pub max: usize,
    pub optional: bool,
}

/// The mathematical value of a [`Piece`].
pub struct PieceSpec {
    pub alts: Seq<Seq<char>>,
    pub class: CharClass,
    pub min: nat,
    pub max: nat,
    pub optional: bool,
}

impl View for Piece {
    type V = PieceSpec;

    open spec fn view(&self) -> PieceSpec {
        PieceSpec {
            alts: self.alts.deep_view(),
            class: self.class,
            min: self.min as nat,
            max: self.max as nat,
            optional: self.optional,
        }
    }
}

/// The values of a list of pieces.
pub open spec fn pieces_view(ps: Seq<Piece>) -> Seq<PieceSpec> {
    ps.map_values(|p: Piece| p@)
}

/// Positions as integers.
pub open spec fn ints(v: Seq<usize>) -> Seq<int> {
    v.map_values(|x: usize| x as int)
}

/// How many characters of class `k` follow one another in `s` from `i` on.
pub open spec fn run_len(k: CharClass, s: Seq<char>, i: int) -> nat
    decreases s.len() - i,
{
    if i < 0 || i >= s.len() || !class_has(k, s[i]) {
        0
    } else {
        1 + run_len(k, s, i + 1)
    }
}

/// `hi, hi - 1, ..., lo`.
pub open spec fn descending(lo: int, hi: int) -> Seq<int>
    decreases hi - lo + 1,
{
    if hi < lo {
        seq![]
    } else {
        seq![hi] + descending(lo, hi - 1)
    }
}

/// The literal `lit` stands in `s` at `i`.
pub open spec fn lit_at(s: Seq<char>, i: int, lit: Seq<char>) -> bool {
    0 <= i && i + lit.len() <= s.len() && s.subrange(i, i + lit.len()) == lit
}

/// The ends of the matches of `p` at `i` through its literals from the `a`-th
/// on, in the order in which they are tried.
pub open spec fn alt_candidates(p: PieceSpec, s: Seq<char>, i: int, a: int) -> Seq<int>
    decreases p.alts.len() - a,
{
    if a < 0 || a >= p.alts.len() {
        seq![]
    } else {
        let rest = alt_candidates(p, s, i, a + 1);
        let lit = p.alts[a];
        if lit_at(s, i, lit) {
            let start = i + lit.len();
            let run = run_len(p.class, s, start);
            let top = if p.max <= run {
                p.max as int
            } else {
                run as int
            };
            descending(start + p.min, start + top) + rest
        } else {
            rest
        }
    }
}

/// The ends of the matches of `p` at `i`, in the order in which they are tried.
pub open spec fn candidates(p: PieceSpec, s: Seq<char>, i: int) -> Seq<int> {
    alt_candidates(p, s, i, 0) + (if p.optional {
        seq![i]
    } else {
        seq![]
    })
}

/// The first way, in priority order, to match the pieces from the `k`-th on at
/// `i`: the end of each piece. With `to_end`, the last piece must end at the
/// end of `s`.
pub open spec fn search(ps: Seq<PieceSpec>, s: Seq<char>, k: int, i: int, to_end: bool) -> Option<
    Seq<int>,
>
    decreases ps.len() - k, 1int, 0int,
{
    if k < 0 || k >= ps.len() {
        if !to_end || i == s.len() {
            Some(seq![])
        } else {
            None
        }
    } else {
        try_from(ps, s, k, candidates(ps[k], s, i), 0, to_end)
    }
}

/// `search` for piece `k` when it ends at `cands[j]`, then at the candidates
/// after it.
pub open spec fn try_from(
    ps: Seq<PieceSpec>,
    s: Seq<char>,
    k: int,
    cands: Seq<int>,
    j: int,
    to_end: bool,
) -> Option<Seq<int>>
    decreases ps.len() - k, 0int, cands.len() - j,
{
    if k < 0 || k >= ps.len() || j < 0 || j >= cands.len() {
        None
    } else {
        match search(ps, s, k + 1, cands[j], to_end) {
            Some(rest) => Some(seq![cands[j]] + rest),
            None => try_from(ps, s, k, cands, j + 1, to_end),
        }
    }
}

/// The whole of `s` has the shape `ps`.
pub open spec fn full_match(ps: Seq<PieceSpec>, s: Seq<char>) -> bool {
    search(ps, s, 0, 0, true) is Some
}

/// Some beginning of `s` has the shape `ps`.
pub open spec fn prefix_match(ps: Seq<PieceSpec>, s: Seq<char>) -> bool {
    search(ps, s, 0, 0, false) is Some
}

/// Some part of `s` has the shape `ps`.
pub open spec fn occurs_in(ps: Seq<PieceSpec>, s: Seq<char>) -> bool {
    exists|i: int| 0 <= i <= s.len() && (#[trigger] search(ps, s, 0, i, false)) is Some
}

fn run_length(k: CharClass, s: &Vec<char>, i: usize) -> (n: usize)
    requires
        i <= s.len(),
    ensures
        n == run_len(k, s@, i as int),
        i + n <= s.len(),
{
    let mut j: usize = i;
    while j < s.len()
        invariant
            i <= j <= s.len(),
            run_len(k, s@, i as int) == (j - i) + run_len(k, s@, j as int),
        ensures
            i <= j <= s.len(),
            run_len(k, s@, i as int) == (j - i) + run_len(k, s@, j as int),
            run_len(k, s@, j as int) == 0,
        decreases s.len() - j,
    {
        if !class_contains(k, s[j]) {
            break;
        }
        j += 1;
    }
    j - i
}

fn lit_matches(s: &Vec<char>, i: usize, lit: &Vec<char>) -> (b: bool)
    requires
        i <= s.len(),
    ensures
        b == lit_at(s@, i as int, lit@),
{
    if lit.len() > s.len() - i {
        return false;
    }
    let mut j: usize = 0;
    while j < lit.len()
        invariant
            j <= lit.len(),
            i + lit.len() <= s.len(),
            forall|t: int| 0 <= t < j ==> s@[i + t] == lit@[t],
        decreases lit.len() - j,
    {
        if s[i + j] != lit[j] {
            proof {
                assert(s@.subrange(i as int, i + lit.len())[j as int] != lit@[j as int]);
            }
            return false;
        }
        j += 1;
    }
    proof {
        assert(s@.subrange(i as int, i + lit.len()) =~= lit@);
    }
    true
}

proof fn lemma_descending_step(lo: int, hi: int)
    requires
        lo <= hi,
    ensures
        descending(lo, hi) == seq![hi] + descending(lo, hi - 1),
{
}

fn piece_candidates(p: &Piece, s: &Vec<char>, i: usize) -> (c: Vec<usize>)
    requires
        i <= s.len(),
    ensures
        ints(c@) == candidates(p@, s@, i as int),
        forall|t: int| 0 <= t < c@.len() ==> c@[t] <= s.len(),
{
    let ghost pv = p@;
    let mut c: Vec<usize> = Vec::new();
    let mut a: usize = 0;
    while a < p.alts.len()
        invariant
            pv == p@,
            a <= p.alts.len(),
            i <= s.len(),
            ints(c@) + alt_candidates(pv, s@, i as int, a as int) == alt_candidates(
                pv,
                s@,
                i as int,
                0,
            ),
            forall|t: int| 0 <= t < c@.len() ==> c@[t] <= s.len(),
        decreases p.alts.len() - a,
    {
        let ghost c0 = c@;
        let lit = &p.alts[a];
        assert(pv.alts[a as int] == lit@);
        if lit_matches(s, i, lit) {
            let start = i + lit.len();
            let run = run_length(p.class, s, start);
            let top = if p.max <= run {
                p.max
            } else {
                run
            };
            let ghost lo = start + p.min;
            if top >= p.min {
                let mut cnt: usize = top;
                loop
                    invariant_except_break
                        p.min <= cnt <= top,
                        ints(c@) + descending(lo, start + cnt) == ints(c0) + descending(
                            lo,
                            start + top,
                        ),
                    invariant
                        lo == start + p.min,
                        start + top <= s.len(),
                        forall|t: int| 0 <= t < c@.len() ==> c@[t] <= s.len(),
                    ensures
                        ints(c@) == ints(c0) + descending(lo, start + top),
                    decreases cnt,
                {
                    let ghost before = c@;
                    proof {
                        lemma_descending_step(lo, start + cnt);
                    }
                    c.push(start + cnt);
                    assert(ints(c@) =~= ints(before) + seq![(start + cnt) as int]);
                    assert(ints(c@) + descending(lo, start + cnt - 1) =~= ints(before)
                        + descending(lo, start + cnt));
                    if cnt == p.min {
                        assert(descending(lo, start + cnt - 1) =~= Seq::<int>::empty());
                        assert(ints(c@) =~= ints(c@) + descending(lo, start + cnt - 1));
                        break;
                    }
                    cnt -= 1;
                }
            } else {
                assert(descending(lo, start + top) =~= Seq::<int>::empty());
                assert(ints(c@) =~= ints(c0) + descending(lo, start + top));
            }
            assert(ints(c@) + alt_candidates(pv, s@, i as int, a + 1) =~= ints(c0)
                + alt_candidates(pv, s@, i as int, a as int));
        } else {
            assert(ints(c@) + alt_candidates(pv, s@, i as int, a + 1) =~= ints(c0)
                + alt_candidates(pv, s@, i as int, a as int));
        }
        a += 1;
    }
    assert(alt_candidates(pv, s@, i as int, a as int) =~= Seq::<int>::empty());
    assert(ints(c@) =~= alt_candidates(pv, s@, i as int, 0));
    if p.optional {
        let ghost before = c@;
        c.push(i);
        assert(ints(c@) =~= ints(before) + seq![i as int]);
    } else {
        assert(ints(c@) =~= ints(c@) + Seq::<int>::empty());
    }
    c
}

fn search_from(ps: &Vec<Piece>, s: &Vec<char>, k: usize, i: usize, to_end: bool) -> (r: Option<
    Vec<usize>,
>)
    requires
        k <= ps.len(),
        i <= s.len(),
    ensures
        r is Some <==> search(pieces_view(ps@), s@, k as int, i as int, to_end) is Some,
        r matches Some(v) ==> Some(ints(v@)) == search(
            pieces_view(ps@),
            s@,
            k as int,
            i as int,
            to_end,
        ),
    decreases ps.len() - k,
{
    let ghost pv = pieces_view(ps@);
    if k == ps.len() {
        if !to_end || i == s.len() {
            let v: Vec<usize> = Vec::new();
            assert(ints(v@) =~= Seq::<int>::empty());
            return Some(v);
        } else {
            return None;
        }
    }
    let cands = piece_candidates(&ps[k], s, i);
    let ghost cs = ints(cands@);
    assert(pv[k as int] == ps@[k as int]@);
    assert(search(pv, s@, k as int, i as int, to_end) == try_from(pv, s@, k as int, cs, 0, to_end));
    let mut j: usize = 0;
    while j < cands.len()
        invariant
            k < ps.len(),
            pv == pieces_view(ps@),
            cs == ints(cands@),
            j <= cands.len(),
            forall|t: int| 0 <= t < cands@.len() ==> cands@[t] <= s.len(),
            search(pv, s@, k as int, i as int, to_end) == try_from(
                pv,
                s@,
                k as int,
                cs,
                j as int,
                to_end,
            ),
        decreases cands.len() - j,
    {
        let end = cands[j];
        assert(cs[j as int] == end as int);
        match search_from(ps, s, k + 1, end, to_end) {
            Some(rest) => {
                let ghost rv = rest@;
                let mut out = rest;
                out.insert(0, end);
                assert(ints(out@) =~= seq![end as int] + ints(rv));
                return Some(out);
            },
            None => {},
        }
        j += 1;
    }
    None
}

/// Whether the whole of `s` has the shape `ps`.
pub fn matches_whole(ps: &Vec<Piece>, s: &Vec<char>) -> (b: bool)
    ensures
        b == full_match(pieces_view(ps@), s@),
{
    search_from(ps, s, 0, 0, true).is_some()
}

/// Where each piece ends in the first way, in priority order, in which the
/// whole of `s` has the shape `ps`.
pub fn whole_match_ends(ps: &Vec<Piece>, s: &Vec<char>) -> (r: Option<Vec<usize>>)
    ensures
        r is Some <==> full_match(pieces_view(ps@), s@),
        r matches Some(v) ==> Some(ints(v@)) == search(pieces_view(ps@), s@, 0, 0, true),
{
    search_from(ps, s, 0, 0, true)
}

/// Whether some beginning of `s` has the shape `ps`.
pub fn matches_start(ps: &Vec<Piece>, s: &Vec<char>) -> (b: bool)
    ensures
        b == prefix_match(pieces_view(ps@), s@),
{
    search_from(ps, s, 0, 0, false).is_some()
}

/// Whether some part of `s` has the shape `ps`.
pub fn matches_anywhere(ps: &Vec<Piece>, s: &Vec<char>) -> (b: bool)
    ensures
        b == occurs_in(pieces_view(ps@), s@),
{
    let ghost pv = pieces_view(ps@);
    let mut i: usize = 0;
    while i < s.len()
        invariant
            pv == pieces_view(ps@),
            i <= s.len(),
            forall|t: int| 0 <= t < i ==> search(pv, s@, 0, t, false) is None,
        decreases s.len() - i,
    {
        if search_from(ps, s, 0, i, false).is_some() {
            return true;
        }
        i += 1;
    }
    if search_from(ps, s, 0, i, false).is_some() {
        return true;
    }
    assert forall|t: int| 0 <= t <= s@.len() implies (#[trigger] search(pv, s@, 0, t, false)) is None by {
    }
    false
}


/// `descending(lo, hi)` holds exactly the integers from `lo` to `hi`.
pub proof fn lemma_descending_contains(lo: int, hi: int, x: int)
    ensures
        descending(lo, hi).contains(x) <==> lo <= x <= hi,
    decreases hi - lo + 1,
{
    if hi >= lo {
        lemma_descending_contains(lo, hi - 1, x);
        let d = descending(lo, hi);
        assert(d == seq![hi] + descending(lo, hi - 1));
        if x == hi {
            assert(d[0] == x);
        } else if descending(lo, hi - 1).contains(x) {
            let e = descending(lo, hi - 1);
            let t = choose|t: int| 0 <= t < e.len() && #[trigger] e[t] == x;
            assert(d[t + 1] == x);
        } else if d.contains(x) {
            let t = choose|t: int| 0 <= t < d.len() && #[trigger] d[t] == x;
            assert(t > 0);
            assert(descending(lo, hi - 1)[t - 1] == x);
        }
    }
}

/// The characters from `i` on are all of class `k` exactly where the run of
/// them from `i` reaches the end.
pub proof fn lemma_run_len_all(k: CharClass, s: Seq<char>, i: int)
    requires
        0 <= i <= s.len(),
    ensures
        run_len(k, s, i) <= s.len() - i,
        run_len(k, s, i) == s.len() - i <==> forall|j: int| i <= j < s.len() ==> class_has(k, #[trigger] s[j]),
    decreases s.len() - i,
{
    if i < s.len() {
        lemma_run_len_all(k, s, i + 1);
        if !class_has(k, s[i]) {
            assert(!(forall|j: int| i <= j < s.len() ==> class_has(k, #[trigger] s[j])));
        }
    }
}

/// Trying the candidates from the `j`-th on finds a way exactly where one of
/// them leads to one.
pub proof fn lemma_try_from_some(
    ps: Seq<PieceSpec>,
    s: Seq<char>,
    k: int,
    cands: Seq<int>,
    j: int,
    to_end: bool,
)
    requires
        0 <= k < ps.len(),
        0 <= j,
    ensures
        try_from(ps, s, k, cands, j, to_end) is Some <==> exists|t: int|
            j <= t < cands.len() && (#[trigger] search(ps, s, k + 1, cands[t], to_end)) is Some,
    decreases cands.len() - j,
{
    if j < cands.len() {
        lemma_try_from_some(ps, s, k, cands, j + 1, to_end);
        if search(ps, s, k + 1, cands[j], to_end) is Some {
        } else {
            if exists|t: int| j <= t < cands.len() && (#[trigger] search(ps, s, k + 1, cands[t], to_end)) is Some {
                let t = choose|t: int| j <= t < cands.len() && (#[trigger] search(ps, s, k + 1, cands[t], to_end)) is Some;
                assert(t != j);
            }
        }
    }
}

/// A shape of one repeated class fits the whole text exactly where the text
/// has between `lo` and `hi` characters, all of that class.
pub proof fn lemma_single_repeat_match(k: CharClass, lo: nat, hi: nat, s: Seq<char>)
    ensures
        full_match(seq![PieceSpec { alts: seq![Seq::<char>::empty()], class: k, min: lo, max: hi, optional: false }], s)
            <==> (lo <= s.len() <= hi && forall|j: int| 0 <= j < s.len() ==> class_has(k, #[trigger] s[j])),
{
    let p = PieceSpec { alts: seq![Seq::<char>::empty()], class: k, min: lo, max: hi, optional: false };
    let ps = seq![p];
    assert(lit_at(s, 0, p.alts[0])) by {
        assert(s.subrange(0, 0) =~= Seq::<char>::empty());
    }
    let run = run_len(k, s, 0);
    let top = if hi <= run { hi as int } else { run as int };
    assert(alt_candidates(p, s, 0, 1) == Seq::<int>::empty());
    let c = candidates(p, s, 0);
    assert(c =~= descending(lo as int, top));
    lemma_try_from_some(ps, s, 0, c, 0, true);
    lemma_run_len_all(k, s, 0);
    lemma_descending_contains(lo as int, top, s.len() as int);
    if full_match(ps, s) {
        let t = choose|t: int| 0 <= t < c.len() && (#[trigger] search(ps, s, 1, c[t], true)) is Some;
        assert(c[t] == s.len());
        assert(c.contains(s.len() as int));
    }
    if lo <= s.len() <= hi && forall|j: int| 0 <= j < s.len() ==> class_has(k, #[trigger] s[j]) {
        assert(c.contains(s.len() as int));
        let t = choose|t: int| 0 <= t < c.len() && #[trigger] c[t] == s.len();
        assert(search(ps, s, 1, c[t], true) is Some);
    }
}


proof fn lemma_alt_candidates_bounds(p: PieceSpec, s: Seq<char>, i: int, a: int)
    requires
        0 <= i <= s.len(),
    ensures
        forall|t: int|
            0 <= t < alt_candidates(p, s, i, a).len() ==> i <= #[trigger] alt_candidates(
                p,
                s,
                i,
                a,
            )[t] <= s.len(),
    decreases p.alts.len() - a,
{
    if 0 <= a < p.alts.len() {
        lemma_alt_candidates_bounds(p, s, i, a + 1);
        let lit = p.alts[a];
        if lit_at(s, i, lit) {
            let start = i + lit.len();
            let run = run_len(p.class, s, start);
            lemma_run_len_all(p.class, s, start);
            let top = if p.max <= run {
                p.max as int
            } else {
                run as int
            };
            let d = descending(start + p.min, start + top);
            let rest = alt_candidates(p, s, i, a + 1);
            assert forall|t: int| 0 <= t < d.len() implies i <= #[trigger] d[t] <= s.len() by {
                assert(d.contains(d[t]));
                lemma_descending_contains(start + p.min, start + top, d[t]);
            }
            assert(alt_candidates(p, s, i, a) == d + rest);
            assert forall|t: int| 0 <= t < (d + rest).len() implies i <= #[trigger] (d + rest)[t]
                <= s.len() by {
                if t >= d.len() {
                    assert((d + rest)[t] == rest[t - d.len()]);
                }
            }
        } else {
            assert(alt_candidates(p, s, i, a) == alt_candidates(p, s, i, a + 1));
        }
    }
}

/// Every candidate end of a piece at `i` lies between `i` and the end.
pub proof fn lemma_candidates_bounds(p: PieceSpec, s: Seq<char>, i: int)
    requires
        0 <= i <= s.len(),
    ensures
        forall|t: int|
            0 <= t < candidates(p, s, i).len() ==> i <= #[trigger] candidates(p, s, i)[t]
                <= s.len(),
{
    lemma_alt_candidates_bounds(p, s, i, 0);
    let a = alt_candidates(p, s, i, 0);
    let o = if p.optional {
        seq![i]
    } else {
        seq![]
    };
    assert forall|t: int| 0 <= t < (a + o).len() implies i <= #[trigger] (a + o)[t] <= s.len() by {
        if t >= a.len() {
            assert((a + o)[t] == o[t - a.len()]);
        }
    }
}

/// The way that `search` finds gives one end per piece, each between `i` and
/// the end of the text.
pub proof fn lemma_search_bounds(ps: Seq<PieceSpec>, s: Seq<char>, k: int, i: int, to_end: bool)
    requires
        0 <= k <= ps.len(),
        0 <= i <= s.len(),
    ensures
        search(ps, s, k, i, to_end) matches Some(r) ==> r.len() == ps.len() - k && forall|t: int|
            0 <= t < r.len() ==> i <= #[trigger] r[t] <= s.len(),
    decreases ps.len() - k, 1int, 0int,
{
    if k < ps.len() {
        let c = candidates(ps[k], s, i);
        lemma_candidates_bounds(ps[k], s, i);
        lemma_try_from_bounds(ps, s, k, c, 0, to_end, i);
    }
}

proof fn lemma_try_from_bounds(
    ps: Seq<PieceSpec>,
    s: Seq<char>,
    k: int,
    cands: Seq<int>,
    j: int,
    to_end: bool,
    i: int,
)
    requires
        0 <= k < ps.len(),
        0 <= j,
        0 <= i <= s.len(),
        forall|t: int| 0 <= t < cands.len() ==> i <= #[trigger] cands[t] <= s.len(),
    ensures
        try_from(ps, s, k, cands, j, to_end) matches Some(r) ==> r.len() == ps.len() - k
            && forall|t: int| 0 <= t < r.len() ==> i <= #[trigger] r[t] <= s.len(),
    decreases ps.len() - k, 0int, cands.len() - j,
{
    if j < cands.len() {
        let e = cands[j];
        lemma_search_bounds(ps, s, k + 1, e, to_end);
        lemma_try_from_bounds(ps, s, k, cands, j + 1, to_end, i);
        if let Some(rest) = search(ps, s, k + 1, e, to_end) {
            let r = seq![e] + rest;
            assert forall|t: int| 0 <= t < r.len() implies i <= #[trigger] r[t] <= s.len() by {
                if t > 0 {
                    assert(r[t] == rest[t - 1]);
                }
            }
        }
    }
}


/// Piece `p` can match `s` from `i` to `j`: one of its literals at `i`, then
/// between `min` and `max` characters of its class up to `j`; or nothing, where
/// the piece is optional.
pub open spec fn piece_fits(p: PieceSpec, s: Seq<char>, i: int, j: int) -> bool {
    ||| (p.optional && j == i)
    ||| exists|a: int|
        0 <= a < p.alts.len() && lit_at(s, i, #[trigger] p.alts[a]) && i + p.alts[a].len() + p.min
            <= j <= i + p.alts[a].len() + p.max && j <= s.len() && forall|t: int|
            i + p.alts[a].len() <= t < j ==> class_has(p.class, #[trigger] s[t])
}

/// `ends` shows how the pieces from the `k`-th on match `s` one after another
/// from `i`: piece `k + t` ends at `ends[t]`, and the last one at the end of `s`
/// where `to_end`.
pub open spec fn chain(ps: Seq<PieceSpec>, s: Seq<char>, k: int, i: int, ends: Seq<int>, to_end: bool) -> bool
    decreases ps.len() - k,
{
    if k < 0 || k >= ps.len() {
        ends.len() == 0 && (!to_end || i == s.len())
    } else {
        &&& ends.len() > 0
        &&& i <= ends[0] <= s.len()
        &&& piece_fits(ps[k], s, i, ends[0])
        &&& chain(ps, s, k + 1, ends[0], ends.skip(1), to_end)
    }
}

/// The pieces from the `k`-th on can match `s` one after another from `i`.
pub open spec fn fits(ps: Seq<PieceSpec>, s: Seq<char>, k: int, i: int, to_end: bool) -> bool {
    exists|ends: Seq<int>| #[trigger] chain(ps, s, k, i, ends, to_end)
}

proof fn lemma_run_len_prefix(k: CharClass, s: Seq<char>, i: int, n: int)
    requires
        0 <= i,
        0 <= n,
        i + n <= s.len(),
    ensures
        run_len(k, s, i) >= n <==> forall|t: int| i <= t < i + n ==> class_has(k, #[trigger] s[t]),
    decreases n,
{
    if n > 0 {
        lemma_run_len_prefix(k, s, i + 1, n - 1);
        if !class_has(k, s[i]) {
            assert(!(forall|t: int| i <= t < i + n ==> class_has(k, #[trigger] s[t])));
        } else {
            if forall|t: int| i <= t < i + n ==> class_has(k, #[trigger] s[t]) {
                assert forall|t: int| i + 1 <= t < i + 1 + (n - 1) implies class_has(k, #[trigger] s[t]) by {
                }
            }
        }
    }
}

proof fn lemma_alt_candidates_exact(p: PieceSpec, s: Seq<char>, i: int, a: int, j: int)
    requires
        0 <= i <= s.len(),
        0 <= a,
    ensures
        alt_candidates(p, s, i, a).contains(j) <==> exists|b: int|
            a <= b < p.alts.len() && lit_at(s, i, #[trigger] p.alts[b]) && i + p.alts[b].len() + p.min
                <= j <= i + p.alts[b].len() + p.max && j <= s.len() && forall|t: int|
                i + p.alts[b].len() <= t < j ==> class_has(p.class, #[trigger] s[t]),
    decreases p.alts.len() - a,
{
    if a < p.alts.len() {
        lemma_alt_candidates_exact(p, s, i, a + 1, j);
        let lit = p.alts[a];
        let rest = alt_candidates(p, s, i, a + 1);
        let here = lit_at(s, i, lit) && i + lit.len() + p.min <= j <= i + lit.len() + p.max && j
            <= s.len() && forall|t: int| i + lit.len() <= t < j ==> class_has(p.class, #[trigger] s[t]);
        if lit_at(s, i, lit) {
            let start = i + lit.len();
            let run = run_len(p.class, s, start);
            lemma_run_len_all(p.class, s, start);
            let top = if p.max <= run {
                p.max as int
            } else {
                run as int
            };
            let d = descending(start + p.min, start + top);
            lemma_descending_contains(start + p.min, start + top, j);
            assert(alt_candidates(p, s, i, a) == d + rest);
            if start <= j <= s.len() {
                lemma_run_len_prefix(p.class, s, start, j - start);
            }
            assert(d.contains(j) <==> here);
            if (d + rest).contains(j) {
                let t = choose|t: int| 0 <= t < (d + rest).len() && (d + rest)[t] == j;
                if t < d.len() {
                    assert(d[t] == j);
                } else {
                    assert(rest[t - d.len()] == j);
                }
            }
            if d.contains(j) {
                let t = choose|t: int| 0 <= t < d.len() && d[t] == j;
                assert((d + rest)[t] == j);
            }
            if rest.contains(j) {
                let t = choose|t: int| 0 <= t < rest.len() && rest[t] == j;
                assert((d + rest)[t + d.len()] == j);
            }
        } else {
            assert(alt_candidates(p, s, i, a) == rest);
        }
        if here {
            assert(lit_at(s, i, p.alts[a]));
        }
        if exists|b: int|
            a <= b < p.alts.len() && lit_at(s, i, #[trigger] p.alts[b]) && i + p.alts[b].len() + p.min
                <= j <= i + p.alts[b].len() + p.max && j <= s.len() && forall|t: int|
                i + p.alts[b].len() <= t < j ==> class_has(p.class, #[trigger] s[t]) {
            let b = choose|b: int|
                a <= b < p.alts.len() && lit_at(s, i, #[trigger] p.alts[b]) && i + p.alts[b].len() + p.min
                    <= j <= i + p.alts[b].len() + p.max && j <= s.len() && forall|t: int|
                    i + p.alts[b].len() <= t < j ==> class_has(p.class, #[trigger] s[t]);
            if b != a {
                assert(a + 1 <= b);
            }
        }
    }
}

/// The candidate ends of a piece are exactly the ends of its matches.
pub proof fn lemma_candidates_exact(p: PieceSpec, s: Seq<char>, i: int, j: int)
    requires
        0 <= i <= s.len(),
    ensures
        candidates(p, s, i).contains(j) <==> piece_fits(p, s, i, j),
{
    lemma_alt_candidates_exact(p, s, i, 0, j);
    let a = alt_candidates(p, s, i, 0);
    let o = if p.optional {
        seq![i]
    } else {
        seq![]
    };
    if (a + o).contains(j) {
        let t = choose|t: int| 0 <= t < (a + o).len() && (a + o)[t] == j;
        if t < a.len() {
            assert(a[t] == j);
        } else {
            assert(o[t - a.len()] == j);
        }
    }
    if a.contains(j) {
        let t = choose|t: int| 0 <= t < a.len() && a[t] == j;
        assert((a + o)[t] == j);
    }
    if p.optional && j == i {
        assert((a + o)[a.len() as int] == j);
    }
}

/// The matcher is right: the ends it finds show a way for the pieces to match.
pub proof fn lemma_search_sound(ps: Seq<PieceSpec>, s: Seq<char>, k: int, i: int, to_end: bool)
    requires
        0 <= k <= ps.len(),
        0 <= i <= s.len(),
    ensures
        search(ps, s, k, i, to_end) matches Some(r) ==> chain(ps, s, k, i, r, to_end),
    decreases ps.len() - k, 1int, 0int,
{
    if k < ps.len() {
        let c = candidates(ps[k], s, i);
        lemma_candidates_bounds(ps[k], s, i);
        lemma_try_from_sound(ps, s, k, c, 0, to_end, i);
    }
}

proof fn lemma_try_from_sound(
    ps: Seq<PieceSpec>,
    s: Seq<char>,
    k: int,
    cands: Seq<int>,
    j: int,
    to_end: bool,
    i: int,
)
    requires
        0 <= k < ps.len(),
        0 <= j,
        0 <= i <= s.len(),
        cands == candidates(ps[k], s, i),
        forall|t: int| 0 <= t < cands.len() ==> i <= #[trigger] cands[t] <= s.len(),
    ensures
        try_from(ps, s, k, cands, j, to_end) matches Some(r) ==> chain(ps, s, k, i, r, to_end),
    decreases ps.len() - k, 0int, cands.len() - j,
{
    if j < cands.len() {
        let e = cands[j];
        lemma_try_from_sound(ps, s, k, cands, j + 1, to_end, i);
        lemma_search_sound(ps, s, k + 1, e, to_end);
        if let Some(rest) = search(ps, s, k + 1, e, to_end) {
            let r = seq![e] + rest;
            assert(r.skip(1) =~= rest);
            assert(cands.contains(e));
            lemma_candidates_exact(ps[k], s, i, e);
        }
    }
}

/// The matcher is complete: where the pieces can match at all, it finds a
/// way.
pub proof fn lemma_search_complete(
    ps: Seq<PieceSpec>,
    s: Seq<char>,
    k: int,
    i: int,
    ends: Seq<int>,
    to_end: bool,
)
    requires
        0 <= k <= ps.len(),
        0 <= i <= s.len(),
        chain(ps, s, k, i, ends, to_end),
    ensures
        search(ps, s, k, i, to_end) is Some,
    decreases ps.len() - k,
{
    if k < ps.len() {
        let c = candidates(ps[k], s, i);
        let e = ends[0];
        lemma_search_complete(ps, s, k + 1, e, ends.skip(1), to_end);
        lemma_candidates_exact(ps[k], s, i, e);
        let t = choose|t: int| 0 <= t < c.len() && c[t] == e;
        lemma_try_from_some(ps, s, k, c, 0, to_end);
        assert(search(ps, s, k + 1, c[t], to_end) is Some);
    }
}

} // verus!
