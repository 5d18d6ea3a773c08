//! The shapes of the accepted date and time strings.
use vstd::prelude::*;
use crate::pattern::{CharClass, Piece, PieceSpec, pieces_view};
use crate::text::str_chars;

verus! {

/// No bound on a repetition.
pub open spec fn many() -> nat {
    usize::MAX as nat
}

/// A literal that must be there.
pub open spec fn lit_p(l: Seq<char>) -> PieceSpec {
    PieceSpec { alts: seq![l], class: CharClass::Digit, min: 0, max: 0, optional: false }
}

/// `min..=max` characters of `k`.
pub open spec fn rep_p(k: CharClass, min: nat, max: nat) -> PieceSpec {
    PieceSpec { alts: seq![Seq::<char>::empty()], class: k, min, max, optional: false }
}

/// One of the literals `alts`, or nothing.
pub open spec fn opt_p(alts: Seq<Seq<char>>) -> PieceSpec {
    PieceSpec { alts, class: CharClass::Digit, min: 0, max: 0, optional: true }
}

/// Optionally, the literal `l` followed by `min..=max` characters of `k`.
pub open spec fn group_p(l: Seq<char>, k: CharClass, min: nat, max: nat) -> PieceSpec {
    PieceSpec { alts: seq![l], class: k, min, max, optional: true }
}

fn lit(l: Vec<char>) -> (p: Piece)
    ensures
        p@ == lit_p(l@),
{
    let alts = vec![l];
    let p = Piece { alts, class: CharClass::Digit, min: 0, max: 0, optional: false };
    assert(p@.alts =~~= seq![l@]);
    p
}

fn rep(k: CharClass, min: usize, max: usize) -> (p: Piece)
    ensures
        p@ == rep_p(k, min as nat, max as nat),
{
    let e: Vec<char> = Vec::new();
    let alts = vec![e];
    let p = Piece { alts, class: k, min, max, optional: false };
    assert(p@.alts =~~= seq![Seq::<char>::empty()]);
    p
}

fn opt(alts: Vec<Vec<char>>) -> (p: Piece)
    ensures
        p@ == opt_p(alts.deep_view()),
{
    Piece { alts, class: CharClass::Digit, min: 0, max: 0, optional: true }
}

fn group(l: Vec<char>, k: CharClass, min: usize, max: usize) -> (p: Piece)
    ensures
        p@ == group_p(l@, k, min as nat, max as nat),
{
    let alts = vec![l];
    let p = Piece { alts, class: k, min, max, optional: true };
    assert(p@.alts =~~= seq![l@]);
    p
}

/// `(am|pm|AM|PM)?`
pub open spec fn ampm_p() -> PieceSpec {
    opt_p(seq!["am"@, "pm"@, "AM"@, "PM"@])
}

/// `(st|nd|rd|th)?`
pub open spec fn suffix_p() -> PieceSpec {
    opt_p(seq!["st"@, "nd"@, "rd"@, "th"@])
}

fn ampm() -> (p: Piece)
    ensures
        p@ == ampm_p(),
{
    let mut alts: Vec<Vec<char>> = Vec::new();
    alts.push(str_chars("am"));
    alts.push(str_chars("pm"));
    alts.push(str_chars("AM"));
    alts.push(str_chars("PM"));
    assert(alts.deep_view() =~~= seq!["am"@, "pm"@, "AM"@, "PM"@]);
    opt(alts)
}

fn suffix() -> (p: Piece)
    ensures
        p@ == suffix_p(),
{
    let mut alts: Vec<Vec<char>> = Vec::new();
    alts.push(str_chars("st"));
    alts.push(str_chars("nd"));
    alts.push(str_chars("rd"));
    alts.push(str_chars("th"));
    assert(alts.deep_view() =~~= seq!["st"@, "nd"@, "rd"@, "th"@]);
    opt(alts)
}

fn opt_one(l: Vec<char>) -> (p: Piece)
    ensures
        p@ == opt_p(seq![l@]),
{
    let alts = vec![l];
    assert(alts.deep_view() =~~= seq![l@]);
    opt(alts)
}

/// `^[0-9]{4}-[0-9]{2}`, the beginning of the year-month-day family.
pub open spec fn ymd_start_shape() -> Seq<PieceSpec> {
    seq![
        rep_p(CharClass::Digit, 4, 4),
        lit_p("-"@),
        rep_p(CharClass::Digit, 2, 2),
    ]
}

/// The pieces of [`ymd_start_shape`].
pub fn ymd_start_pieces() -> (v: Vec<Piece>)
    ensures
        pieces_view(v@) == ymd_start_shape(),
{
    let mut v: Vec<Piece> = Vec::new();
    v.push(rep(CharClass::Digit, 4, 4));
    v.push(lit(str_chars("-")));
    v.push(rep(CharClass::Digit, 2, 2));
    assert(pieces_view(v@) =~= ymd_start_shape());
    v
}

/// `^[0-9]{1,2}:[0-9]{2}`, the beginning of the clock-time family.
pub open spec fn hms_start_shape() -> Seq<PieceSpec> {
    seq![
        rep_p(CharClass::Digit, 1, 2),
        lit_p(":"@),
        rep_p(CharClass::Digit, 2, 2),
    ]
}

/// The pieces of [`hms_start_shape`].
pub fn hms_start_pieces() -> (v: Vec<Piece>)
    ensures
        pieces_view(v@) == hms_start_shape(),
{
    let mut v: Vec<Piece> = Vec::new();
    v.push(rep(CharClass::Digit, 1, 2));
    v.push(lit(str_chars(":")));
    v.push(rep(CharClass::Digit, 2, 2));
    assert(pieces_view(v@) =~= hms_start_shape());
    v
}

/// `^[a-zA-Z]{3,9}\.?\s*(the)?\s+[0-9]{1,2}`, the beginning of the month-first family.
pub open spec fn month_mdy_start_shape() -> Seq<PieceSpec> {
    seq![
        rep_p(CharClass::Letter, 3, 9),
        opt_p(seq!["."@]),
        rep_p(CharClass::Space, 0, many()),
        opt_p(seq!["the"@]),
        rep_p(CharClass::Space, 1, many()),
        rep_p(CharClass::Digit, 1, 2),
    ]
}

/// The pieces of [`month_mdy_start_shape`].
pub fn month_mdy_start_pieces() -> (v: Vec<Piece>)
    ensures
        pieces_view(v@) == month_mdy_start_shape(),
{
    let mut v: Vec<Piece> = Vec::new();
    v.push(rep(CharClass::Letter, 3, 9));
    v.push(opt_one(str_chars(".")));
    v.push(rep(CharClass::Space, 0, usize::MAX));
    v.push(opt_one(str_chars("the")));
    v.push(rep(CharClass::Space, 1, usize::MAX));
    v.push(rep(CharClass::Digit, 1, 2));
    assert(pieces_view(v@) =~= month_mdy_start_shape());
    v
}

/// `^[0-9]{1,2}(st|nd|rd|th)?\s*(of)?\s+[a-zA-Z]{3,9}`, the beginning of the day-first family.
pub open spec fn month_dmy_start_shape() -> Seq<PieceSpec> {
    seq![
        rep_p(CharClass::Digit, 1, 2),
        suffix_p(),
        rep_p(CharClass::Space, 0, many()),
        opt_p(seq!["of"@]),
        rep_p(CharClass::Space, 1, many()),
        rep_p(CharClass::Letter, 3, 9),
    ]
}

/// The pieces of [`month_dmy_start_shape`].
pub fn month_dmy_start_pieces() -> (v: Vec<Piece>)
    ensures
        pieces_view(v@) == month_dmy_start_shape(),
{
    let mut v: Vec<Piece> = Vec::new();
    v.push(rep(CharClass::Digit, 1, 2));
    v.push(suffix());
    v.push(rep(CharClass::Space, 0, usize::MAX));
    v.push(opt_one(str_chars("of")));
    v.push(rep(CharClass::Space, 1, usize::MAX));
    v.push(rep(CharClass::Letter, 3, 9));
    assert(pieces_view(v@) =~= month_dmy_start_shape());
    v
}

/// `^[0-9]{1,2}/[0-9]{1,2}`.
pub open spec fn slash_dmy_start_shape() -> Seq<PieceSpec> {
    seq![
        rep_p(CharClass::Digit, 1, 2),
        lit_p("/"@),
        rep_p(CharClass::Digit, 1, 2),
    ]
}

/// The pieces of [`slash_dmy_start_shape`].
pub fn slash_dmy_start_pieces() -> (v: Vec<Piece>)
    ensures
        pieces_view(v@) == slash_dmy_start_shape(),
{
    let mut v: Vec<Piece> = Vec::new();
    v.push(rep(CharClass::Digit, 1, 2));
    v.push(lit(str_chars("/")));
    v.push(rep(CharClass::Digit, 1, 2));
    assert(pieces_view(v@) =~= slash_dmy_start_shape());
    v
}

/// `^[0-9]{4}/[0-9]{1,2}`.
pub open spec fn slash_ymd_start_shape() -> Seq<PieceSpec> {
    seq![
        rep_p(CharClass::Digit, 4, 4),
        lit_p("/"@),
        rep_p(CharClass::Digit, 1, 2),
    ]
}

/// The pieces of [`slash_ymd_start_shape`].
pub fn slash_ymd_start_pieces() -> (v: Vec<Piece>)
    ensures
        pieces_view(v@) == slash_ymd_start_shape(),
{
    let mut v: Vec<Piece> = Vec::new();
    v.push(rep(CharClass::Digit, 4, 4));
    v.push(lit(str_chars("/")));
    v.push(rep(CharClass::Digit, 1, 2));
    assert(pieces_view(v@) =~= slash_ymd_start_shape());
    v
}

/// `^[0-9]{4}年[0-9]{2}月`.
pub open spec fn chinese_start_shape() -> Seq<PieceSpec> {
    seq![
        rep_p(CharClass::Digit, 4, 4),
        lit_p("年"@),
        rep_p(CharClass::Digit, 2, 2),
        lit_p("月"@),
    ]
}

/// The pieces of [`chinese_start_shape`].
pub fn chinese_start_pieces() -> (v: Vec<Piece>)
    ensures
        pieces_view(v@) == chinese_start_shape(),
{
    let mut v: Vec<Piece> = Vec::new();
    v.push(rep(CharClass::Digit, 4, 4));
    v.push(lit(str_chars("年")));
    v.push(rep(CharClass::Digit, 2, 2));
    v.push(lit(str_chars("月")));
    assert(pieces_view(v@) =~= chinese_start_shape());
    v
}

/// `^[0-9]{10,19}$`.
pub open spec fn unix_timestamp_shape() -> Seq<PieceSpec> {
    seq![
        rep_p(CharClass::Digit, 10, 19),
    ]
}

/// The pieces of [`unix_timestamp_shape`].
pub fn unix_timestamp_pieces() -> (v: Vec<Piece>)
    ensures
        pieces_view(v@) == unix_timestamp_shape(),
{
    let mut v: Vec<Piece> = Vec::new();
    v.push(rep(CharClass::Digit, 10, 19));
    assert(pieces_view(v@) =~= unix_timestamp_shape());
    v
}

/// `^[0-9]{4}-[0-9]{2}-[0-9]{2}\s+[0-9]{2}:[0-9]{2}(:[0-9]{2})?(\.[0-9]{1,9})?[+-:0-9]{3,6}$`.
pub open spec fn postgres_shape() -> Seq<PieceSpec> {
    seq![
        rep_p(CharClass::Digit, 4, 4),
        lit_p("-"@),
        rep_p(CharClass::Digit, 2, 2),
        lit_p("-"@),
        rep_p(CharClass::Digit, 2, 2),
        rep_p(CharClass::Space, 1, many()),
        rep_p(CharClass::Digit, 2, 2),
        lit_p(":"@),
        rep_p(CharClass::Digit, 2, 2),
        group_p(":"@, CharClass::Digit, 2, 2),
        group_p("."@, CharClass::Digit, 1, 9),
        rep_p(CharClass::OffsetChar, 3, 6),
    ]
}

/// The pieces of [`postgres_shape`].
pub fn postgres_pieces() -> (v: Vec<Piece>)
    ensures
        pieces_view(v@) == postgres_shape(),
{
    let mut v: Vec<Piece> = Vec::new();
    v.push(rep(CharClass::Digit, 4, 4));
    v.push(lit(str_chars("-")));
    v.push(rep(CharClass::Digit, 2, 2));
    v.push(lit(str_chars("-")));
    v.push(rep(CharClass::Digit, 2, 2));
    v.push(rep(CharClass::Space, 1, usize::MAX));
    v.push(rep(CharClass::Digit, 2, 2));
    v.push(lit(str_chars(":")));
    v.push(rep(CharClass::Digit, 2, 2));
    v.push(group(str_chars(":"), CharClass::Digit, 2, 2));
    v.push(group(str_chars("."), CharClass::Digit, 1, 9));
    v.push(rep(CharClass::OffsetChar, 3, 6));
    assert(pieces_view(v@) =~= postgres_shape());
    v
}

/// `^[0-9]{4}-[0-9]{2}-[0-9]{2}\s+[0-9]{2}:[0-9]{2}(:[0-9]{2})?(\.[0-9]{1,9})?\s*(am|pm|AM|PM)?$`.
pub open spec fn ymd_hms_shape() -> Seq<PieceSpec> {
    seq![
        rep_p(CharClass::Digit, 4, 4),
        lit_p("-"@),
        rep_p(CharClass::Digit, 2, 2),
        lit_p("-"@),
        rep_p(CharClass::Digit, 2, 2),
        rep_p(CharClass::Space, 1, many()),
        rep_p(CharClass::Digit, 2, 2),
        lit_p(":"@),
        rep_p(CharClass::Digit, 2, 2),
        group_p(":"@, CharClass::Digit, 2, 2),
        group_p("."@, CharClass::Digit, 1, 9),
        rep_p(CharClass::Space, 0, many()),
        ampm_p(),
    ]
}

/// The pieces of [`ymd_hms_shape`].
pub fn ymd_hms_pieces() -> (v: Vec<Piece>)
    ensures
        pieces_view(v@) == ymd_hms_shape(),
{
    let mut v: Vec<Piece> = Vec::new();
    v.push(rep(CharClass::Digit, 4, 4));
    v.push(lit(str_chars("-")));
    v.push(rep(CharClass::Digit, 2, 2));
    v.push(lit(str_chars("-")));
    v.push(rep(CharClass::Digit, 2, 2));
    v.push(rep(CharClass::Space, 1, usize::MAX));
    v.push(rep(CharClass::Digit, 2, 2));
    v.push(lit(str_chars(":")));
    v.push(rep(CharClass::Digit, 2, 2));
    v.push(group(str_chars(":"), CharClass::Digit, 2, 2));
    v.push(group(str_chars("."), CharClass::Digit, 1, 9));
    v.push(rep(CharClass::Space, 0, usize::MAX));
    v.push(ampm());
    assert(pieces_view(v@) =~= ymd_hms_shape());
    v
}

/// `^[0-9]{4}-[0-9]{2}-[0-9]{2}\s+[0-9]{2}:[0-9]{2}(:[0-9]{2})?(\.[0-9]{1,9})?\s*[+-:a-zA-Z0-9]{3,6}$`; the zone is the last two pieces.
pub open spec fn ymd_hms_z_shape() -> Seq<PieceSpec> {
    seq![
        rep_p(CharClass::Digit, 4, 4),
        lit_p("-"@),
        rep_p(CharClass::Digit, 2, 2),
        lit_p("-"@),
        rep_p(CharClass::Digit, 2, 2),
        rep_p(CharClass::Space, 1, many()),
        rep_p(CharClass::Digit, 2, 2),
        lit_p(":"@),
        rep_p(CharClass::Digit, 2, 2),
        group_p(":"@, CharClass::Digit, 2, 2),
        group_p("."@, CharClass::Digit, 1, 9),
        rep_p(CharClass::Space, 0, many()),
        rep_p(CharClass::ZoneChar, 3, 6),
    ]
}

/// The pieces of [`ymd_hms_z_shape`].
pub fn ymd_hms_z_pieces() -> (v: Vec<Piece>)
    ensures
        pieces_view(v@) == ymd_hms_z_shape(),
{
    let mut v: Vec<Piece> = Vec::new();
    v.push(rep(CharClass::Digit, 4, 4));
    v.push(lit(str_chars("-")));
    v.push(rep(CharClass::Digit, 2, 2));
    v.push(lit(str_chars("-")));
    v.push(rep(CharClass::Digit, 2, 2));
    v.push(rep(CharClass::Space, 1, usize::MAX));
    v.push(rep(CharClass::Digit, 2, 2));
    v.push(lit(str_chars(":")));
    v.push(rep(CharClass::Digit, 2, 2));
    v.push(group(str_chars(":"), CharClass::Digit, 2, 2));
    v.push(group(str_chars("."), CharClass::Digit, 1, 9));
    v.push(rep(CharClass::Space, 0, usize::MAX));
    v.push(rep(CharClass::ZoneChar, 3, 6));
    assert(pieces_view(v@) =~= ymd_hms_z_shape());
    v
}

/// `^[0-9]{4}-[0-9]{2}-[0-9]{2}$`.
pub open spec fn ymd_shape() -> Seq<PieceSpec> {
    seq![
        rep_p(CharClass::Digit, 4, 4),
        lit_p("-"@),
        rep_p(CharClass::Digit, 2, 2),
        lit_p("-"@),
        rep_p(CharClass::Digit, 2, 2),
    ]
}

/// The pieces of [`ymd_shape`].
pub fn ymd_pieces() -> (v: Vec<Piece>)
    ensures
        pieces_view(v@) == ymd_shape(),
{
    let mut v: Vec<Piece> = Vec::new();
    v.push(rep(CharClass::Digit, 4, 4));
    v.push(lit(str_chars("-")));
    v.push(rep(CharClass::Digit, 2, 2));
    v.push(lit(str_chars("-")));
    v.push(rep(CharClass::Digit, 2, 2));
    assert(pieces_view(v@) =~= ymd_shape());
    v
}

/// `^[0-9]{4}-[0-9]{2}-[0-9]{2}\s*[+-:a-zA-Z0-9]{3,6}$`; the zone is the last two pieces.
pub open spec fn ymd_z_shape() -> Seq<PieceSpec> {
    seq![
        rep_p(CharClass::Digit, 4, 4),
        lit_p("-"@),
        rep_p(CharClass::Digit, 2, 2),
        lit_p("-"@),
        rep_p(CharClass::Digit, 2, 2),
        rep_p(CharClass::Space, 0, many()),
        rep_p(CharClass::ZoneChar, 3, 6),
    ]
}

/// The pieces of [`ymd_z_shape`].
pub fn ymd_z_pieces() -> (v: Vec<Piece>)
    ensures
        pieces_view(v@) == ymd_z_shape(),
{
    let mut v: Vec<Piece> = Vec::new();
    v.push(rep(CharClass::Digit, 4, 4));
    v.push(lit(str_chars("-")));
    v.push(rep(CharClass::Digit, 2, 2));
    v.push(lit(str_chars("-")));
    v.push(rep(CharClass::Digit, 2, 2));
    v.push(rep(CharClass::Space, 0, usize::MAX));
    v.push(rep(CharClass::ZoneChar, 3, 6));
    assert(pieces_view(v@) =~= ymd_z_shape());
    v
}

/// `^[0-9]{1,2}:[0-9]{2}(:[0-9]{2})?\s*(am|pm|AM|PM)?$`.
pub open spec fn hms_shape() -> Seq<PieceSpec> {
    seq![
        rep_p(CharClass::Digit, 1, 2),
        lit_p(":"@),
        rep_p(CharClass::Digit, 2, 2),
        group_p(":"@, CharClass::Digit, 2, 2),
        rep_p(CharClass::Space, 0, many()),
        ampm_p(),
    ]
}

/// The pieces of [`hms_shape`].
pub fn hms_pieces() -> (v: Vec<Piece>)
    ensures
        pieces_view(v@) == hms_shape(),
{
    let mut v: Vec<Piece> = Vec::new();
    v.push(rep(CharClass::Digit, 1, 2));
    v.push(lit(str_chars(":")));
    v.push(rep(CharClass::Digit, 2, 2));
    v.push(group(str_chars(":"), CharClass::Digit, 2, 2));
    v.push(rep(CharClass::Space, 0, usize::MAX));
    v.push(ampm());
    assert(pieces_view(v@) =~= hms_shape());
    v
}

/// `^[0-9]{1,2}:[0-9]{2}(:[0-9]{2})?\s*(am|pm|AM|PM)?\s+[+-:a-zA-Z0-9]{3,6}$`; the zone is the last two pieces.
pub open spec fn hms_z_shape() -> Seq<PieceSpec> {
    seq![
        rep_p(CharClass::Digit, 1, 2),
        lit_p(":"@),
        rep_p(CharClass::Digit, 2, 2),
        group_p(":"@, CharClass::Digit, 2, 2),
        rep_p(CharClass::Space, 0, many()),
        ampm_p(),
        rep_p(CharClass::Space, 1, many()),
        rep_p(CharClass::ZoneChar, 3, 6),
    ]
}

/// The pieces of [`hms_z_shape`].
pub fn hms_z_pieces() -> (v: Vec<Piece>)
    ensures
        pieces_view(v@) == hms_z_shape(),
{
    let mut v: Vec<Piece> = Vec::new();
    v.push(rep(CharClass::Digit, 1, 2));
    v.push(lit(str_chars(":")));
    v.push(rep(CharClass::Digit, 2, 2));
    v.push(group(str_chars(":"), CharClass::Digit, 2, 2));
    v.push(rep(CharClass::Space, 0, usize::MAX));
    v.push(ampm());
    v.push(rep(CharClass::Space, 1, usize::MAX));
    v.push(rep(CharClass::ZoneChar, 3, 6));
    assert(pieces_view(v@) =~= hms_z_shape());
    v
}

/// `^[0-9]{4}-[a-zA-Z]{3,9}-[0-9]{2}$`.
pub open spec fn month_ymd_shape() -> Seq<PieceSpec> {
    seq![
        rep_p(CharClass::Digit, 4, 4),
        lit_p("-"@),
        rep_p(CharClass::Letter, 3, 9),
        lit_p("-"@),
        rep_p(CharClass::Digit, 2, 2),
    ]
}

/// The pieces of [`month_ymd_shape`].
pub fn month_ymd_pieces() -> (v: Vec<Piece>)
    ensures
        pieces_view(v@) == month_ymd_shape(),
{
    let mut v: Vec<Piece> = Vec::new();
    v.push(rep(CharClass::Digit, 4, 4));
    v.push(lit(str_chars("-")));
    v.push(rep(CharClass::Letter, 3, 9));
    v.push(lit(str_chars("-")));
    v.push(rep(CharClass::Digit, 2, 2));
    assert(pieces_view(v@) =~= month_ymd_shape());
    v
}

/// `^[a-zA-Z]{3,9}\s*(the)?\s+[0-9]{1,2}(st|nd|rd|th)?,?\s*(at)?\s+[0-9]{1,2}:[0-9]{2}(:[0-9]{2})?\s*(am|pm|AM|PM)?$`.
pub open spec fn month_md_hms_shape() -> Seq<PieceSpec> {
    seq![
        rep_p(CharClass::Letter, 3, 9),
        rep_p(CharClass::Space, 0, many()),
        opt_p(seq!["the"@]),
        rep_p(CharClass::Space, 1, many()),
        rep_p(CharClass::Digit, 1, 2),
        suffix_p(),
        opt_p(seq![","@]),
        rep_p(CharClass::Space, 0, many()),
        opt_p(seq!["at"@]),
        rep_p(CharClass::Space, 1, many()),
        rep_p(CharClass::Digit, 1, 2),
        lit_p(":"@),
        rep_p(CharClass::Digit, 2, 2),
        group_p(":"@, CharClass::Digit, 2, 2),
        rep_p(CharClass::Space, 0, many()),
        ampm_p(),
    ]
}

/// The pieces of [`month_md_hms_shape`].
pub fn month_md_hms_pieces() -> (v: Vec<Piece>)
    ensures
        pieces_view(v@) == month_md_hms_shape(),
{
    let mut v: Vec<Piece> = Vec::new();
    v.push(rep(CharClass::Letter, 3, 9));
    v.push(rep(CharClass::Space, 0, usize::MAX));
    v.push(opt_one(str_chars("the")));
    v.push(rep(CharClass::Space, 1, usize::MAX));
    v.push(rep(CharClass::Digit, 1, 2));
    v.push(suffix());
    v.push(opt_one(str_chars(",")));
    v.push(rep(CharClass::Space, 0, usize::MAX));
    v.push(opt_one(str_chars("at")));
    v.push(rep(CharClass::Space, 1, usize::MAX));
    v.push(rep(CharClass::Digit, 1, 2));
    v.push(lit(str_chars(":")));
    v.push(rep(CharClass::Digit, 2, 2));
    v.push(group(str_chars(":"), CharClass::Digit, 2, 2));
    v.push(rep(CharClass::Space, 0, usize::MAX));
    v.push(ampm());
    assert(pieces_view(v@) =~= month_md_hms_shape());
    v
}

/// `^[a-zA-Z]{3,9}\s*(the)?\s+[0-9]{1,2}(st|nd|rd|th)?$`.
pub open spec fn month_md_shape() -> Seq<PieceSpec> {
    seq![
        rep_p(CharClass::Letter, 3, 9),
        rep_p(CharClass::Space, 0, many()),
        opt_p(seq!["the"@]),
        rep_p(CharClass::Space, 1, many()),
        rep_p(CharClass::Digit, 1, 2),
        suffix_p(),
    ]
}

/// The pieces of [`month_md_shape`].
pub fn month_md_pieces() -> (v: Vec<Piece>)
    ensures
        pieces_view(v@) == month_md_shape(),
{
    let mut v: Vec<Piece> = Vec::new();
    v.push(rep(CharClass::Letter, 3, 9));
    v.push(rep(CharClass::Space, 0, usize::MAX));
    v.push(opt_one(str_chars("the")));
    v.push(rep(CharClass::Space, 1, usize::MAX));
    v.push(rep(CharClass::Digit, 1, 2));
    v.push(suffix());
    assert(pieces_view(v@) =~= month_md_shape());
    v
}

/// `^[a-zA-Z]{3,9}\.?\s*(the)?\s+[0-9]{1,2}(st|nd|rd|th)?,?\s+[0-9]{2,4},?\s*(at)?\s+[0-9]{1,2}:[0-9]{2}(:[0-9]{2})?\s*(am|pm|AM|PM)?$`.
pub open spec fn month_mdy_hms_shape() -> Seq<PieceSpec> {
    seq![
        rep_p(CharClass::Letter, 3, 9),
        opt_p(seq!["."@]),
        rep_p(CharClass::Space, 0, many()),
        opt_p(seq!["the"@]),
        rep_p(CharClass::Space, 1, many()),
        rep_p(CharClass::Digit, 1, 2),
        suffix_p(),
        opt_p(seq![","@]),
        rep_p(CharClass::Space, 1, many()),
        rep_p(CharClass::Digit, 2, 4),
        opt_p(seq![","@]),
        rep_p(CharClass::Space, 0, many()),
        opt_p(seq!["at"@]),
        rep_p(CharClass::Space, 1, many()),
        rep_p(CharClass::Digit, 1, 2),
        lit_p(":"@),
        rep_p(CharClass::Digit, 2, 2),
        group_p(":"@, CharClass::Digit, 2, 2),
        rep_p(CharClass::Space, 0, many()),
        ampm_p(),
    ]
}

/// The pieces of [`month_mdy_hms_shape`].
pub fn month_mdy_hms_pieces() -> (v: Vec<Piece>)
    ensures
        pieces_view(v@) == month_mdy_hms_shape(),
{
    let mut v: Vec<Piece> = Vec::new();
    v.push(rep(CharClass::Letter, 3, 9));
    v.push(opt_one(str_chars(".")));
    v.push(rep(CharClass::Space, 0, usize::MAX));
    v.push(opt_one(str_chars("the")));
    v.push(rep(CharClass::Space, 1, usize::MAX));
    v.push(rep(CharClass::Digit, 1, 2));
    v.push(suffix());
    v.push(opt_one(str_chars(",")));
    v.push(rep(CharClass::Space, 1, usize::MAX));
    v.push(rep(CharClass::Digit, 2, 4));
    v.push(opt_one(str_chars(",")));
    v.push(rep(CharClass::Space, 0, usize::MAX));
    v.push(opt_one(str_chars("at")));
    v.push(rep(CharClass::Space, 1, usize::MAX));
    v.push(rep(CharClass::Digit, 1, 2));
    v.push(lit(str_chars(":")));
    v.push(rep(CharClass::Digit, 2, 2));
    v.push(group(str_chars(":"), CharClass::Digit, 2, 2));
    v.push(rep(CharClass::Space, 0, usize::MAX));
    v.push(ampm());
    assert(pieces_view(v@) =~= month_mdy_hms_shape());
    v
}

/// `^[a-zA-Z]{3,9}\s*(the)?\s+[0-9]{1,2}(st|nd|rd|th)?,?\s+[0-9]{4}\s*,?(at)?\s+[0-9]{1,2}:[0-9]{2}(:[0-9]{2})?\s*(am|pm|AM|PM)?\s+[+-:a-zA-Z0-9]{3,6}$`; the zone is the last two pieces.
pub open spec fn month_mdy_hms_z_shape() -> Seq<PieceSpec> {
    seq![
        rep_p(CharClass::Letter, 3, 9),
        rep_p(CharClass::Space, 0, many()),
        opt_p(seq!["the"@]),
        rep_p(CharClass::Space, 1, many()),
        rep_p(CharClass::Digit, 1, 2),
        suffix_p(),
        opt_p(seq![","@]),
        rep_p(CharClass::Space, 1, many()),
        rep_p(CharClass::Digit, 4, 4),
        rep_p(CharClass::Space, 0, many()),
        opt_p(seq![","@]),
        opt_p(seq!["at"@]),
        rep_p(CharClass::Space, 1, many()),
        rep_p(CharClass::Digit, 1, 2),
        lit_p(":"@),
        rep_p(CharClass::Digit, 2, 2),
        group_p(":"@, CharClass::Digit, 2, 2),
        rep_p(CharClass::Space, 0, many()),
        ampm_p(),
        rep_p(CharClass::Space, 1, many()),
        rep_p(CharClass::ZoneChar, 3, 6),
    ]
}

/// The pieces of [`month_mdy_hms_z_shape`].
pub fn month_mdy_hms_z_pieces() -> (v: Vec<Piece>)
    ensures
        pieces_view(v@) == month_mdy_hms_z_shape(),
{
    let mut v: Vec<Piece> = Vec::new();
    v.push(rep(CharClass::Letter, 3, 9));
    v.push(rep(CharClass::Space, 0, usize::MAX));
    v.push(opt_one(str_chars("the")));
    v.push(rep(CharClass::Space, 1, usize::MAX));
    v.push(rep(CharClass::Digit, 1, 2));
    v.push(suffix());
    v.push(opt_one(str_chars(",")));
    v.push(rep(CharClass::Space, 1, usize::MAX));
    v.push(rep(CharClass::Digit, 4, 4));
    v.push(rep(CharClass::Space, 0, usize::MAX));
    v.push(opt_one(str_chars(",")));
    v.push(opt_one(str_chars("at")));
    v.push(rep(CharClass::Space, 1, usize::MAX));
    v.push(rep(CharClass::Digit, 1, 2));
    v.push(lit(str_chars(":")));
    v.push(rep(CharClass::Digit, 2, 2));
    v.push(group(str_chars(":"), CharClass::Digit, 2, 2));
    v.push(rep(CharClass::Space, 0, usize::MAX));
    v.push(ampm());
    v.push(rep(CharClass::Space, 1, usize::MAX));
    v.push(rep(CharClass::ZoneChar, 3, 6));
    assert(pieces_view(v@) =~= month_mdy_hms_z_shape());
    v
}

/// `^[a-zA-Z]{3,9}\.?\s*(the)?\s+[0-9]{1,2}(st|nd|rd|th)?,?\s+[0-9]{2,4}$`.
pub open spec fn month_mdy_shape() -> Seq<PieceSpec> {
    seq![
        rep_p(CharClass::Letter, 3, 9),
        opt_p(seq!["."@]),
        rep_p(CharClass::Space, 0, many()),
        opt_p(seq!["the"@]),
        rep_p(CharClass::Space, 1, many()),
        rep_p(CharClass::Digit, 1, 2),
        suffix_p(),
        opt_p(seq![","@]),
        rep_p(CharClass::Space, 1, many()),
        rep_p(CharClass::Digit, 2, 4),
    ]
}

/// The pieces of [`month_mdy_shape`].
pub fn month_mdy_pieces() -> (v: Vec<Piece>)
    ensures
        pieces_view(v@) == month_mdy_shape(),
{
    let mut v: Vec<Piece> = Vec::new();
    v.push(rep(CharClass::Letter, 3, 9));
    v.push(opt_one(str_chars(".")));
    v.push(rep(CharClass::Space, 0, usize::MAX));
    v.push(opt_one(str_chars("the")));
    v.push(rep(CharClass::Space, 1, usize::MAX));
    v.push(rep(CharClass::Digit, 1, 2));
    v.push(suffix());
    v.push(opt_one(str_chars(",")));
    v.push(rep(CharClass::Space, 1, usize::MAX));
    v.push(rep(CharClass::Digit, 2, 4));
    assert(pieces_view(v@) =~= month_mdy_shape());
    v
}

/// `^[0-9]{1,2}(st|nd|rd|th)?\s*(of)?\s+[a-zA-Z]{3,9},?\s+[0-9]{2,4},?\s*(at)?\s+[0-9]{1,2}:[0-9]{2}(:[0-9]{2})?(\.[0-9]{1,9})?\s*(am|pm|AM|PM)?$`.
pub open spec fn month_dmy_hms_shape() -> Seq<PieceSpec> {
    seq![
        rep_p(CharClass::Digit, 1, 2),
        suffix_p(),
        rep_p(CharClass::Space, 0, many()),
        opt_p(seq!["of"@]),
        rep_p(CharClass::Space, 1, many()),
        rep_p(CharClass::Letter, 3, 9),
        opt_p(seq![","@]),
        rep_p(CharClass::Space, 1, many()),
        rep_p(CharClass::Digit, 2, 4),
        opt_p(seq![","@]),
        rep_p(CharClass::Space, 0, many()),
        opt_p(seq!["at"@]),
        rep_p(CharClass::Space, 1, many()),
        rep_p(CharClass::Digit, 1, 2),
        lit_p(":"@),
        rep_p(CharClass::Digit, 2, 2),
        group_p(":"@, CharClass::Digit, 2, 2),
        group_p("."@, CharClass::Digit, 1, 9),
        rep_p(CharClass::Space, 0, many()),
        ampm_p(),
    ]
}

/// The pieces of [`month_dmy_hms_shape`].
pub fn month_dmy_hms_pieces() -> (v: Vec<Piece>)
    ensures
        pieces_view(v@) == month_dmy_hms_shape(),
{
    let mut v: Vec<Piece> = Vec::new();
    v.push(rep(CharClass::Digit, 1, 2));
    v.push(suffix());
    v.push(rep(CharClass::Space, 0, usize::MAX));
    v.push(opt_one(str_chars("of")));
    v.push(rep(CharClass::Space, 1, usize::MAX));
    v.push(rep(CharClass::Letter, 3, 9));
    v.push(opt_one(str_chars(",")));
    v.push(rep(CharClass::Space, 1, usize::MAX));
    v.push(rep(CharClass::Digit, 2, 4));
    v.push(opt_one(str_chars(",")));
    v.push(rep(CharClass::Space, 0, usize::MAX));
    v.push(opt_one(str_chars("at")));
    v.push(rep(CharClass::Space, 1, usize::MAX));
    v.push(rep(CharClass::Digit, 1, 2));
    v.push(lit(str_chars(":")));
    v.push(rep(CharClass::Digit, 2, 2));
    v.push(group(str_chars(":"), CharClass::Digit, 2, 2));
    v.push(group(str_chars("."), CharClass::Digit, 1, 9));
    v.push(rep(CharClass::Space, 0, usize::MAX));
    v.push(ampm());
    assert(pieces_view(v@) =~= month_dmy_hms_shape());
    v
}

/// `^[0-9]{1,2}(st|nd|rd|th)?\s*(of)?\s+[a-zA-Z]{3,9},?\s+[0-9]{2,4}$`.
pub open spec fn month_dmy_shape() -> Seq<PieceSpec> {
    seq![
        rep_p(CharClass::Digit, 1, 2),
        suffix_p(),
        rep_p(CharClass::Space, 0, many()),
        opt_p(seq!["of"@]),
        rep_p(CharClass::Space, 1, many()),
        rep_p(CharClass::Letter, 3, 9),
        opt_p(seq![","@]),
        rep_p(CharClass::Space, 1, many()),
        rep_p(CharClass::Digit, 2, 4),
    ]
}

/// The pieces of [`month_dmy_shape`].
pub fn month_dmy_pieces() -> (v: Vec<Piece>)
    ensures
        pieces_view(v@) == month_dmy_shape(),
{
    let mut v: Vec<Piece> = Vec::new();
    v.push(rep(CharClass::Digit, 1, 2));
    v.push(suffix());
    v.push(rep(CharClass::Space, 0, usize::MAX));
    v.push(opt_one(str_chars("of")));
    v.push(rep(CharClass::Space, 1, usize::MAX));
    v.push(rep(CharClass::Letter, 3, 9));
    v.push(opt_one(str_chars(",")));
    v.push(rep(CharClass::Space, 1, usize::MAX));
    v.push(rep(CharClass::Digit, 2, 4));
    assert(pieces_view(v@) =~= month_dmy_shape());
    v
}

/// `^[0-9]{1,2}(st|nd|rd|th)?\s*(of)?\s+[a-zA-Z]{3,9}$`.
pub open spec fn month_dm_shape() -> Seq<PieceSpec> {
    seq![
        rep_p(CharClass::Digit, 1, 2),
        suffix_p(),
        rep_p(CharClass::Space, 0, many()),
        opt_p(seq!["of"@]),
        rep_p(CharClass::Space, 1, many()),
        rep_p(CharClass::Letter, 3, 9),
    ]
}

/// The pieces of [`month_dm_shape`].
pub fn month_dm_pieces() -> (v: Vec<Piece>)
    ensures
        pieces_view(v@) == month_dm_shape(),
{
    let mut v: Vec<Piece> = Vec::new();
    v.push(rep(CharClass::Digit, 1, 2));
    v.push(suffix());
    v.push(rep(CharClass::Space, 0, usize::MAX));
    v.push(opt_one(str_chars("of")));
    v.push(rep(CharClass::Space, 1, usize::MAX));
    v.push(rep(CharClass::Letter, 3, 9));
    assert(pieces_view(v@) =~= month_dm_shape());
    v
}

/// `^[0-9]{1,2}(st|nd|rd|th)?\s*(of)?\s+[a-zA-Z]{3,9},?\s*(at)?\s+[0-9]{1,2}:[0-9]{2}(:[0-9]{2})?\s*(am|pm|AM|PM)?$`.
pub open spec fn month_dm_hms_shape() -> Seq<PieceSpec> {
    seq![
        rep_p(CharClass::Digit, 1, 2),
        suffix_p(),
        rep_p(CharClass::Space, 0, many()),
        opt_p(seq!["of"@]),
        rep_p(CharClass::Space, 1, many()),
        rep_p(CharClass::Letter, 3, 9),
        opt_p(seq![","@]),
        rep_p(CharClass::Space, 0, many()),
        opt_p(seq!["at"@]),
        rep_p(CharClass::Space, 1, many()),
        rep_p(CharClass::Digit, 1, 2),
        lit_p(":"@),
        rep_p(CharClass::Digit, 2, 2),
        group_p(":"@, CharClass::Digit, 2, 2),
        rep_p(CharClass::Space, 0, many()),
        ampm_p(),
    ]
}

/// The pieces of [`month_dm_hms_shape`].
pub fn month_dm_hms_pieces() -> (v: Vec<Piece>)
    ensures
        pieces_view(v@) == month_dm_hms_shape(),
{
    let mut v: Vec<Piece> = Vec::new();
    v.push(rep(CharClass::Digit, 1, 2));
    v.push(suffix());
    v.push(rep(CharClass::Space, 0, usize::MAX));
    v.push(opt_one(str_chars("of")));
    v.push(rep(CharClass::Space, 1, usize::MAX));
    v.push(rep(CharClass::Letter, 3, 9));
    v.push(opt_one(str_chars(",")));
    v.push(rep(CharClass::Space, 0, usize::MAX));
    v.push(opt_one(str_chars("at")));
    v.push(rep(CharClass::Space, 1, usize::MAX));
    v.push(rep(CharClass::Digit, 1, 2));
    v.push(lit(str_chars(":")));
    v.push(rep(CharClass::Digit, 2, 2));
    v.push(group(str_chars(":"), CharClass::Digit, 2, 2));
    v.push(rep(CharClass::Space, 0, usize::MAX));
    v.push(ampm());
    assert(pieces_view(v@) =~= month_dm_hms_shape());
    v
}

/// `^[0-9]{1,2}/[0-9]{1,2}/[0-9]{2,4},?\s*(at)?\s+[0-9]{1,2}:[0-9]{2}(:[0-9]{2})?(\.[0-9]{1,9})?\s*(am|pm|AM|PM)?$`.
pub open spec fn slash_dmy_hms_shape() -> Seq<PieceSpec> {
    seq![
        rep_p(CharClass::Digit, 1, 2),
        lit_p("/"@),
        rep_p(CharClass::Digit, 1, 2),
        lit_p("/"@),
        rep_p(CharClass::Digit, 2, 4),
        opt_p(seq![","@]),
        rep_p(CharClass::Space, 0, many()),
        opt_p(seq!["at"@]),
        rep_p(CharClass::Space, 1, many()),
        rep_p(CharClass::Digit, 1, 2),
        lit_p(":"@),
        rep_p(CharClass::Digit, 2, 2),
        group_p(":"@, CharClass::Digit, 2, 2),
        group_p("."@, CharClass::Digit, 1, 9),
        rep_p(CharClass::Space, 0, many()),
        ampm_p(),
    ]
}

/// The pieces of [`slash_dmy_hms_shape`].
pub fn slash_dmy_hms_pieces() -> (v: Vec<Piece>)
    ensures
        pieces_view(v@) == slash_dmy_hms_shape(),
{
    let mut v: Vec<Piece> = Vec::new();
    v.push(rep(CharClass::Digit, 1, 2));
    v.push(lit(str_chars("/")));
    v.push(rep(CharClass::Digit, 1, 2));
    v.push(lit(str_chars("/")));
    v.push(rep(CharClass::Digit, 2, 4));
    v.push(opt_one(str_chars(",")));
    v.push(rep(CharClass::Space, 0, usize::MAX));
    v.push(opt_one(str_chars("at")));
    v.push(rep(CharClass::Space, 1, usize::MAX));
    v.push(rep(CharClass::Digit, 1, 2));
    v.push(lit(str_chars(":")));
    v.push(rep(CharClass::Digit, 2, 2));
    v.push(group(str_chars(":"), CharClass::Digit, 2, 2));
    v.push(group(str_chars("."), CharClass::Digit, 1, 9));
    v.push(rep(CharClass::Space, 0, usize::MAX));
    v.push(ampm());
    assert(pieces_view(v@) =~= slash_dmy_hms_shape());
    v
}

/// `^[0-9]{1,2}/[0-9]{1,2}/[0-9]{2,4}$`.
pub open spec fn slash_dmy_shape() -> Seq<PieceSpec> {
    seq![
        rep_p(CharClass::Digit, 1, 2),
        lit_p("/"@),
        rep_p(CharClass::Digit, 1, 2),
        lit_p("/"@),
        rep_p(CharClass::Digit, 2, 4),
    ]
}

/// The pieces of [`slash_dmy_shape`].
pub fn slash_dmy_pieces() -> (v: Vec<Piece>)
    ensures
        pieces_view(v@) == slash_dmy_shape(),
{
    let mut v: Vec<Piece> = Vec::new();
    v.push(rep(CharClass::Digit, 1, 2));
    v.push(lit(str_chars("/")));
    v.push(rep(CharClass::Digit, 1, 2));
    v.push(lit(str_chars("/")));
    v.push(rep(CharClass::Digit, 2, 4));
    assert(pieces_view(v@) =~= slash_dmy_shape());
    v
}

/// `^[0-9]{4}/[0-9]{1,2}/[0-9]{1,2},?\s*(at)?\s+[0-9]{1,2}:[0-9]{2}(:[0-9]{2})?(\.[0-9]{1,9})?\s*(am|pm|AM|PM)?$`.
pub open spec fn slash_ymd_hms_shape() -> Seq<PieceSpec> {
    seq![
        rep_p(CharClass::Digit, 4, 4),
        lit_p("/"@),
        rep_p(CharClass::Digit, 1, 2),
        lit_p("/"@),
        rep_p(CharClass::Digit, 1, 2),
        opt_p(seq![","@]),
        rep_p(CharClass::Space, 0, many()),
        opt_p(seq!["at"@]),
        rep_p(CharClass::Space, 1, many()),
        rep_p(CharClass::Digit, 1, 2),
        lit_p(":"@),
        rep_p(CharClass::Digit, 2, 2),
        group_p(":"@, CharClass::Digit, 2, 2),
        group_p("."@, CharClass::Digit, 1, 9),
        rep_p(CharClass::Space, 0, many()),
        ampm_p(),
    ]
}

/// The pieces of [`slash_ymd_hms_shape`].
pub fn slash_ymd_hms_pieces() -> (v: Vec<Piece>)
    ensures
        pieces_view(v@) == slash_ymd_hms_shape(),
{
    let mut v: Vec<Piece> = Vec::new();
    v.push(rep(CharClass::Digit, 4, 4));
    v.push(lit(str_chars("/")));
    v.push(rep(CharClass::Digit, 1, 2));
    v.push(lit(str_chars("/")));
    v.push(rep(CharClass::Digit, 1, 2));
    v.push(opt_one(str_chars(",")));
    v.push(rep(CharClass::Space, 0, usize::MAX));
    v.push(opt_one(str_chars("at")));
    v.push(rep(CharClass::Space, 1, usize::MAX));
    v.push(rep(CharClass::Digit, 1, 2));
    v.push(lit(str_chars(":")));
    v.push(rep(CharClass::Digit, 2, 2));
    v.push(group(str_chars(":"), CharClass::Digit, 2, 2));
    v.push(group(str_chars("."), CharClass::Digit, 1, 9));
    v.push(rep(CharClass::Space, 0, usize::MAX));
    v.push(ampm());
    assert(pieces_view(v@) =~= slash_ymd_hms_shape());
    v
}

/// `^[0-9]{4}/[0-9]{1,2}/[0-9]{1,2}$`.
pub open spec fn slash_ymd_shape() -> Seq<PieceSpec> {
    seq![
        rep_p(CharClass::Digit, 4, 4),
        lit_p("/"@),
        rep_p(CharClass::Digit, 1, 2),
        lit_p("/"@),
        rep_p(CharClass::Digit, 1, 2),
    ]
}

/// The pieces of [`slash_ymd_shape`].
pub fn slash_ymd_pieces() -> (v: Vec<Piece>)
    ensures
        pieces_view(v@) == slash_ymd_shape(),
{
    let mut v: Vec<Piece> = Vec::new();
    v.push(rep(CharClass::Digit, 4, 4));
    v.push(lit(str_chars("/")));
    v.push(rep(CharClass::Digit, 1, 2));
    v.push(lit(str_chars("/")));
    v.push(rep(CharClass::Digit, 1, 2));
    assert(pieces_view(v@) =~= slash_ymd_shape());
    v
}

/// `[0-9]{1,4}.[0-9]{1,4}[0-9]{1,4}`, looked for anywhere.
pub open spec fn dot_date_shape() -> Seq<PieceSpec> {
    seq![
        rep_p(CharClass::Digit, 1, 4),
        rep_p(CharClass::NotNewline, 1, 1),
        rep_p(CharClass::Digit, 1, 4),
        rep_p(CharClass::Digit, 1, 4),
    ]
}

/// The pieces of [`dot_date_shape`].
pub fn dot_date_pieces() -> (v: Vec<Piece>)
    ensures
        pieces_view(v@) == dot_date_shape(),
{
    let mut v: Vec<Piece> = Vec::new();
    v.push(rep(CharClass::Digit, 1, 4));
    v.push(rep(CharClass::NotNewline, 1, 1));
    v.push(rep(CharClass::Digit, 1, 4));
    v.push(rep(CharClass::Digit, 1, 4));
    assert(pieces_view(v@) =~= dot_date_shape());
    v
}

/// `[0-9]{6}\s+[0-9]{2}:[0-9]{2}:[0-9]{2}`, looked for anywhere.
pub open spec fn mysql_log_shape() -> Seq<PieceSpec> {
    seq![
        rep_p(CharClass::Digit, 6, 6),
        rep_p(CharClass::Space, 1, many()),
        rep_p(CharClass::Digit, 2, 2),
        lit_p(":"@),
        rep_p(CharClass::Digit, 2, 2),
        lit_p(":"@),
        rep_p(CharClass::Digit, 2, 2),
    ]
}

/// The pieces of [`mysql_log_shape`].
pub fn mysql_log_pieces() -> (v: Vec<Piece>)
    ensures
        pieces_view(v@) == mysql_log_shape(),
{
    let mut v: Vec<Piece> = Vec::new();
    v.push(rep(CharClass::Digit, 6, 6));
    v.push(rep(CharClass::Space, 1, usize::MAX));
    v.push(rep(CharClass::Digit, 2, 2));
    v.push(lit(str_chars(":")));
    v.push(rep(CharClass::Digit, 2, 2));
    v.push(lit(str_chars(":")));
    v.push(rep(CharClass::Digit, 2, 2));
    assert(pieces_view(v@) =~= mysql_log_shape());
    v
}

/// `^[0-9]{4}年[0-9]{2}月[0-9]{2}日[0-9]{2}时[0-9]{2}分[0-9]{2}秒$`.
pub open spec fn chinese_ymd_hms_shape() -> Seq<PieceSpec> {
    seq![
        rep_p(CharClass::Digit, 4, 4),
        lit_p("年"@),
        rep_p(CharClass::Digit, 2, 2),
        lit_p("月"@),
        rep_p(CharClass::Digit, 2, 2),
        lit_p("日"@),
        rep_p(CharClass::Digit, 2, 2),
        lit_p("时"@),
        rep_p(CharClass::Digit, 2, 2),
        lit_p("分"@),
        rep_p(CharClass::Digit, 2, 2),
        lit_p("秒"@),
    ]
}

/// The pieces of [`chinese_ymd_hms_shape`].
pub fn chinese_ymd_hms_pieces() -> (v: Vec<Piece>)
    ensures
        pieces_view(v@) == chinese_ymd_hms_shape(),
{
    let mut v: Vec<Piece> = Vec::new();
    v.push(rep(CharClass::Digit, 4, 4));
    v.push(lit(str_chars("年")));
    v.push(rep(CharClass::Digit, 2, 2));
    v.push(lit(str_chars("月")));
    v.push(rep(CharClass::Digit, 2, 2));
    v.push(lit(str_chars("日")));
    v.push(rep(CharClass::Digit, 2, 2));
    v.push(lit(str_chars("时")));
    v.push(rep(CharClass::Digit, 2, 2));
    v.push(lit(str_chars("分")));
    v.push(rep(CharClass::Digit, 2, 2));
    v.push(lit(str_chars("秒")));
    assert(pieces_view(v@) =~= chinese_ymd_hms_shape());
    v
}

/// `^[0-9]{4}年[0-9]{2}月[0-9]{2}日$`.
pub open spec fn chinese_ymd_shape() -> Seq<PieceSpec> {
    seq![
        rep_p(CharClass::Digit, 4, 4),
        lit_p("年"@),
        rep_p(CharClass::Digit, 2, 2),
        lit_p("月"@),
        rep_p(CharClass::Digit, 2, 2),
        lit_p("日"@),
    ]
}

/// The pieces of [`chinese_ymd_shape`].
pub fn chinese_ymd_pieces() -> (v: Vec<Piece>)
    ensures
        pieces_view(v@) == chinese_ymd_shape(),
{
    let mut v: Vec<Piece> = Vec::new();
    v.push(rep(CharClass::Digit, 4, 4));
    v.push(lit(str_chars("年")));
    v.push(rep(CharClass::Digit, 2, 2));
    v.push(lit(str_chars("月")));
    v.push(rep(CharClass::Digit, 2, 2));
    v.push(lit(str_chars("日")));
    assert(pieces_view(v@) =~= chinese_ymd_shape());
    v
}

} // verus!
