//! Lexical parsers: identifiers, unsigned integers, whitespace runs, special
//! characters and the statement terminator.
//!
//! Each parser comes in two forms. The `_at` form reads `s` from an offset and
//! returns the offset where it stopped; the form without suffix takes a slice
//! and returns the unconsumed remainder, in the manner of a combinator parser.
use vstd::prelude::*;

use crate::common::tokens::{
    ident_end, inline_ws_end, is_alpha, is_digit, is_ident_byte, is_inline_ws, lemma_ws_end_bounds,
    skip_digits, skip_ident, skip_inline_ws, skip_ws, special_character, special_character_of,
    digit_end, ws_end, SqlSpecialCharacter,
};
use crate::common::{ErrorKind, Ident, IdentModel, ParseError, QuoteStyle};

verus! {

/// The result of an offset parser, seen through the views of its value.
pub open spec fn lift<T: View>(r: Option<(usize, T)>) -> Option<(int, T::V)> {
    match r {
        Some((q, v)) => Some((q as int, v@)),
        None => None,
    }
}

/// A lexical mismatch at `offset`.
pub open spec fn lexical(offset: int) -> ParseError {
    ParseError { kind: ErrorKind::LexicalMismatch, offset: offset as usize }
}

/// How a slice parser's result stands to the offset parser's meaning `m` on
/// input `i`: on success the remainder is the input from the end offset on, and
/// the value is the one that `m` gives; on failure `m` gives nothing and the
/// error is a lexical mismatch at the start.
pub open spec fn slice_result<T: View>(
    i: Seq<u8>,
    r: Result<(&[u8], T), ParseError>,
    m: Option<(int, T::V)>,
) -> bool {
    match r {
        Ok((rest, v)) => {
            &&& m == Some((i.len() - rest@.len(), v@))
            &&& rest@ == i.subrange(i.len() - rest@.len(), i.len() as int)
        },
        Err(e) => m is None && e == lexical(0),
    }
}

/// Turns the result of an offset parser started at 0 into a slice result.
pub fn to_slice_result<'a, T: View>(i: &'a [u8], r: Option<(usize, T)>) -> (res: Result<
    (&'a [u8], T),
    ParseError,
>)
    requires
        r matches Some((q, _)) ==> q <= i@.len(),
    ensures
        slice_result(i@, res, lift(r)),
{
    match r {
        Some((q, v)) => {
            let rest = &i[q..i.len()];
            Ok((rest, v))
        },
        None => Err(ParseError { kind: ErrorKind::LexicalMismatch, offset: 0 }),
    }
}

/// An identifier at `p`, after any whitespace: either `"` identifier bytes `"`
/// (at least one byte between the quotes), or an ASCII letter followed by
/// identifier bytes.
pub open spec fn ident_spec(s: Seq<u8>, p: int) -> Option<(int, IdentModel)> {
    let q = ws_end(s, p);
    if q < s.len() && s[q] == 34 {
        let e = ident_end(s, q + 1);
        if e > q + 1 && e < s.len() && s[e] == 34 {
            Some(
                (
                    e + 1,
                    IdentModel {
                        value: s.subrange(q + 1, e),
                        quote_style: QuoteStyle::DoubleQuote,
                    },
                ),
            )
        } else {
            None
        }
    } else if q < s.len() && is_alpha(s[q]) {
        let e = ident_end(s, q);
        Some((e, IdentModel { value: s.subrange(q, e), quote_style: QuoteStyle::Unquoted }))
    } else {
        None
    }
}

pub proof fn lemma_ident_bounds(s: Seq<u8>, p: int)
    requires
        0 <= p <= s.len(),
    ensures
        ident_spec(s, p) matches Some((q, _)) ==> p < q <= s.len(),
{
    lemma_ws_end_bounds(s, p);
    let q = ws_end(s, p);
    if q < s.len() {
        lemma_ident_end_bounds(s, q);
        lemma_ident_end_bounds(s, q + 1);
    }
}

pub proof fn lemma_ident_end_bounds(s: Seq<u8>, p: int)
    requires
        0 <= p <= s.len(),
    ensures
        p <= ident_end(s, p) <= s.len(),
    decreases s.len() - p,
{
    if p < s.len() && is_ident_byte(s[p]) {
        lemma_ident_end_bounds(s, p + 1);
    }
}

/// Parses an identifier at `p`, skipping whitespace before it.
pub fn ident_at(s: &[u8], p: usize) -> (r: Option<(usize, Ident)>)
    requires
        p <= s@.len(),
    ensures
        lift(r) == ident_spec(s@, p as int),
        r matches Some((q, _)) ==> p < q <= s@.len(),
{
    proof {
        lemma_ident_bounds(s@, p as int);
    }
    let q = skip_ws(s, p);
    if q < s.len() && s[q] == 34 {
        let e = skip_ident(s, q + 1);
        if e > q + 1 && e < s.len() && s[e] == 34 {
            let v = Ident::new_quoted(&s[q + 1..e], QuoteStyle::DoubleQuote);
            Some((e + 1, v))
        } else {
            None
        }
    } else if q < s.len() && 65 <= s[q] && s[q] <= 90 || q < s.len() && 97 <= s[q] && s[q]
        <= 122 {
        let e = skip_ident(s, q);
        let v = Ident::new(&s[q..e]);
        Some((e, v))
    } else {
        None
    }
}

/// Parses a SQL identifier at the start of `i`, skipping whitespace before it.
///
/// An identifier is either double quoted (`"name_1"`, one or more identifier
/// bytes between the quotes) or unquoted (an ASCII letter, then ASCII letters,
/// digits, `_` or `@`).
pub fn ident(i: &[u8]) -> (r: Result<(&[u8], Ident), ParseError>)
    ensures
        slice_result(i@, r, ident_spec(i@, 0)),
{
    let r = ident_at(i, 0);
    to_slice_result(i, r)
}

/// The value of a run of decimal digits.
pub open spec fn digits_value(d: Seq<u8>) -> nat
    decreases d.len(),
{
    if d.len() == 0 {
        0
    } else {
        digits_value(d.drop_last()) * 10 + (d.last() - 48) as nat
    }
}

/// An unsigned 32-bit integer at `p`: the whole run of decimal digits there,
/// at least one, whose value fits in 32 bits.
pub open spec fn u32_spec(s: Seq<u8>, p: int) -> Option<(int, u32)> {
    let e = digit_end(s, p);
    if p < e && digits_value(s.subrange(p, e)) <= u32::MAX {
        Some((e, digits_value(s.subrange(p, e)) as u32))
    } else {
        None
    }
}

proof fn lemma_digits_prefix(d: Seq<u8>, k: int)
    requires
        0 <= k <= d.len(),
        forall|i: int| 0 <= i < d.len() ==> is_digit(#[trigger] d[i]),
    ensures
        digits_value(d.subrange(0, k)) <= digits_value(d),
    decreases d.len(),
{
    if k < d.len() {
        let t = d.drop_last();
        lemma_digits_prefix(t, k);
        assert(t.subrange(0, k) =~= d.subrange(0, k));
    } else {
        assert(d.subrange(0, k) =~= d);
    }
}

pub proof fn lemma_digit_end_bounds(s: Seq<u8>, p: int)
    requires
        0 <= p <= s.len(),
    ensures
        p <= digit_end(s, p) <= s.len(),
    decreases s.len() - p,
{
    if p < s.len() && is_digit(s[p]) {
        lemma_digit_end_bounds(s, p + 1);
    }
}

/// Parses an unsigned 32-bit integer at `p`.
pub fn u32_at(s: &[u8], p: usize) -> (r: Option<(usize, u32)>)
    requires
        p <= s@.len(),
    ensures
        lift(r) == u32_spec(s@, p as int),
        r matches Some((q, _)) ==> p < q <= s@.len(),
{
    let e = skip_digits(s, p);
    if e == p {
        return None;
    }
    let mut acc: u64 = 0;
    let mut j = p;
    while j < e
        invariant
            p <= j <= e <= s@.len(),
            e == digit_end(s@, p as int),
            forall|i: int| p <= i < e ==> is_digit(#[trigger] s@[i]),
            acc == digits_value(s@.subrange(p as int, j as int)),
            acc <= u32::MAX,
        decreases e - j,
    {
        let d = (s[j] - 48) as u64;
        assert(s@.subrange(p as int, j + 1).drop_last() =~= s@.subrange(p as int, j as int));
        let next = acc * 10 + d;
        if next > u32::MAX as u64 {
            proof {
                let run = s@.subrange(p as int, e as int);
                lemma_digits_prefix(run, j + 1 - p);
                assert(run.subrange(0, j + 1 - p) =~= s@.subrange(p as int, j + 1));
            }
            return None;
        }
        acc = next;
        j = j + 1;
    }
    Some((e, acc as u32))
}

/// The whitespace run at the start of `i`, possibly empty, and what follows it.
pub fn whitespace0(input: &[u8]) -> (r: (&[u8], &[u8]))
    ensures
        r.1@ == input@.subrange(0, ws_end(input@, 0)),
        r.0@ == input@.subrange(ws_end(input@, 0), input@.len() as int),
{
    let q = skip_ws(input, 0);
    (&input[q..input.len()], &input[0..q])
}

/// The whitespace run at the start of `i`, which must not be empty, and what
/// follows it.
pub fn whitespace1(input: &[u8]) -> (r: Result<(&[u8], &[u8]), ParseError>)
    ensures
        match r {
            Ok((rest, ws)) => {
                &&& ws_end(input@, 0) > 0
                &&& ws@ == input@.subrange(0, ws_end(input@, 0))
                &&& rest@ == input@.subrange(ws_end(input@, 0), input@.len() as int)
            },
            Err(e) => ws_end(input@, 0) == 0 && e == lexical(0),
        },
{
    let q = skip_ws(input, 0);
    if q == 0 {
        return Err(ParseError { kind: ErrorKind::LexicalMismatch, offset: 0 });
    }
    Ok((&input[q..input.len()], &input[0..q]))
}

/// The end of a statement at `p`: whitespace that breaks no line, then a
/// semicolon, a line break (`\n` or `\r\n`) or the end of the input, then any
/// whitespace.
pub open spec fn terminator_spec(s: Seq<u8>, p: int) -> Option<int> {
    let q = inline_ws_end(s, p);
    if q == s.len() {
        Some(q)
    } else if q < s.len() && (s[q] == 59 || s[q] == 10) {
        Some(ws_end(s, q + 1))
    } else if q + 1 < s.len() && s[q] == 13 && s[q + 1] == 10 {
        Some(ws_end(s, q + 2))
    } else {
        None
    }
}

pub proof fn lemma_inline_ws_end_bounds(s: Seq<u8>, p: int)
    requires
        0 <= p <= s.len(),
    ensures
        p <= inline_ws_end(s, p) <= s.len(),
    decreases s.len() - p,
{
    if p < s.len() && is_inline_ws(s[p]) {
        lemma_inline_ws_end_bounds(s, p + 1);
    }
}

/// Parses the end of a statement at `p`.
pub fn terminator_at(s: &[u8], p: usize) -> (r: Option<usize>)
    requires
        p <= s@.len(),
    ensures
        r matches Some(q) ==> terminator_spec(s@, p as int) == Some(q as int) && p <= q <= s@.len(),
        r is None ==> terminator_spec(s@, p as int) is None,
{
    let q = skip_inline_ws(s, p);
    if q == s.len() {
        Some(q)
    } else if s[q] == 59 || s[q] == 10 {
        Some(skip_ws(s, q + 1))
    } else if q + 1 < s.len() && s[q] == 13 && s[q + 1] == 10 {
        Some(skip_ws(s, q + 2))
    } else {
        None
    }
}

/// Parses the terminator that ends a SQL statement, returning the remaining
/// input: whitespace, then a semicolon, a line break or the end of the input,
/// then whitespace. What remains, if anything, is the next statement.
pub fn statement_terminator(i: &[u8]) -> (r: Result<(&[u8], ()), ParseError>)
    ensures
        match r {
            Ok((rest, _)) => {
                &&& terminator_spec(i@, 0) == Some(i@.len() - rest@.len())
                &&& rest@ == i@.subrange(i@.len() - rest@.len(), i@.len() as int)
            },
            Err(e) => terminator_spec(i@, 0) is None && e == lexical(0),
        },
{
    match terminator_at(i, 0) {
        Some(q) => Ok((&i[q..i.len()], ())),
        None => Err(ParseError { kind: ErrorKind::LexicalMismatch, offset: 0 }),
    }
}

/// Parses one SQL special character at the start of `i`.
pub fn sql_special_character(i: &[u8]) -> (r: Result<(&[u8], SqlSpecialCharacter), ParseError>)
    ensures
        match r {
            Ok((rest, c)) => {
                &&& i@.len() > 0
                &&& special_character_of(i@[0]) == Some(c)
                &&& rest@ == i@.subrange(1, i@.len() as int)
            },
            Err(e) => (i@.len() == 0 || special_character_of(i@[0]) is None) && e == lexical(0),
        },
{
    if i.len() == 0 {
        return Err(ParseError { kind: ErrorKind::LexicalMismatch, offset: 0 });
    }
    match special_character(i[0]) {
        Some(c) => Ok((&i[1..i.len()], c)),
        None => Err(ParseError { kind: ErrorKind::LexicalMismatch, offset: 0 }),
    }
}

} // verus!
