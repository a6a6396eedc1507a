//! Parser of the ANSI data types.
//!
//! Several type keywords are prefixes of others (`CHAR` of `CHARACTER`,
//! `CHAR VARYING` and `CHAR LARGE OBJECT`; `DEC` of `DECIMAL` and `DECFLOAT`;
//! `INT` of `INTEGER`; `TIME` of `TIMESTAMP`), and a keyword is matched as a
//! prefix of the input. The keywords are therefore tried in the fixed order of
//! `type_keywords`, longest and most specific first, with the large object
//! forms before the plain character string forms. Changing that order breaks
//! every type whose keyword has a shorter sibling.
use vstd::prelude::*;

use crate::ansi::ast::data_types::{
    CharLengthUnits, CharacterLargeObjectLength, CharacterLength, DataType, ExactNumberInfo,
    LargeObjectLength, Multiplier, WithOrWithoutTimeZone,
};
use crate::common::parsers::{lift, slice_result, to_slice_result, u32_at, u32_spec};
use crate::common::tokens::{
    keyword_at, keyword_at_spec, match_keyword, lower, skip_ws, ws_end, Keyword,
};
use crate::common::ParseError;

verus! {

/// The type keywords in the order in which they are tried.
pub open spec fn type_keywords() -> Seq<Keyword> {
    seq![
        Keyword::CharacterLargeObject,
        Keyword::CharLargeObject,
        Keyword::Clob,
        Keyword::CharacterVarying,
        Keyword::CharVarying,
        Keyword::Character,
        Keyword::Varchar,
        Keyword::Char,
        Keyword::BinaryLargeObject,
        Keyword::Blob,
        Keyword::Varbinary,
        Keyword::BinaryVarying,
        Keyword::Binary,
        Keyword::DecFloat,
        Keyword::Decimal,
        Keyword::Numeric,
        Keyword::Dec,
        Keyword::Smallint,
        Keyword::Integer,
        Keyword::Bigint,
        Keyword::Int,
        Keyword::Float,
        Keyword::Real,
        Keyword::DoublePrecision,
        Keyword::Boolean,
        Keyword::Date,
        Keyword::Timestamp,
        Keyword::Time,
    ]
}

/// The first keyword of `ks` that stands at `p`.
pub open spec fn first_keyword(s: Seq<u8>, p: int, ks: Seq<Keyword>) -> Option<Keyword>
    decreases ks.len(),
{
    if ks.len() == 0 {
        None
    } else if keyword_at_spec(s, p, ks[0]) {
        Some(ks[0])
    } else {
        first_keyword(s, p, ks.drop_first())
    }
}

/// An optional part: where `r` fails, nothing is consumed from `q`.
pub open spec fn or_absent<T>(r: Option<(int, T)>, q: int) -> (int, Option<T>) {
    match r {
        Some((e, v)) => (e, Some(v)),
        None => (q, None),
    }
}

/// `(` and the whitespace after it.
pub open spec fn paren_open(s: Seq<u8>, q: int) -> Option<int> {
    if 0 <= q < s.len() && s[q] == 40 {
        Some(ws_end(s, q + 1))
    } else {
        None
    }
}

/// Whitespace and `)`.
pub open spec fn paren_close(s: Seq<u8>, q: int) -> Option<int> {
    let w = ws_end(s, q);
    if 0 <= w < s.len() && s[w] == 41 {
        Some(w + 1)
    } else {
        None
    }
}

/// Optional units, after at least one whitespace byte.
pub open spec fn units_spec(s: Seq<u8>, q: int) -> (int, Option<CharLengthUnits>) {
    let w = ws_end(s, q);
    if w > q && keyword_at_spec(s, w, Keyword::Octets) {
        (w + Keyword::Octets.text().len(), Some(CharLengthUnits::Octets))
    } else if w > q && keyword_at_spec(s, w, Keyword::Characters) {
        (w + Keyword::Characters.text().len(), Some(CharLengthUnits::Characters))
    } else {
        (q, None)
    }
}

/// `(<length> [<units>])`
pub open spec fn char_length_spec(s: Seq<u8>, q: int) -> Option<(int, CharacterLength)> {
    match paren_open(s, q) {
        None => None,
        Some(a) => match u32_spec(s, a) {
            None => None,
            Some((b, n)) => {
                let (c, u) = units_spec(s, b);
                match paren_close(s, c) {
                    None => None,
                    Some(d) => Some((d, CharacterLength { length: n, opt_units: u })),
                }
            },
        },
    }
}

/// The multiplier letter at `q`, in either case, if there is one.
pub open spec fn multiplier_spec(s: Seq<u8>, q: int) -> (int, Option<Multiplier>) {
    if 0 <= q < s.len() && lower(s[q]) == 107 {
        (q + 1, Some(Multiplier::K))
    } else if 0 <= q < s.len() && lower(s[q]) == 109 {
        (q + 1, Some(Multiplier::M))
    } else if 0 <= q < s.len() && lower(s[q]) == 103 {
        (q + 1, Some(Multiplier::G))
    } else if 0 <= q < s.len() && lower(s[q]) == 116 {
        (q + 1, Some(Multiplier::T))
    } else if 0 <= q < s.len() && lower(s[q]) == 112 {
        (q + 1, Some(Multiplier::P))
    } else {
        (q, None)
    }
}

/// `<unsigned integer>[<multiplier>]`
pub open spec fn lob_length_spec(s: Seq<u8>, q: int) -> Option<(int, LargeObjectLength)> {
    match u32_spec(s, q) {
        None => None,
        Some((b, n)) => {
            let (c, m) = multiplier_spec(s, b);
            Some((c, LargeObjectLength { length: n, multiplier: m }))
        },
    }
}

/// `(<large object length> [<units>])`
pub open spec fn clob_length_spec(s: Seq<u8>, q: int) -> Option<(int, CharacterLargeObjectLength)> {
    match paren_open(s, q) {
        None => None,
        Some(a) => match lob_length_spec(s, a) {
            None => None,
            Some((b, l)) => {
                let (c, u) = units_spec(s, b);
                match paren_close(s, c) {
                    None => None,
                    Some(d) => Some((d, CharacterLargeObjectLength { length: l, opt_units: u })),
                }
            },
        },
    }
}

/// `(<large object length>)`
pub open spec fn lob_paren_spec(s: Seq<u8>, q: int) -> Option<(int, LargeObjectLength)> {
    match paren_open(s, q) {
        None => None,
        Some(a) => match lob_length_spec(s, a) {
            None => None,
            Some((b, l)) => match paren_close(s, b) {
                None => None,
                Some(d) => Some((d, l)),
            },
        },
    }
}

/// `(<unsigned integer>)`
pub open spec fn u32_paren_spec(s: Seq<u8>, q: int) -> Option<(int, u32)> {
    match paren_open(s, q) {
        None => None,
        Some(a) => match u32_spec(s, a) {
            None => None,
            Some((b, n)) => match paren_close(s, b) {
                None => None,
                Some(d) => Some((d, n)),
            },
        },
    }
}

/// `(<precision>, <scale>)`, else `(<precision>)`, else nothing.
pub open spec fn exact_number_info_spec(s: Seq<u8>, q: int) -> (int, ExactNumberInfo) {
    let pair = match paren_open(s, q) {
        None => None,
        Some(a) => match u32_spec(s, a) {
            None => None,
            Some((b, pr)) => {
                let w = ws_end(s, b);
                if 0 <= w < s.len() && s[w] == 44 {
                    match u32_spec(s, ws_end(s, w + 1)) {
                        None => None,
                        Some((c, sc)) => match paren_close(s, c) {
                            None => None,
                            Some(d) => Some((d, ExactNumberInfo::PrecisionAndScale(pr, sc))),
                        },
                    }
                } else {
                    None
                }
            },
        },
    };
    match pair {
        Some(r) => r,
        None => match u32_paren_spec(s, q) {
            Some((d, pr)) => (d, ExactNumberInfo::Precision(pr)),
            None => (q, ExactNumberInfo::Unspecified),
        },
    }
}

/// ` WITHOUT TIME ZONE`, else ` WITH TIME ZONE`, else nothing; at least one
/// whitespace byte before the marker.
pub open spec fn time_zone_spec(s: Seq<u8>, q: int) -> (int, WithOrWithoutTimeZone) {
    let w = ws_end(s, q);
    if w > q && keyword_at_spec(s, w, Keyword::WithoutTimeZone) {
        (w + Keyword::WithoutTimeZone.text().len(), WithOrWithoutTimeZone::WithoutTimeZone)
    } else if w > q && keyword_at_spec(s, w, Keyword::WithTimeZone) {
        (w + Keyword::WithTimeZone.text().len(), WithOrWithoutTimeZone::WithTimeZone)
    } else {
        (q, WithOrWithoutTimeZone::Unspecified)
    }
}

/// What follows the type keyword `k`, which ends at `q`. The character string
/// types take the whitespace after their keyword; the binary and decimal
/// floating point types allow whitespace before their parenthesis.
pub open spec fn type_suffix_spec(k: Keyword, s: Seq<u8>, q: int) -> Option<(int, DataType)> {
    let w = ws_end(s, q);
    match k {
        Keyword::CharacterLargeObject => {
            let (e, l) = or_absent(clob_length_spec(s, q), q);
            Some((e, DataType::CharacterLargeObject(l)))
        },
        Keyword::CharLargeObject => {
            let (e, l) = or_absent(clob_length_spec(s, q), q);
            Some((e, DataType::CharLargeObject(l)))
        },
        Keyword::Clob => {
            let (e, l) = or_absent(clob_length_spec(s, q), q);
            Some((e, DataType::Clob(l)))
        },
        Keyword::CharacterVarying => {
            let (e, l) = or_absent(char_length_spec(s, w), w);
            Some((e, DataType::CharacterVarying(l)))
        },
        Keyword::CharVarying => {
            let (e, l) = or_absent(char_length_spec(s, w), w);
            Some((e, DataType::CharVarying(l)))
        },
        Keyword::Character => {
            let (e, l) = or_absent(char_length_spec(s, w), w);
            Some((e, DataType::Character(l)))
        },
        Keyword::Varchar => {
            let (e, l) = or_absent(char_length_spec(s, w), w);
            Some((e, DataType::Varchar(l)))
        },
        Keyword::Char => {
            let (e, l) = or_absent(char_length_spec(s, w), w);
            Some((e, DataType::Char(l)))
        },
        Keyword::BinaryLargeObject => {
            let (e, l) = or_absent(lob_paren_spec(s, w), q);
            Some((e, DataType::BinaryLargeObject(l)))
        },
        Keyword::Blob => {
            let (e, l) = or_absent(lob_paren_spec(s, w), q);
            Some((e, DataType::Blob(l)))
        },
        Keyword::Varbinary => {
            let (e, n) = or_absent(u32_paren_spec(s, w), q);
            Some((e, DataType::Varbinary(n)))
        },
        Keyword::BinaryVarying => {
            let (e, n) = or_absent(u32_paren_spec(s, w), q);
            Some((e, DataType::BinaryVarying(n)))
        },
        Keyword::Binary => {
            let (e, n) = or_absent(u32_paren_spec(s, w), q);
            Some((e, DataType::Binary(n)))
        },
        Keyword::DecFloat => {
            let (e, n) = or_absent(u32_paren_spec(s, w), q);
            Some((e, DataType::DecFloat(n)))
        },
        Keyword::Decimal => {
            let (e, i) = exact_number_info_spec(s, q);
            Some((e, DataType::Decimal(i)))
        },
        Keyword::Numeric => {
            let (e, i) = exact_number_info_spec(s, q);
            Some((e, DataType::Numeric(i)))
        },
        Keyword::Dec => {
            let (e, i) = exact_number_info_spec(s, q);
            Some((e, DataType::Dec(i)))
        },
        Keyword::Smallint => Some((q, DataType::Smallint)),
        Keyword::Integer => Some((q, DataType::Integer)),
        Keyword::Bigint => Some((q, DataType::Bigint)),
        Keyword::Int => Some((q, DataType::Int)),
        Keyword::Float => Some((q, DataType::Float)),
        Keyword::Real => Some((q, DataType::Real)),
        Keyword::DoublePrecision => Some((q, DataType::DoublePrecision)),
        Keyword::Boolean => Some((q, DataType::Boolean)),
        Keyword::Date => Some((q, DataType::Date)),
        Keyword::Timestamp => {
            let (a, n) = or_absent(u32_paren_spec(s, q), q);
            let (b, tz) = time_zone_spec(s, a);
            Some((b, DataType::Timestamp(n, tz)))
        },
        Keyword::Time => {
            let (a, n) = or_absent(u32_paren_spec(s, q), q);
            let (b, tz) = time_zone_spec(s, a);
            Some((b, DataType::Time(n, tz)))
        },
        _ => None,
    }
}

/// A data type at `p`: the first type keyword, in the order of
/// `type_keywords`, that stands there, and what follows it.
pub open spec fn data_type_spec(s: Seq<u8>, p: int) -> Option<(int, DataType)> {
    match first_keyword(s, p, type_keywords()) {
        Some(k) => type_suffix_spec(k, s, p + k.text().len()),
        None => None,
    }
}

/// An offset result seen as an integer.
pub open spec fn lift_pos(r: Option<usize>) -> Option<int> {
    match r {
        Some(q) => Some(q as int),
        None => None,
    }
}

fn paren_open_at(s: &[u8], q: usize) -> (r: Option<usize>)
    requires
        q <= s@.len(),
    ensures
        lift_pos(r) == paren_open(s@, q as int),
        r matches Some(a) ==> q < a <= s@.len(),
{
    if q < s.len() && s[q] == 40 {
        Some(skip_ws(s, q + 1))
    } else {
        None
    }
}

fn paren_close_at(s: &[u8], q: usize) -> (r: Option<usize>)
    requires
        q <= s@.len(),
    ensures
        lift_pos(r) == paren_close(s@, q as int),
        r matches Some(a) ==> q < a <= s@.len(),
{
    let w = skip_ws(s, q);
    if w < s.len() && s[w] == 41 {
        Some(w + 1)
    } else {
        None
    }
}

fn units_at(s: &[u8], q: usize) -> (r: (usize, Option<CharLengthUnits>))
    requires
        q <= s@.len(),
    ensures
        (r.0 as int, r.1) == units_spec(s@, q as int),
        q <= r.0 <= s@.len(),
{
    let w = skip_ws(s, q);
    if w == q {
        return (q, None);
    }
    match match_keyword(s, w, Keyword::Octets) {
        Some(e) => (e, Some(CharLengthUnits::Octets)),
        None => match match_keyword(s, w, Keyword::Characters) {
            Some(e) => (e, Some(CharLengthUnits::Characters)),
            None => (q, None),
        },
    }
}

fn char_length_at(s: &[u8], q: usize) -> (r: Option<(usize, CharacterLength)>)
    requires
        q <= s@.len(),
    ensures
        lift(r) == char_length_spec(s@, q as int),
        r matches Some((e, _)) ==> q < e <= s@.len(),
{
    let a = match paren_open_at(s, q) {
        Some(a) => a,
        None => return None,
    };
    let (b, n) = match u32_at(s, a) {
        Some(x) => x,
        None => return None,
    };
    let (c, u) = units_at(s, b);
    match paren_close_at(s, c) {
        Some(d) => Some((d, CharacterLength { length: n, opt_units: u })),
        None => None,
    }
}

fn multiplier_at(s: &[u8], q: usize) -> (r: (usize, Option<Multiplier>))
    requires
        q <= s@.len(),
    ensures
        (r.0 as int, r.1) == multiplier_spec(s@, q as int),
        q <= r.0 <= s@.len(),
{
    if q >= s.len() {
        return (q, None);
    }
    let b = s[q];
    let l = if 65 <= b && b <= 90 {
        b + 32
    } else {
        b
    };
    if l == 107 {
        (q + 1, Some(Multiplier::K))
    } else if l == 109 {
        (q + 1, Some(Multiplier::M))
    } else if l == 103 {
        (q + 1, Some(Multiplier::G))
    } else if l == 116 {
        (q + 1, Some(Multiplier::T))
    } else if l == 112 {
        (q + 1, Some(Multiplier::P))
    } else {
        (q, None)
    }
}

fn lob_length_at(s: &[u8], q: usize) -> (r: Option<(usize, LargeObjectLength)>)
    requires
        q <= s@.len(),
    ensures
        lift(r) == lob_length_spec(s@, q as int),
        r matches Some((e, _)) ==> q < e <= s@.len(),
{
    let (b, n) = match u32_at(s, q) {
        Some(x) => x,
        None => return None,
    };
    let (c, m) = multiplier_at(s, b);
    Some((c, LargeObjectLength { length: n, multiplier: m }))
}

fn clob_length_at(s: &[u8], q: usize) -> (r: Option<(usize, CharacterLargeObjectLength)>)
    requires
        q <= s@.len(),
    ensures
        lift(r) == clob_length_spec(s@, q as int),
        r matches Some((e, _)) ==> q < e <= s@.len(),
{
    let a = match paren_open_at(s, q) {
        Some(a) => a,
        None => return None,
    };
    let (b, l) = match lob_length_at(s, a) {
        Some(x) => x,
        None => return None,
    };
    let (c, u) = units_at(s, b);
    match paren_close_at(s, c) {
        Some(d) => Some((d, CharacterLargeObjectLength { length: l, opt_units: u })),
        None => None,
    }
}

fn lob_paren_at(s: &[u8], q: usize) -> (r: Option<(usize, LargeObjectLength)>)
    requires
        q <= s@.len(),
    ensures
        lift(r) == lob_paren_spec(s@, q as int),
        r matches Some((e, _)) ==> q < e <= s@.len(),
{
    let a = match paren_open_at(s, q) {
        Some(a) => a,
        None => return None,
    };
    let (b, l) = match lob_length_at(s, a) {
        Some(x) => x,
        None => return None,
    };
    match paren_close_at(s, b) {
        Some(d) => Some((d, l)),
        None => None,
    }
}

fn u32_paren_at(s: &[u8], q: usize) -> (r: Option<(usize, u32)>)
    requires
        q <= s@.len(),
    ensures
        lift(r) == u32_paren_spec(s@, q as int),
        r matches Some((e, _)) ==> q < e <= s@.len(),
{
    let a = match paren_open_at(s, q) {
        Some(a) => a,
        None => return None,
    };
    let (b, n) = match u32_at(s, a) {
        Some(x) => x,
        None => return None,
    };
    match paren_close_at(s, b) {
        Some(d) => Some((d, n)),
        None => None,
    }
}

fn precision_and_scale_at(s: &[u8], q: usize) -> (r: Option<(usize, ExactNumberInfo)>)
    requires
        q <= s@.len(),
    ensures
        r matches Some((e, i)) ==> exact_number_info_spec(s@, q as int) == (e as int, i) && q
            <= e <= s@.len(),
        r is None ==> exact_number_info_spec(s@, q as int) == match u32_paren_spec(s@, q as int) {
            Some((d, pr)) => (d, ExactNumberInfo::Precision(pr)),
            None => (q as int, ExactNumberInfo::Unspecified),
        },
{
    let a = match paren_open_at(s, q) {
        Some(a) => a,
        None => return None,
    };
    let (b, pr) = match u32_at(s, a) {
        Some(x) => x,
        None => return None,
    };
    let w = skip_ws(s, b);
    if w < s.len() && s[w] == 44 {
        let w2 = skip_ws(s, w + 1);
        let (c, sc) = match u32_at(s, w2) {
            Some(x) => x,
            None => return None,
        };
        match paren_close_at(s, c) {
            Some(d) => Some((d, ExactNumberInfo::PrecisionAndScale(pr, sc))),
            None => None,
        }
    } else {
        None
    }
}

fn exact_number_info_at(s: &[u8], q: usize) -> (r: (usize, ExactNumberInfo))
    requires
        q <= s@.len(),
    ensures
        (r.0 as int, r.1) == exact_number_info_spec(s@, q as int),
        q <= r.0 <= s@.len(),
{
    match precision_and_scale_at(s, q) {
        Some(x) => x,
        None => match u32_paren_at(s, q) {
            Some((d, pr)) => (d, ExactNumberInfo::Precision(pr)),
            None => (q, ExactNumberInfo::Unspecified),
        },
    }
}

fn time_zone_at(s: &[u8], q: usize) -> (r: (usize, WithOrWithoutTimeZone))
    requires
        q <= s@.len(),
    ensures
        (r.0 as int, r.1) == time_zone_spec(s@, q as int),
        q <= r.0 <= s@.len(),
{
    let w = skip_ws(s, q);
    if w == q {
        return (q, WithOrWithoutTimeZone::Unspecified);
    }
    match match_keyword(s, w, Keyword::WithoutTimeZone) {
        Some(e) => (e, WithOrWithoutTimeZone::WithoutTimeZone),
        None => match match_keyword(s, w, Keyword::WithTimeZone) {
            Some(e) => (e, WithOrWithoutTimeZone::WithTimeZone),
            None => (q, WithOrWithoutTimeZone::Unspecified),
        },
    }
}

/// Finds the first type keyword, in the order of `type_keywords`, that
/// stands at `p`.
fn type_keyword_at(s: &[u8], p: usize) -> (r: Option<Keyword>)
    ensures
        r == first_keyword(s@, p as int, type_keywords()),
{
    let order: [Keyword; 28] = [
        Keyword::CharacterLargeObject,
        Keyword::CharLargeObject,
        Keyword::Clob,
        Keyword::CharacterVarying,
        Keyword::CharVarying,
        Keyword::Character,
        Keyword::Varchar,
        Keyword::Char,
        Keyword::BinaryLargeObject,
        Keyword::Blob,
        Keyword::Varbinary,
        Keyword::BinaryVarying,
        Keyword::Binary,
        Keyword::DecFloat,
        Keyword::Decimal,
        Keyword::Numeric,
        Keyword::Dec,
        Keyword::Smallint,
        Keyword::Integer,
        Keyword::Bigint,
        Keyword::Int,
        Keyword::Float,
        Keyword::Real,
        Keyword::DoublePrecision,
        Keyword::Boolean,
        Keyword::Date,
        Keyword::Timestamp,
        Keyword::Time,
    ];
    let ks: &[Keyword] = &order;
    assert(ks@ =~= type_keywords());
    assert(ks@.subrange(0, ks@.len() as int) =~= ks@);
    let mut i: usize = 0;
    while i < ks.len()
        invariant
            0 <= i <= ks@.len(),
            ks@ == type_keywords(),
            first_keyword(s@, p as int, type_keywords()) == first_keyword(
                s@,
                p as int,
                ks@.subrange(i as int, ks@.len() as int),
            ),
        decreases ks@.len() - i,
    {
        let k = ks[i];
        assert(ks@.subrange(i as int, ks@.len() as int).drop_first() =~= ks@.subrange(
            i + 1,
            ks@.len() as int,
        ));
        if keyword_at(s, p, k) {
            return Some(k);
        }
        i = i + 1;
    }
    None
}

/// Parses what follows the type keyword `k`, which ends at `q`.
fn type_suffix_at(k: Keyword, s: &[u8], q: usize) -> (r: Option<(usize, DataType)>)
    requires
        q <= s@.len(),
    ensures
        lift(r) == type_suffix_spec(k, s@, q as int),
        r matches Some((e, _)) ==> q <= e <= s@.len(),
{
    let w = skip_ws(s, q);
    match k {
        Keyword::CharacterLargeObject => match clob_length_at(s, q) {
            Some((e, l)) => Some((e, DataType::CharacterLargeObject(Some(l)))),
            None => Some((q, DataType::CharacterLargeObject(None))),
        },
        Keyword::CharLargeObject => match clob_length_at(s, q) {
            Some((e, l)) => Some((e, DataType::CharLargeObject(Some(l)))),
            None => Some((q, DataType::CharLargeObject(None))),
        },
        Keyword::Clob => match clob_length_at(s, q) {
            Some((e, l)) => Some((e, DataType::Clob(Some(l)))),
            None => Some((q, DataType::Clob(None))),
        },
        Keyword::CharacterVarying => match char_length_at(s, w) {
            Some((e, l)) => Some((e, DataType::CharacterVarying(Some(l)))),
            None => Some((w, DataType::CharacterVarying(None))),
        },
        Keyword::CharVarying => match char_length_at(s, w) {
            Some((e, l)) => Some((e, DataType::CharVarying(Some(l)))),
            None => Some((w, DataType::CharVarying(None))),
        },
        Keyword::Character => match char_length_at(s, w) {
            Some((e, l)) => Some((e, DataType::Character(Some(l)))),
            None => Some((w, DataType::Character(None))),
        },
        Keyword::Varchar => match char_length_at(s, w) {
            Some((e, l)) => Some((e, DataType::Varchar(Some(l)))),
            None => Some((w, DataType::Varchar(None))),
        },
        Keyword::Char => match char_length_at(s, w) {
            Some((e, l)) => Some((e, DataType::Char(Some(l)))),
            None => Some((w, DataType::Char(None))),
        },
        Keyword::BinaryLargeObject => match lob_paren_at(s, w) {
            Some((e, l)) => Some((e, DataType::BinaryLargeObject(Some(l)))),
            None => Some((q, DataType::BinaryLargeObject(None))),
        },
        Keyword::Blob => match lob_paren_at(s, w) {
            Some((e, l)) => Some((e, DataType::Blob(Some(l)))),
            None => Some((q, DataType::Blob(None))),
        },
        Keyword::Varbinary => match u32_paren_at(s, w) {
            Some((e, n)) => Some((e, DataType::Varbinary(Some(n)))),
            None => Some((q, DataType::Varbinary(None))),
        },
        Keyword::BinaryVarying => match u32_paren_at(s, w) {
            Some((e, n)) => Some((e, DataType::BinaryVarying(Some(n)))),
            None => Some((q, DataType::BinaryVarying(None))),
        },
        Keyword::Binary => match u32_paren_at(s, w) {
            Some((e, n)) => Some((e, DataType::Binary(Some(n)))),
            None => Some((q, DataType::Binary(None))),
        },
        Keyword::DecFloat => match u32_paren_at(s, w) {
            Some((e, n)) => Some((e, DataType::DecFloat(Some(n)))),
            None => Some((q, DataType::DecFloat(None))),
        },
        Keyword::Decimal => {
            let (e, i) = exact_number_info_at(s, q);
            Some((e, DataType::Decimal(i)))
        },
        Keyword::Numeric => {
            let (e, i) = exact_number_info_at(s, q);
            Some((e, DataType::Numeric(i)))
        },
        Keyword::Dec => {
            let (e, i) = exact_number_info_at(s, q);
            Some((e, DataType::Dec(i)))
        },
        Keyword::Smallint => Some((q, DataType::Smallint)),
        Keyword::Integer => Some((q, DataType::Integer)),
        Keyword::Bigint => Some((q, DataType::Bigint)),
        Keyword::Int => Some((q, DataType::Int)),
        Keyword::Float => Some((q, DataType::Float)),
        Keyword::Real => Some((q, DataType::Real)),
        Keyword::DoublePrecision => Some((q, DataType::DoublePrecision)),
        Keyword::Boolean => Some((q, DataType::Boolean)),
        Keyword::Date => Some((q, DataType::Date)),
        Keyword::Timestamp => {
            let (a, n) = match u32_paren_at(s, q) {
                Some((a, n)) => (a, Some(n)),
                None => (q, None),
            };
            let (b, tz) = time_zone_at(s, a);
            Some((b, DataType::Timestamp(n, tz)))
        },
        Keyword::Time => {
            let (a, n) = match u32_paren_at(s, q) {
                Some((a, n)) => (a, Some(n)),
                None => (q, None),
            };
            let (b, tz) = time_zone_at(s, a);
            Some((b, DataType::Time(n, tz)))
        },
        _ => None,
    }
}

/// Parses a data type at `p`.
pub fn data_type_at(s: &[u8], p: usize) -> (r: Option<(usize, DataType)>)
    requires
        p <= s@.len(),
    ensures
        lift(r) == data_type_spec(s@, p as int),
        r matches Some((e, _)) ==> p < e <= s@.len(),
{
    match type_keyword_at(s, p) {
        Some(k) => {
            proof {
                lemma_first_keyword_matches(s@, p as int, type_keywords());
                lemma_type_keywords_not_empty(k);
            }
            let q = match match_keyword(s, p, k) {
                Some(q) => q,
                None => return None,
            };
            type_suffix_at(k, s, q)
        },
        None => None,
    }
}

proof fn lemma_first_keyword_matches(s: Seq<u8>, p: int, ks: Seq<Keyword>)
    ensures
        first_keyword(s, p, ks) matches Some(k) ==> keyword_at_spec(s, p, k) && ks.contains(k),
    decreases ks.len(),
{
    if ks.len() > 0 && !keyword_at_spec(s, p, ks[0]) {
        lemma_first_keyword_matches(s, p, ks.drop_first());
        if let Some(k) = first_keyword(s, p, ks) {
            let i = choose|i: int| 0 <= i < ks.drop_first().len() && ks.drop_first()[i] == k;
            assert(ks[i + 1] == k);
        }
    } else if ks.len() > 0 {
        assert(ks[0] == ks[0]);
    }
}

proof fn lemma_type_keywords_not_empty(k: Keyword)
    requires
        type_keywords().contains(k),
    ensures
        k.text().len() > 0,
{
    let i = choose|i: int| 0 <= i < type_keywords().len() && type_keywords()[i] == k;
    assert(type_keywords()[i] == k);
}

/// Parses an `ANSI` data type at the start of the input.
///
/// The type keywords are tried in the order of `type_keywords`; the first
/// that matches decides the type, and its optional size, precision or time
/// zone parts follow. Fails, recoverably, where no type keyword stands at the
/// start.
pub fn data_type(input: &[u8]) -> (r: Result<(&[u8], DataType), ParseError>)
    ensures
        slice_result(input@, r, data_type_spec(input@, 0)),
{
    let r = data_type_at(input, 0);
    to_slice_result(input, r)
}

} // verus!
