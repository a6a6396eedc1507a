//! Laws of the data type grammar: the canonical text of every data type
//! parses back to that type, and no type keyword is taken for a shorter one
//! that is tried before it.
use vstd::prelude::*;

use crate::ansi::ast::data_types::{
    decimal, opt_u32_sql, opt_units_sql, parenthesized, CharLengthUnits, CharacterLargeObjectLength,
    CharacterLength, DataType, ExactNumberInfo, LargeObjectLength, WithOrWithoutTimeZone,
};
use crate::ansi::parser::data_types::{
    char_length_spec, clob_length_spec, data_type_spec, exact_number_info_spec, first_keyword,
    lob_length_spec, lob_paren_spec, time_zone_spec, type_keywords, u32_paren_spec, units_spec,
};
use crate::common::parsers::{digits_value, u32_spec};
use crate::common::tokens::{
    digit_end, is_digit, is_ws, keyword_at_spec, lower, tag_at, ws_end, Keyword,
};
use vstd::arithmetic::div_mod::lemma_fundamental_div_mod;

verus! {

/// Whether `x` stands in `s` at `p`, byte for byte.
pub open spec fn occurs_at(s: Seq<u8>, p: int, x: Seq<u8>) -> bool {
    &&& 0 <= p
    &&& p + x.len() <= s.len()
    &&& forall|i: int| 0 <= i < x.len() ==> #[trigger] s[p + i] == x[i]
}

pub proof fn lemma_occurs_index(s: Seq<u8>, p: int, x: Seq<u8>, i: int)
    requires
        occurs_at(s, p, x),
        0 <= i < x.len(),
    ensures
        s[p + i] == x[i],
{
}

pub proof fn lemma_tag_index(s: Seq<u8>, p: int, t: Seq<u8>, i: int)
    requires
        tag_at(s, p, t),
        0 <= i < t.len(),
    ensures
        lower(s[p + i]) == lower(t[i]),
{
}

/// The byte at `e`, if any, may end a data type inside a statement: `,` or
/// `)`.
pub open spec fn ends_data_type(s: Seq<u8>, e: int) -> bool {
    e == s.len() || (0 <= e < s.len() && (s[e] == 44 || s[e] == 41))
}

/// What may follow the canonical text of a type keyword: what ends a data
/// type, `(`, or, after `TIME` and `TIMESTAMP`, a space.
pub open spec fn may_follow_keyword(k: Keyword, s: Seq<u8>, q: int) -> bool {
    ends_data_type(s, q) || (0 <= q < s.len() && (s[q] == 40 || (s[q] == 32 && (k
        == Keyword::Time || k == Keyword::Timestamp))))
}

/// Where a type keyword stands at `p`, followed by what may follow it, no
/// keyword before it in `type_keywords` matches there.
#[verifier::spinoff_prover]
proof fn lemma_keyword_first(k: Keyword, s: Seq<u8>, p: int)
    requires
        type_keywords().contains(k),
        occurs_at(s, p, k.text()),
        may_follow_keyword(k, s, p + k.text().len()),
    ensures
        first_keyword(s, p, type_keywords()) == Some(k),
{
    lemma_occurs_keyword(s, p, k);
    match k {
        Keyword::CharacterLargeObject => {
            reveal_with_fuel(first_keyword, 2);
        },
        Keyword::CharLargeObject => {
            reveal_with_fuel(first_keyword, 3);
            lemma_occurs_index(s, p, k.text(), 4);
            assert(s[p + 4] == 32u8);
            if keyword_at_spec(s, p, Keyword::CharacterLargeObject) {
                lemma_tag_index(s, p, Keyword::CharacterLargeObject.text(), 4);
            }
        },
        Keyword::Clob => {
            reveal_with_fuel(first_keyword, 4);
            lemma_occurs_index(s, p, k.text(), 1);
            assert(s[p + 1] == 76u8);
            if keyword_at_spec(s, p, Keyword::CharacterLargeObject) {
                lemma_tag_index(s, p, Keyword::CharacterLargeObject.text(), 1);
            }
            if keyword_at_spec(s, p, Keyword::CharLargeObject) {
                lemma_tag_index(s, p, Keyword::CharLargeObject.text(), 1);
            }
        },
        Keyword::CharacterVarying => {
            reveal_with_fuel(first_keyword, 5);
            lemma_occurs_index(s, p, k.text(), 1);
            lemma_occurs_index(s, p, k.text(), 4);
            lemma_occurs_index(s, p, k.text(), 10);
            assert(s[p + 1] == 72u8 && s[p + 4] == 65u8 && s[p + 10] == 86u8);
            if keyword_at_spec(s, p, Keyword::CharacterLargeObject) {
                lemma_tag_index(s, p, Keyword::CharacterLargeObject.text(), 10);
            }
            if keyword_at_spec(s, p, Keyword::CharLargeObject) {
                lemma_tag_index(s, p, Keyword::CharLargeObject.text(), 4);
            }
            if keyword_at_spec(s, p, Keyword::Clob) {
                lemma_tag_index(s, p, Keyword::Clob.text(), 1);
            }
        },
        Keyword::CharVarying => {
            reveal_with_fuel(first_keyword, 6);
            lemma_occurs_index(s, p, k.text(), 1);
            lemma_occurs_index(s, p, k.text(), 4);
            lemma_occurs_index(s, p, k.text(), 5);
            assert(s[p + 1] == 72u8 && s[p + 4] == 32u8 && s[p + 5] == 86u8);
            if keyword_at_spec(s, p, Keyword::CharacterLargeObject) {
                lemma_tag_index(s, p, Keyword::CharacterLargeObject.text(), 4);
            }
            if keyword_at_spec(s, p, Keyword::CharLargeObject) {
                lemma_tag_index(s, p, Keyword::CharLargeObject.text(), 5);
            }
            if keyword_at_spec(s, p, Keyword::Clob) {
                lemma_tag_index(s, p, Keyword::Clob.text(), 1);
            }
            if keyword_at_spec(s, p, Keyword::CharacterVarying) {
                lemma_tag_index(s, p, Keyword::CharacterVarying.text(), 4);
            }
        },
        Keyword::Character => {
            reveal_with_fuel(first_keyword, 7);
            lemma_occurs_index(s, p, k.text(), 1);
            lemma_occurs_index(s, p, k.text(), 4);
            assert(s[p + 1] == 72u8 && s[p + 4] == 65u8);
            if keyword_at_spec(s, p, Keyword::CharacterLargeObject) {
                lemma_tag_index(s, p, Keyword::CharacterLargeObject.text(), 9);
            }
            if keyword_at_spec(s, p, Keyword::CharLargeObject) {
                lemma_tag_index(s, p, Keyword::CharLargeObject.text(), 4);
            }
            if keyword_at_spec(s, p, Keyword::Clob) {
                lemma_tag_index(s, p, Keyword::Clob.text(), 1);
            }
            if keyword_at_spec(s, p, Keyword::CharacterVarying) {
                lemma_tag_index(s, p, Keyword::CharacterVarying.text(), 9);
            }
            if keyword_at_spec(s, p, Keyword::CharVarying) {
                lemma_tag_index(s, p, Keyword::CharVarying.text(), 4);
            }
        },
        Keyword::Varchar => {
            reveal_with_fuel(first_keyword, 8);
            lemma_occurs_index(s, p, k.text(), 0);
            assert(s[p + 0] == 86u8);
            if keyword_at_spec(s, p, Keyword::CharacterLargeObject) {
                lemma_tag_index(s, p, Keyword::CharacterLargeObject.text(), 0);
            }
            if keyword_at_spec(s, p, Keyword::CharLargeObject) {
                lemma_tag_index(s, p, Keyword::CharLargeObject.text(), 0);
            }
            if keyword_at_spec(s, p, Keyword::Clob) {
                lemma_tag_index(s, p, Keyword::Clob.text(), 0);
            }
            if keyword_at_spec(s, p, Keyword::CharacterVarying) {
                lemma_tag_index(s, p, Keyword::CharacterVarying.text(), 0);
            }
            if keyword_at_spec(s, p, Keyword::CharVarying) {
                lemma_tag_index(s, p, Keyword::CharVarying.text(), 0);
            }
            if keyword_at_spec(s, p, Keyword::Character) {
                lemma_tag_index(s, p, Keyword::Character.text(), 0);
            }
        },
        Keyword::Char => {
            reveal_with_fuel(first_keyword, 9);
            lemma_occurs_index(s, p, k.text(), 0);
            lemma_occurs_index(s, p, k.text(), 1);
            assert(s[p + 0] == 67u8 && s[p + 1] == 72u8);
            if keyword_at_spec(s, p, Keyword::CharacterLargeObject) {
                lemma_tag_index(s, p, Keyword::CharacterLargeObject.text(), 4);
            }
            if keyword_at_spec(s, p, Keyword::CharLargeObject) {
                lemma_tag_index(s, p, Keyword::CharLargeObject.text(), 4);
            }
            if keyword_at_spec(s, p, Keyword::Clob) {
                lemma_tag_index(s, p, Keyword::Clob.text(), 1);
            }
            if keyword_at_spec(s, p, Keyword::CharacterVarying) {
                lemma_tag_index(s, p, Keyword::CharacterVarying.text(), 4);
            }
            if keyword_at_spec(s, p, Keyword::CharVarying) {
                lemma_tag_index(s, p, Keyword::CharVarying.text(), 4);
            }
            if keyword_at_spec(s, p, Keyword::Character) {
                lemma_tag_index(s, p, Keyword::Character.text(), 4);
            }
            if keyword_at_spec(s, p, Keyword::Varchar) {
                lemma_tag_index(s, p, Keyword::Varchar.text(), 0);
            }
        },
        Keyword::BinaryLargeObject => {
            reveal_with_fuel(first_keyword, 10);
            lemma_occurs_index(s, p, k.text(), 0);
            assert(s[p + 0] == 66u8);
            if keyword_at_spec(s, p, Keyword::CharacterLargeObject) {
                lemma_tag_index(s, p, Keyword::CharacterLargeObject.text(), 0);
            }
            if keyword_at_spec(s, p, Keyword::CharLargeObject) {
                lemma_tag_index(s, p, Keyword::CharLargeObject.text(), 0);
            }
            if keyword_at_spec(s, p, Keyword::Clob) {
                lemma_tag_index(s, p, Keyword::Clob.text(), 0);
            }
            if keyword_at_spec(s, p, Keyword::CharacterVarying) {
                lemma_tag_index(s, p, Keyword::CharacterVarying.text(), 0);
            }
            if keyword_at_spec(s, p, Keyword::CharVarying) {
                lemma_tag_index(s, p, Keyword::CharVarying.text(), 0);
            }
            if keyword_at_spec(s, p, Keyword::Character) {
                lemma_tag_index(s, p, Keyword::Character.text(), 0);
            }
            if keyword_at_spec(s, p, Keyword::Varchar) {
                lemma_tag_index(s, p, Keyword::Varchar.text(), 0);
            }
            if keyword_at_spec(s, p, Keyword::Char) {
                lemma_tag_index(s, p, Keyword::Char.text(), 0);
            }
        },
        Keyword::Blob => {
            reveal_with_fuel(first_keyword, 11);
            lemma_occurs_index(s, p, k.text(), 0);
            lemma_occurs_index(s, p, k.text(), 1);
            assert(s[p + 0] == 66u8 && s[p + 1] == 76u8);
            if keyword_at_spec(s, p, Keyword::CharacterLargeObject) {
                lemma_tag_index(s, p, Keyword::CharacterLargeObject.text(), 0);
            }
            if keyword_at_spec(s, p, Keyword::CharLargeObject) {
                lemma_tag_index(s, p, Keyword::CharLargeObject.text(), 0);
            }
            if keyword_at_spec(s, p, Keyword::Clob) {
                lemma_tag_index(s, p, Keyword::Clob.text(), 0);
            }
            if keyword_at_spec(s, p, Keyword::CharacterVarying) {
                lemma_tag_index(s, p, Keyword::CharacterVarying.text(), 0);
            }
            if keyword_at_spec(s, p, Keyword::CharVarying) {
                lemma_tag_index(s, p, Keyword::CharVarying.text(), 0);
            }
            if keyword_at_spec(s, p, Keyword::Character) {
                lemma_tag_index(s, p, Keyword::Character.text(), 0);
            }
            if keyword_at_spec(s, p, Keyword::Varchar) {
                lemma_tag_index(s, p, Keyword::Varchar.text(), 0);
            }
            if keyword_at_spec(s, p, Keyword::Char) {
                lemma_tag_index(s, p, Keyword::Char.text(), 0);
            }
            if keyword_at_spec(s, p, Keyword::BinaryLargeObject) {
                lemma_tag_index(s, p, Keyword::BinaryLargeObject.text(), 1);
            }
        },
        Keyword::Varbinary => {
            reveal_with_fuel(first_keyword, 12);
            lemma_occurs_index(s, p, k.text(), 0);
            lemma_occurs_index(s, p, k.text(), 3);
            assert(s[p + 0] == 86u8 && s[p + 3] == 66u8);
            if keyword_at_spec(s, p, Keyword::CharacterLargeObject) {
                lemma_tag_index(s, p, Keyword::CharacterLargeObject.text(), 0);
            }
            if keyword_at_spec(s, p, Keyword::CharLargeObject) {
                lemma_tag_index(s, p, Keyword::CharLargeObject.text(), 0);
            }
            if keyword_at_spec(s, p, Keyword::Clob) {
                lemma_tag_index(s, p, Keyword::Clob.text(), 0);
            }
            if keyword_at_spec(s, p, Keyword::CharacterVarying) {
                lemma_tag_index(s, p, Keyword::CharacterVarying.text(), 0);
            }
            if keyword_at_spec(s, p, Keyword::CharVarying) {
                lemma_tag_index(s, p, Keyword::CharVarying.text(), 0);
            }
            if keyword_at_spec(s, p, Keyword::Character) {
                lemma_tag_index(s, p, Keyword::Character.text(), 0);
            }
            if keyword_at_spec(s, p, Keyword::Varchar) {
                lemma_tag_index(s, p, Keyword::Varchar.text(), 3);
            }
            if keyword_at_spec(s, p, Keyword::Char) {
                lemma_tag_index(s, p, Keyword::Char.text(), 0);
            }
            if keyword_at_spec(s, p, Keyword::BinaryLargeObject) {
                lemma_tag_index(s, p, Keyword::BinaryLargeObject.text(), 0);
            }
            if keyword_at_spec(s, p, Keyword::Blob) {
                lemma_tag_index(s, p, Keyword::Blob.text(), 0);
            }
        },
        Keyword::BinaryVarying => {
            reveal_with_fuel(first_keyword, 13);
            lemma_occurs_index(s, p, k.text(), 0);
            lemma_occurs_index(s, p, k.text(), 1);
            lemma_occurs_index(s, p, k.text(), 7);
            assert(s[p + 0] == 66u8 && s[p + 1] == 73u8 && s[p + 7] == 86u8);
            if keyword_at_spec(s, p, Keyword::CharacterLargeObject) {
                lemma_tag_index(s, p, Keyword::CharacterLargeObject.text(), 0);
            }
            if keyword_at_spec(s, p, Keyword::CharLargeObject) {
                lemma_tag_index(s, p, Keyword::CharLargeObject.text(), 0);
            }
            if keyword_at_spec(s, p, Keyword::Clob) {
                lemma_tag_index(s, p, Keyword::Clob.text(), 0);
            }
            if keyword_at_spec(s, p, Keyword::CharacterVarying) {
                lemma_tag_index(s, p, Keyword::CharacterVarying.text(), 0);
            }
            if keyword_at_spec(s, p, Keyword::CharVarying) {
                lemma_tag_index(s, p, Keyword::CharVarying.text(), 0);
            }
            if keyword_at_spec(s, p, Keyword::Character) {
                lemma_tag_index(s, p, Keyword::Character.text(), 0);
            }
            if keyword_at_spec(s, p, Keyword::Varchar) {
                lemma_tag_index(s, p, Keyword::Varchar.text(), 0);
            }
            if keyword_at_spec(s, p, Keyword::Char) {
                lemma_tag_index(s, p, Keyword::Char.text(), 0);
            }
            if keyword_at_spec(s, p, Keyword::BinaryLargeObject) {
                lemma_tag_index(s, p, Keyword::BinaryLargeObject.text(), 7);
            }
            if keyword_at_spec(s, p, Keyword::Blob) {
                lemma_tag_index(s, p, Keyword::Blob.text(), 1);
            }
            if keyword_at_spec(s, p, Keyword::Varbinary) {
                lemma_tag_index(s, p, Keyword::Varbinary.text(), 0);
            }
        },
        Keyword::Binary => {
            reveal_with_fuel(first_keyword, 14);
            lemma_occurs_index(s, p, k.text(), 0);
            lemma_occurs_index(s, p, k.text(), 1);
            assert(s[p + 0] == 66u8 && s[p + 1] == 73u8);
            if keyword_at_spec(s, p, Keyword::CharacterLargeObject) {
                lemma_tag_index(s, p, Keyword::CharacterLargeObject.text(), 0);
            }
            if keyword_at_spec(s, p, Keyword::CharLargeObject) {
                lemma_tag_index(s, p, Keyword::CharLargeObject.text(), 0);
            }
            if keyword_at_spec(s, p, Keyword::Clob) {
                lemma_tag_index(s, p, Keyword::Clob.text(), 0);
            }
            if keyword_at_spec(s, p, Keyword::CharacterVarying) {
                lemma_tag_index(s, p, Keyword::CharacterVarying.text(), 0);
            }
            if keyword_at_spec(s, p, Keyword::CharVarying) {
                lemma_tag_index(s, p, Keyword::CharVarying.text(), 0);
            }
            if keyword_at_spec(s, p, Keyword::Character) {
                lemma_tag_index(s, p, Keyword::Character.text(), 0);
            }
            if keyword_at_spec(s, p, Keyword::Varchar) {
                lemma_tag_index(s, p, Keyword::Varchar.text(), 0);
            }
            if keyword_at_spec(s, p, Keyword::Char) {
                lemma_tag_index(s, p, Keyword::Char.text(), 0);
            }
            if keyword_at_spec(s, p, Keyword::BinaryLargeObject) {
                lemma_tag_index(s, p, Keyword::BinaryLargeObject.text(), 6);
            }
            if keyword_at_spec(s, p, Keyword::Blob) {
                lemma_tag_index(s, p, Keyword::Blob.text(), 1);
            }
            if keyword_at_spec(s, p, Keyword::Varbinary) {
                lemma_tag_index(s, p, Keyword::Varbinary.text(), 0);
            }
            if keyword_at_spec(s, p, Keyword::BinaryVarying) {
                lemma_tag_index(s, p, Keyword::BinaryVarying.text(), 6);
            }
        },
        Keyword::DecFloat => {
            reveal_with_fuel(first_keyword, 15);
            lemma_occurs_index(s, p, k.text(), 0);
            assert(s[p + 0] == 68u8);
            if keyword_at_spec(s, p, Keyword::CharacterLargeObject) {
                lemma_tag_index(s, p, Keyword::CharacterLargeObject.text(), 0);
            }
            if keyword_at_spec(s, p, Keyword::CharLargeObject) {
                lemma_tag_index(s, p, Keyword::CharLargeObject.text(), 0);
            }
            if keyword_at_spec(s, p, Keyword::Clob) {
                lemma_tag_index(s, p, Keyword::Clob.text(), 0);
            }
            if keyword_at_spec(s, p, Keyword::CharacterVarying) {
                lemma_tag_index(s, p, Keyword::CharacterVarying.text(), 0);
            }
            if keyword_at_spec(s, p, Keyword::CharVarying) {
                lemma_tag_index(s, p, Keyword::CharVarying.text(), 0);
            }
            if keyword_at_spec(s, p, Keyword::Character) {
                lemma_tag_index(s, p, Keyword::Character.text(), 0);
            }
            if keyword_at_spec(s, p, Keyword::Varchar) {
                lemma_tag_index(s, p, Keyword::Varchar.text(), 0);
            }
            if keyword_at_spec(s, p, Keyword::Char) {
                lemma_tag_index(s, p, Keyword::Char.text(), 0);
            }
            if keyword_at_spec(s, p, Keyword::BinaryLargeObject) {
                lemma_tag_index(s, p, Keyword::BinaryLargeObject.text(), 0);
            }
            if keyword_at_spec(s, p, Keyword::Blob) {
                lemma_tag_index(s, p, Keyword::Blob.text(), 0);
            }
            if keyword_at_spec(s, p, Keyword::Varbinary) {
                lemma_tag_index(s, p, Keyword::Varbinary.text(), 0);
            }
            if keyword_at_spec(s, p, Keyword::BinaryVarying) {
                lemma_tag_index(s, p, Keyword::BinaryVarying.text(), 0);
            }
            if keyword_at_spec(s, p, Keyword::Binary) {
                lemma_tag_index(s, p, Keyword::Binary.text(), 0);
            }
        },
        Keyword::Decimal => {
            reveal_with_fuel(first_keyword, 16);
            lemma_occurs_index(s, p, k.text(), 0);
            lemma_occurs_index(s, p, k.text(), 3);
            assert(s[p + 0] == 68u8 && s[p + 3] == 73u8);
            if keyword_at_spec(s, p, Keyword::CharacterLargeObject) {
                lemma_tag_index(s, p, Keyword::CharacterLargeObject.text(), 0);
            }
            if keyword_at_spec(s, p, Keyword::CharLargeObject) {
                lemma_tag_index(s, p, Keyword::CharLargeObject.text(), 0);
            }
            if keyword_at_spec(s, p, Keyword::Clob) {
                lemma_tag_index(s, p, Keyword::Clob.text(), 0);
            }
            if keyword_at_spec(s, p, Keyword::CharacterVarying) {
                lemma_tag_index(s, p, Keyword::CharacterVarying.text(), 0);
            }
            if keyword_at_spec(s, p, Keyword::CharVarying) {
                lemma_tag_index(s, p, Keyword::CharVarying.text(), 0);
            }
            if keyword_at_spec(s, p, Keyword::Character) {
                lemma_tag_index(s, p, Keyword::Character.text(), 0);
            }
            if keyword_at_spec(s, p, Keyword::Varchar) {
                lemma_tag_index(s, p, Keyword::Varchar.text(), 0);
            }
            if keyword_at_spec(s, p, Keyword::Char) {
                lemma_tag_index(s, p, Keyword::Char.text(), 0);
            }
            if keyword_at_spec(s, p, Keyword::BinaryLargeObject) {
                lemma_tag_index(s, p, Keyword::BinaryLargeObject.text(), 0);
            }
            if keyword_at_spec(s, p, Keyword::Blob) {
                lemma_tag_index(s, p, Keyword::Blob.text(), 0);
            }
            if keyword_at_spec(s, p, Keyword::Varbinary) {
                lemma_tag_index(s, p, Keyword::Varbinary.text(), 0);
            }
            if keyword_at_spec(s, p, Keyword::BinaryVarying) {
                lemma_tag_index(s, p, Keyword::BinaryVarying.text(), 0);
            }
            if keyword_at_spec(s, p, Keyword::Binary) {
                lemma_tag_index(s, p, Keyword::Binary.text(), 0);
            }
            if keyword_at_spec(s, p, Keyword::DecFloat) {
                lemma_tag_index(s, p, Keyword::DecFloat.text(), 3);
            }
        },
        Keyword::Numeric => {
            reveal_with_fuel(first_keyword, 17);
            lemma_occurs_index(s, p, k.text(), 0);
            assert(s[p + 0] == 78u8);
            if keyword_at_spec(s, p, Keyword::CharacterLargeObject) {
                lemma_tag_index(s, p, Keyword::CharacterLargeObject.text(), 0);
            }
            if keyword_at_spec(s, p, Keyword::CharLargeObject) {
                lemma_tag_index(s, p, Keyword::CharLargeObject.text(), 0);
            }
            if keyword_at_spec(s, p, Keyword::Clob) {
                lemma_tag_index(s, p, Keyword::Clob.text(), 0);
            }
            if keyword_at_spec(s, p, Keyword::CharacterVarying) {
                lemma_tag_index(s, p, Keyword::CharacterVarying.text(), 0);
            }
            if keyword_at_spec(s, p, Keyword::CharVarying) {
                lemma_tag_index(s, p, Keyword::CharVarying.text(), 0);
            }
            if keyword_at_spec(s, p, Keyword::Character) {
                lemma_tag_index(s, p, Keyword::Character.text(), 0);
            }
            if keyword_at_spec(s, p, Keyword::Varchar) {
                lemma_tag_index(s, p, Keyword::Varchar.text(), 0);
            }
            if keyword_at_spec(s, p, Keyword::Char) {
                lemma_tag_index(s, p, Keyword::Char.text(), 0);
            }
            if keyword_at_spec(s, p, Keyword::BinaryLargeObject) {
                lemma_tag_index(s, p, Keyword::BinaryLargeObject.text(), 0);
            }
            if keyword_at_spec(s, p, Keyword::Blob) {
                lemma_tag_index(s, p, Keyword::Blob.text(), 0);
            }
            if keyword_at_spec(s, p, Keyword::Varbinary) {
                lemma_tag_index(s, p, Keyword::Varbinary.text(), 0);
            }
            if keyword_at_spec(s, p, Keyword::BinaryVarying) {
                lemma_tag_index(s, p, Keyword::BinaryVarying.text(), 0);
            }
            if keyword_at_spec(s, p, Keyword::Binary) {
                lemma_tag_index(s, p, Keyword::Binary.text(), 0);
            }
            if keyword_at_spec(s, p, Keyword::DecFloat) {
                lemma_tag_index(s, p, Keyword::DecFloat.text(), 0);
            }
            if keyword_at_spec(s, p, Keyword::Decimal) {
                lemma_tag_index(s, p, Keyword::Decimal.text(), 0);
            }
        },
        Keyword::Dec => {
            reveal_with_fuel(first_keyword, 18);
            lemma_occurs_index(s, p, k.text(), 0);
            assert(s[p + 0] == 68u8);
            if keyword_at_spec(s, p, Keyword::CharacterLargeObject) {
                lemma_tag_index(s, p, Keyword::CharacterLargeObject.text(), 0);
            }
            if keyword_at_spec(s, p, Keyword::CharLargeObject) {
                lemma_tag_index(s, p, Keyword::CharLargeObject.text(), 0);
            }
            if keyword_at_spec(s, p, Keyword::Clob) {
                lemma_tag_index(s, p, Keyword::Clob.text(), 0);
            }
            if keyword_at_spec(s, p, Keyword::CharacterVarying) {
                lemma_tag_index(s, p, Keyword::CharacterVarying.text(), 0);
            }
            if keyword_at_spec(s, p, Keyword::CharVarying) {
                lemma_tag_index(s, p, Keyword::CharVarying.text(), 0);
            }
            if keyword_at_spec(s, p, Keyword::Character) {
                lemma_tag_index(s, p, Keyword::Character.text(), 0);
            }
            if keyword_at_spec(s, p, Keyword::Varchar) {
                lemma_tag_index(s, p, Keyword::Varchar.text(), 0);
            }
            if keyword_at_spec(s, p, Keyword::Char) {
                lemma_tag_index(s, p, Keyword::Char.text(), 0);
            }
            if keyword_at_spec(s, p, Keyword::BinaryLargeObject) {
                lemma_tag_index(s, p, Keyword::BinaryLargeObject.text(), 0);
            }
            if keyword_at_spec(s, p, Keyword::Blob) {
                lemma_tag_index(s, p, Keyword::Blob.text(), 0);
            }
            if keyword_at_spec(s, p, Keyword::Varbinary) {
                lemma_tag_index(s, p, Keyword::Varbinary.text(), 0);
            }
            if keyword_at_spec(s, p, Keyword::BinaryVarying) {
                lemma_tag_index(s, p, Keyword::BinaryVarying.text(), 0);
            }
            if keyword_at_spec(s, p, Keyword::Binary) {
                lemma_tag_index(s, p, Keyword::Binary.text(), 0);
            }
            if keyword_at_spec(s, p, Keyword::DecFloat) {
                lemma_tag_index(s, p, Keyword::DecFloat.text(), 3);
            }
            if keyword_at_spec(s, p, Keyword::Decimal) {
                lemma_tag_index(s, p, Keyword::Decimal.text(), 3);
            }
            if keyword_at_spec(s, p, Keyword::Numeric) {
                lemma_tag_index(s, p, Keyword::Numeric.text(), 0);
            }
        },
        Keyword::Smallint => {
            reveal_with_fuel(first_keyword, 19);
            lemma_occurs_index(s, p, k.text(), 0);
            assert(s[p + 0] == 83u8);
            if keyword_at_spec(s, p, Keyword::CharacterLargeObject) {
                lemma_tag_index(s, p, Keyword::CharacterLargeObject.text(), 0);
            }
            if keyword_at_spec(s, p, Keyword::CharLargeObject) {
                lemma_tag_index(s, p, Keyword::CharLargeObject.text(), 0);
            }
            if keyword_at_spec(s, p, Keyword::Clob) {
                lemma_tag_index(s, p, Keyword::Clob.text(), 0);
            }
            if keyword_at_spec(s, p, Keyword::CharacterVarying) {
                lemma_tag_index(s, p, Keyword::CharacterVarying.text(), 0);
            }
            if keyword_at_spec(s, p, Keyword::CharVarying) {
                lemma_tag_index(s, p, Keyword::CharVarying.text(), 0);
            }
            if keyword_at_spec(s, p, Keyword::Character) {
                lemma_tag_index(s, p, Keyword::Character.text(), 0);
            }
            if keyword_at_spec(s, p, Keyword::Varchar) {
                lemma_tag_index(s, p, Keyword::Varchar.text(), 0);
            }
            if keyword_at_spec(s, p, Keyword::Char) {
                lemma_tag_index(s, p, Keyword::Char.text(), 0);
            }
            if keyword_at_spec(s, p, Keyword::BinaryLargeObject) {
                lemma_tag_index(s, p, Keyword::BinaryLargeObject.text(), 0);
            }
            if keyword_at_spec(s, p, Keyword::Blob) {
                lemma_tag_index(s, p, Keyword::Blob.text(), 0);
            }
            if keyword_at_spec(s, p, Keyword::Varbinary) {
                lemma_tag_index(s, p, Keyword::Varbinary.text(), 0);
            }
            if keyword_at_spec(s, p, Keyword::BinaryVarying) {
                lemma_tag_index(s, p, Keyword::BinaryVarying.text(), 0);
            }
            if keyword_at_spec(s, p, Keyword::Binary) {
                lemma_tag_index(s, p, Keyword::Binary.text(), 0);
            }
            if keyword_at_spec(s, p, Keyword::DecFloat) {
                lemma_tag_index(s, p, Keyword::DecFloat.text(), 0);
            }
            if keyword_at_spec(s, p, Keyword::Decimal) {
                lemma_tag_index(s, p, Keyword::Decimal.text(), 0);
            }
            if keyword_at_spec(s, p, Keyword::Numeric) {
                lemma_tag_index(s, p, Keyword::Numeric.text(), 0);
            }
            if keyword_at_spec(s, p, Keyword::Dec) {
                lemma_tag_index(s, p, Keyword::Dec.text(), 0);
            }
        },
        Keyword::Integer => {
            reveal_with_fuel(first_keyword, 20);
            lemma_occurs_index(s, p, k.text(), 0);
            assert(s[p + 0] == 73u8);
            if keyword_at_spec(s, p, Keyword::CharacterLargeObject) {
                lemma_tag_index(s, p, Keyword::CharacterLargeObject.text(), 0);
            }
            if keyword_at_spec(s, p, Keyword::CharLargeObject) {
                lemma_tag_index(s, p, Keyword::CharLargeObject.text(), 0);
            }
            if keyword_at_spec(s, p, Keyword::Clob) {
                lemma_tag_index(s, p, Keyword::Clob.text(), 0);
            }
            if keyword_at_spec(s, p, Keyword::CharacterVarying) {
                lemma_tag_index(s, p, Keyword::CharacterVarying.text(), 0);
            }
            if keyword_at_spec(s, p, Keyword::CharVarying) {
                lemma_tag_index(s, p, Keyword::CharVarying.text(), 0);
            }
            if keyword_at_spec(s, p, Keyword::Character) {
                lemma_tag_index(s, p, Keyword::Character.text(), 0);
            }
            if keyword_at_spec(s, p, Keyword::Varchar) {
                lemma_tag_index(s, p, Keyword::Varchar.text(), 0);
            }
            if keyword_at_spec(s, p, Keyword::Char) {
                lemma_tag_index(s, p, Keyword::Char.text(), 0);
            }
            if keyword_at_spec(s, p, Keyword::BinaryLargeObject) {
                lemma_tag_index(s, p, Keyword::BinaryLargeObject.text(), 0);
            }
            if keyword_at_spec(s, p, Keyword::Blob) {
                lemma_tag_index(s, p, Keyword::Blob.text(), 0);
            }
            if keyword_at_spec(s, p, Keyword::Varbinary) {
                lemma_tag_index(s, p, Keyword::Varbinary.text(), 0);
            }
            if keyword_at_spec(s, p, Keyword::BinaryVarying) {
                lemma_tag_index(s, p, Keyword::BinaryVarying.text(), 0);
            }
            if keyword_at_spec(s, p, Keyword::Binary) {
                lemma_tag_index(s, p, Keyword::Binary.text(), 0);
            }
            if keyword_at_spec(s, p, Keyword::DecFloat) {
                lemma_tag_index(s, p, Keyword::DecFloat.text(), 0);
            }
            if keyword_at_spec(s, p, Keyword::Decimal) {
                lemma_tag_index(s, p, Keyword::Decimal.text(), 0);
            }
            if keyword_at_spec(s, p, Keyword::Numeric) {
                lemma_tag_index(s, p, Keyword::Numeric.text(), 0);
            }
            if keyword_at_spec(s, p, Keyword::Dec) {
                lemma_tag_index(s, p, Keyword::Dec.text(), 0);
            }
            if keyword_at_spec(s, p, Keyword::Smallint) {
                lemma_tag_index(s, p, Keyword::Smallint.text(), 0);
            }
        },
        Keyword::Bigint => {
            reveal_with_fuel(first_keyword, 21);
            lemma_occurs_index(s, p, k.text(), 0);
            lemma_occurs_index(s, p, k.text(), 1);
            lemma_occurs_index(s, p, k.text(), 2);
            assert(s[p + 0] == 66u8 && s[p + 1] == 73u8 && s[p + 2] == 71u8);
            if keyword_at_spec(s, p, Keyword::CharacterLargeObject) {
                lemma_tag_index(s, p, Keyword::CharacterLargeObject.text(), 0);
            }
            if keyword_at_spec(s, p, Keyword::CharLargeObject) {
                lemma_tag_index(s, p, Keyword::CharLargeObject.text(), 0);
            }
            if keyword_at_spec(s, p, Keyword::Clob) {
                lemma_tag_index(s, p, Keyword::Clob.text(), 0);
            }
            if keyword_at_spec(s, p, Keyword::CharacterVarying) {
                lemma_tag_index(s, p, Keyword::CharacterVarying.text(), 0);
            }
            if keyword_at_spec(s, p, Keyword::CharVarying) {
                lemma_tag_index(s, p, Keyword::CharVarying.text(), 0);
            }
            if keyword_at_spec(s, p, Keyword::Character) {
                lemma_tag_index(s, p, Keyword::Character.text(), 0);
            }
            if keyword_at_spec(s, p, Keyword::Varchar) {
                lemma_tag_index(s, p, Keyword::Varchar.text(), 0);
            }
            if keyword_at_spec(s, p, Keyword::Char) {
                lemma_tag_index(s, p, Keyword::Char.text(), 0);
            }
            if keyword_at_spec(s, p, Keyword::BinaryLargeObject) {
                lemma_tag_index(s, p, Keyword::BinaryLargeObject.text(), 2);
            }
            if keyword_at_spec(s, p, Keyword::Blob) {
                lemma_tag_index(s, p, Keyword::Blob.text(), 1);
            }
            if keyword_at_spec(s, p, Keyword::Varbinary) {
                lemma_tag_index(s, p, Keyword::Varbinary.text(), 0);
            }
            if keyword_at_spec(s, p, Keyword::BinaryVarying) {
                lemma_tag_index(s, p, Keyword::BinaryVarying.text(), 2);
            }
            if keyword_at_spec(s, p, Keyword::Binary) {
                lemma_tag_index(s, p, Keyword::Binary.text(), 2);
            }
            if keyword_at_spec(s, p, Keyword::DecFloat) {
                lemma_tag_index(s, p, Keyword::DecFloat.text(), 0);
            }
            if keyword_at_spec(s, p, Keyword::Decimal) {
                lemma_tag_index(s, p, Keyword::Decimal.text(), 0);
            }
            if keyword_at_spec(s, p, Keyword::Numeric) {
                lemma_tag_index(s, p, Keyword::Numeric.text(), 0);
            }
            if keyword_at_spec(s, p, Keyword::Dec) {
                lemma_tag_index(s, p, Keyword::Dec.text(), 0);
            }
            if keyword_at_spec(s, p, Keyword::Smallint) {
                lemma_tag_index(s, p, Keyword::Smallint.text(), 0);
            }
            if keyword_at_spec(s, p, Keyword::Integer) {
                lemma_tag_index(s, p, Keyword::Integer.text(), 0);
            }
        },
        Keyword::Int => {
            reveal_with_fuel(first_keyword, 22);
            lemma_occurs_index(s, p, k.text(), 0);
            assert(s[p + 0] == 73u8);
            if keyword_at_spec(s, p, Keyword::CharacterLargeObject) {
                lemma_tag_index(s, p, Keyword::CharacterLargeObject.text(), 0);
            }
            if keyword_at_spec(s, p, Keyword::CharLargeObject) {
                lemma_tag_index(s, p, Keyword::CharLargeObject.text(), 0);
            }
            if keyword_at_spec(s, p, Keyword::Clob) {
                lemma_tag_index(s, p, Keyword::Clob.text(), 0);
            }
            if keyword_at_spec(s, p, Keyword::CharacterVarying) {
                lemma_tag_index(s, p, Keyword::CharacterVarying.text(), 0);
            }
            if keyword_at_spec(s, p, Keyword::CharVarying) {
                lemma_tag_index(s, p, Keyword::CharVarying.text(), 0);
            }
            if keyword_at_spec(s, p, Keyword::Character) {
                lemma_tag_index(s, p, Keyword::Character.text(), 0);
            }
            if keyword_at_spec(s, p, Keyword::Varchar) {
                lemma_tag_index(s, p, Keyword::Varchar.text(), 0);
            }
            if keyword_at_spec(s, p, Keyword::Char) {
                lemma_tag_index(s, p, Keyword::Char.text(), 0);
            }
            if keyword_at_spec(s, p, Keyword::BinaryLargeObject) {
                lemma_tag_index(s, p, Keyword::BinaryLargeObject.text(), 0);
            }
            if keyword_at_spec(s, p, Keyword::Blob) {
                lemma_tag_index(s, p, Keyword::Blob.text(), 0);
            }
            if keyword_at_spec(s, p, Keyword::Varbinary) {
                lemma_tag_index(s, p, Keyword::Varbinary.text(), 0);
            }
            if keyword_at_spec(s, p, Keyword::BinaryVarying) {
                lemma_tag_index(s, p, Keyword::BinaryVarying.text(), 0);
            }
            if keyword_at_spec(s, p, Keyword::Binary) {
                lemma_tag_index(s, p, Keyword::Binary.text(), 0);
            }
            if keyword_at_spec(s, p, Keyword::DecFloat) {
                lemma_tag_index(s, p, Keyword::DecFloat.text(), 0);
            }
            if keyword_at_spec(s, p, Keyword::Decimal) {
                lemma_tag_index(s, p, Keyword::Decimal.text(), 0);
            }
            if keyword_at_spec(s, p, Keyword::Numeric) {
                lemma_tag_index(s, p, Keyword::Numeric.text(), 0);
            }
            if keyword_at_spec(s, p, Keyword::Dec) {
                lemma_tag_index(s, p, Keyword::Dec.text(), 0);
            }
            if keyword_at_spec(s, p, Keyword::Smallint) {
                lemma_tag_index(s, p, Keyword::Smallint.text(), 0);
            }
            if keyword_at_spec(s, p, Keyword::Integer) {
                lemma_tag_index(s, p, Keyword::Integer.text(), 3);
            }
            if keyword_at_spec(s, p, Keyword::Bigint) {
                lemma_tag_index(s, p, Keyword::Bigint.text(), 0);
            }
        },
        Keyword::Float => {
            reveal_with_fuel(first_keyword, 23);
            lemma_occurs_index(s, p, k.text(), 0);
            assert(s[p + 0] == 70u8);
            if keyword_at_spec(s, p, Keyword::CharacterLargeObject) {
                lemma_tag_index(s, p, Keyword::CharacterLargeObject.text(), 0);
            }
            if keyword_at_spec(s, p, Keyword::CharLargeObject) {
                lemma_tag_index(s, p, Keyword::CharLargeObject.text(), 0);
            }
            if keyword_at_spec(s, p, Keyword::Clob) {
                lemma_tag_index(s, p, Keyword::Clob.text(), 0);
            }
            if keyword_at_spec(s, p, Keyword::CharacterVarying) {
                lemma_tag_index(s, p, Keyword::CharacterVarying.text(), 0);
            }
            if keyword_at_spec(s, p, Keyword::CharVarying) {
                lemma_tag_index(s, p, Keyword::CharVarying.text(), 0);
            }
            if keyword_at_spec(s, p, Keyword::Character) {
                lemma_tag_index(s, p, Keyword::Character.text(), 0);
            }
            if keyword_at_spec(s, p, Keyword::Varchar) {
                lemma_tag_index(s, p, Keyword::Varchar.text(), 0);
            }
            if keyword_at_spec(s, p, Keyword::Char) {
                lemma_tag_index(s, p, Keyword::Char.text(), 0);
            }
            if keyword_at_spec(s, p, Keyword::BinaryLargeObject) {
                lemma_tag_index(s, p, Keyword::BinaryLargeObject.text(), 0);
            }
            if keyword_at_spec(s, p, Keyword::Blob) {
                lemma_tag_index(s, p, Keyword::Blob.text(), 0);
            }
            if keyword_at_spec(s, p, Keyword::Varbinary) {
                lemma_tag_index(s, p, Keyword::Varbinary.text(), 0);
            }
            if keyword_at_spec(s, p, Keyword::BinaryVarying) {
                lemma_tag_index(s, p, Keyword::BinaryVarying.text(), 0);
            }
            if keyword_at_spec(s, p, Keyword::Binary) {
                lemma_tag_index(s, p, Keyword::Binary.text(), 0);
            }
            if keyword_at_spec(s, p, Keyword::DecFloat) {
                lemma_tag_index(s, p, Keyword::DecFloat.text(), 0);
            }
            if keyword_at_spec(s, p, Keyword::Decimal) {
                lemma_tag_index(s, p, Keyword::Decimal.text(), 0);
            }
            if keyword_at_spec(s, p, Keyword::Numeric) {
                lemma_tag_index(s, p, Keyword::Numeric.text(), 0);
            }
            if keyword_at_spec(s, p, Keyword::Dec) {
                lemma_tag_index(s, p, Keyword::Dec.text(), 0);
            }
            if keyword_at_spec(s, p, Keyword::Smallint) {
                lemma_tag_index(s, p, Keyword::Smallint.text(), 0);
            }
            if keyword_at_spec(s, p, Keyword::Integer) {
                lemma_tag_index(s, p, Keyword::Integer.text(), 0);
            }
            if keyword_at_spec(s, p, Keyword::Bigint) {
                lemma_tag_index(s, p, Keyword::Bigint.text(), 0);
            }
            if keyword_at_spec(s, p, Keyword::Int) {
                lemma_tag_index(s, p, Keyword::Int.text(), 0);
            }
        },
        Keyword::Real => {
            reveal_with_fuel(first_keyword, 24);
            lemma_occurs_index(s, p, k.text(), 0);
            assert(s[p + 0] == 82u8);
            if keyword_at_spec(s, p, Keyword::CharacterLargeObject) {
                lemma_tag_index(s, p, Keyword::CharacterLargeObject.text(), 0);
            }
            if keyword_at_spec(s, p, Keyword::CharLargeObject) {
                lemma_tag_index(s, p, Keyword::CharLargeObject.text(), 0);
            }
            if keyword_at_spec(s, p, Keyword::Clob) {
                lemma_tag_index(s, p, Keyword::Clob.text(), 0);
            }
            if keyword_at_spec(s, p, Keyword::CharacterVarying) {
                lemma_tag_index(s, p, Keyword::CharacterVarying.text(), 0);
            }
            if keyword_at_spec(s, p, Keyword::CharVarying) {
                lemma_tag_index(s, p, Keyword::CharVarying.text(), 0);
            }
            if keyword_at_spec(s, p, Keyword::Character) {
                lemma_tag_index(s, p, Keyword::Character.text(), 0);
            }
            if keyword_at_spec(s, p, Keyword::Varchar) {
                lemma_tag_index(s, p, Keyword::Varchar.text(), 0);
            }
            if keyword_at_spec(s, p, Keyword::Char) {
                lemma_tag_index(s, p, Keyword::Char.text(), 0);
            }
            if keyword_at_spec(s, p, Keyword::BinaryLargeObject) {
                lemma_tag_index(s, p, Keyword::BinaryLargeObject.text(), 0);
            }
            if keyword_at_spec(s, p, Keyword::Blob) {
                lemma_tag_index(s, p, Keyword::Blob.text(), 0);
            }
            if keyword_at_spec(s, p, Keyword::Varbinary) {
                lemma_tag_index(s, p, Keyword::Varbinary.text(), 0);
            }
            if keyword_at_spec(s, p, Keyword::BinaryVarying) {
                lemma_tag_index(s, p, Keyword::BinaryVarying.text(), 0);
            }
            if keyword_at_spec(s, p, Keyword::Binary) {
                lemma_tag_index(s, p, Keyword::Binary.text(), 0);
            }
            if keyword_at_spec(s, p, Keyword::DecFloat) {
                lemma_tag_index(s, p, Keyword::DecFloat.text(), 0);
            }
            if keyword_at_spec(s, p, Keyword::Decimal) {
                lemma_tag_index(s, p, Keyword::Decimal.text(), 0);
            }
            if keyword_at_spec(s, p, Keyword::Numeric) {
                lemma_tag_index(s, p, Keyword::Numeric.text(), 0);
            }
            if keyword_at_spec(s, p, Keyword::Dec) {
                lemma_tag_index(s, p, Keyword::Dec.text(), 0);
            }
            if keyword_at_spec(s, p, Keyword::Smallint) {
                lemma_tag_index(s, p, Keyword::Smallint.text(), 0);
            }
            if keyword_at_spec(s, p, Keyword::Integer) {
                lemma_tag_index(s, p, Keyword::Integer.text(), 0);
            }
            if keyword_at_spec(s, p, Keyword::Bigint) {
                lemma_tag_index(s, p, Keyword::Bigint.text(), 0);
            }
            if keyword_at_spec(s, p, Keyword::Int) {
                lemma_tag_index(s, p, Keyword::Int.text(), 0);
            }
            if keyword_at_spec(s, p, Keyword::Float) {
                lemma_tag_index(s, p, Keyword::Float.text(), 0);
            }
        },
        Keyword::DoublePrecision => {
            reveal_with_fuel(first_keyword, 25);
            lemma_occurs_index(s, p, k.text(), 0);
            lemma_occurs_index(s, p, k.text(), 1);
            assert(s[p + 0] == 68u8 && s[p + 1] == 79u8);
            if keyword_at_spec(s, p, Keyword::CharacterLargeObject) {
                lemma_tag_index(s, p, Keyword::CharacterLargeObject.text(), 0);
            }
            if keyword_at_spec(s, p, Keyword::CharLargeObject) {
                lemma_tag_index(s, p, Keyword::CharLargeObject.text(), 0);
            }
            if keyword_at_spec(s, p, Keyword::Clob) {
                lemma_tag_index(s, p, Keyword::Clob.text(), 0);
            }
            if keyword_at_spec(s, p, Keyword::CharacterVarying) {
                lemma_tag_index(s, p, Keyword::CharacterVarying.text(), 0);
            }
            if keyword_at_spec(s, p, Keyword::CharVarying) {
                lemma_tag_index(s, p, Keyword::CharVarying.text(), 0);
            }
            if keyword_at_spec(s, p, Keyword::Character) {
                lemma_tag_index(s, p, Keyword::Character.text(), 0);
            }
            if keyword_at_spec(s, p, Keyword::Varchar) {
                lemma_tag_index(s, p, Keyword::Varchar.text(), 0);
            }
            if keyword_at_spec(s, p, Keyword::Char) {
                lemma_tag_index(s, p, Keyword::Char.text(), 0);
            }
            if keyword_at_spec(s, p, Keyword::BinaryLargeObject) {
                lemma_tag_index(s, p, Keyword::BinaryLargeObject.text(), 0);
            }
            if keyword_at_spec(s, p, Keyword::Blob) {
                lemma_tag_index(s, p, Keyword::Blob.text(), 0);
            }
            if keyword_at_spec(s, p, Keyword::Varbinary) {
                lemma_tag_index(s, p, Keyword::Varbinary.text(), 0);
            }
            if keyword_at_spec(s, p, Keyword::BinaryVarying) {
                lemma_tag_index(s, p, Keyword::BinaryVarying.text(), 0);
            }
            if keyword_at_spec(s, p, Keyword::Binary) {
                lemma_tag_index(s, p, Keyword::Binary.text(), 0);
            }
            if keyword_at_spec(s, p, Keyword::DecFloat) {
                lemma_tag_index(s, p, Keyword::DecFloat.text(), 1);
            }
            if keyword_at_spec(s, p, Keyword::Decimal) {
                lemma_tag_index(s, p, Keyword::Decimal.text(), 1);
            }
            if keyword_at_spec(s, p, Keyword::Numeric) {
                lemma_tag_index(s, p, Keyword::Numeric.text(), 0);
            }
            if keyword_at_spec(s, p, Keyword::Dec) {
                lemma_tag_index(s, p, Keyword::Dec.text(), 1);
            }
            if keyword_at_spec(s, p, Keyword::Smallint) {
                lemma_tag_index(s, p, Keyword::Smallint.text(), 0);
            }
            if keyword_at_spec(s, p, Keyword::Integer) {
                lemma_tag_index(s, p, Keyword::Integer.text(), 0);
            }
            if keyword_at_spec(s, p, Keyword::Bigint) {
                lemma_tag_index(s, p, Keyword::Bigint.text(), 0);
            }
            if keyword_at_spec(s, p, Keyword::Int) {
                lemma_tag_index(s, p, Keyword::Int.text(), 0);
            }
            if keyword_at_spec(s, p, Keyword::Float) {
                lemma_tag_index(s, p, Keyword::Float.text(), 0);
            }
            if keyword_at_spec(s, p, Keyword::Real) {
                lemma_tag_index(s, p, Keyword::Real.text(), 0);
            }
        },
        Keyword::Boolean => {
            reveal_with_fuel(first_keyword, 26);
            lemma_occurs_index(s, p, k.text(), 0);
            lemma_occurs_index(s, p, k.text(), 1);
            assert(s[p + 0] == 66u8 && s[p + 1] == 79u8);
            if keyword_at_spec(s, p, Keyword::CharacterLargeObject) {
                lemma_tag_index(s, p, Keyword::CharacterLargeObject.text(), 0);
            }
            if keyword_at_spec(s, p, Keyword::CharLargeObject) {
                lemma_tag_index(s, p, Keyword::CharLargeObject.text(), 0);
            }
            if keyword_at_spec(s, p, Keyword::Clob) {
                lemma_tag_index(s, p, Keyword::Clob.text(), 0);
            }
            if keyword_at_spec(s, p, Keyword::CharacterVarying) {
                lemma_tag_index(s, p, Keyword::CharacterVarying.text(), 0);
            }
            if keyword_at_spec(s, p, Keyword::CharVarying) {
                lemma_tag_index(s, p, Keyword::CharVarying.text(), 0);
            }
            if keyword_at_spec(s, p, Keyword::Character) {
                lemma_tag_index(s, p, Keyword::Character.text(), 0);
            }
            if keyword_at_spec(s, p, Keyword::Varchar) {
                lemma_tag_index(s, p, Keyword::Varchar.text(), 0);
            }
            if keyword_at_spec(s, p, Keyword::Char) {
                lemma_tag_index(s, p, Keyword::Char.text(), 0);
            }
            if keyword_at_spec(s, p, Keyword::BinaryLargeObject) {
                lemma_tag_index(s, p, Keyword::BinaryLargeObject.text(), 1);
            }
            if keyword_at_spec(s, p, Keyword::Blob) {
                lemma_tag_index(s, p, Keyword::Blob.text(), 1);
            }
            if keyword_at_spec(s, p, Keyword::Varbinary) {
                lemma_tag_index(s, p, Keyword::Varbinary.text(), 0);
            }
            if keyword_at_spec(s, p, Keyword::BinaryVarying) {
                lemma_tag_index(s, p, Keyword::BinaryVarying.text(), 1);
            }
            if keyword_at_spec(s, p, Keyword::Binary) {
                lemma_tag_index(s, p, Keyword::Binary.text(), 1);
            }
            if keyword_at_spec(s, p, Keyword::DecFloat) {
                lemma_tag_index(s, p, Keyword::DecFloat.text(), 0);
            }
            if keyword_at_spec(s, p, Keyword::Decimal) {
                lemma_tag_index(s, p, Keyword::Decimal.text(), 0);
            }
            if keyword_at_spec(s, p, Keyword::Numeric) {
                lemma_tag_index(s, p, Keyword::Numeric.text(), 0);
            }
            if keyword_at_spec(s, p, Keyword::Dec) {
                lemma_tag_index(s, p, Keyword::Dec.text(), 0);
            }
            if keyword_at_spec(s, p, Keyword::Smallint) {
                lemma_tag_index(s, p, Keyword::Smallint.text(), 0);
            }
            if keyword_at_spec(s, p, Keyword::Integer) {
                lemma_tag_index(s, p, Keyword::Integer.text(), 0);
            }
            if keyword_at_spec(s, p, Keyword::Bigint) {
                lemma_tag_index(s, p, Keyword::Bigint.text(), 1);
            }
            if keyword_at_spec(s, p, Keyword::Int) {
                lemma_tag_index(s, p, Keyword::Int.text(), 0);
            }
            if keyword_at_spec(s, p, Keyword::Float) {
                lemma_tag_index(s, p, Keyword::Float.text(), 0);
            }
            if keyword_at_spec(s, p, Keyword::Real) {
                lemma_tag_index(s, p, Keyword::Real.text(), 0);
            }
            if keyword_at_spec(s, p, Keyword::DoublePrecision) {
                lemma_tag_index(s, p, Keyword::DoublePrecision.text(), 0);
            }
        },
        Keyword::Date => {
            reveal_with_fuel(first_keyword, 27);
            lemma_occurs_index(s, p, k.text(), 0);
            lemma_occurs_index(s, p, k.text(), 1);
            assert(s[p + 0] == 68u8 && s[p + 1] == 65u8);
            if keyword_at_spec(s, p, Keyword::CharacterLargeObject) {
                lemma_tag_index(s, p, Keyword::CharacterLargeObject.text(), 0);
            }
            if keyword_at_spec(s, p, Keyword::CharLargeObject) {
                lemma_tag_index(s, p, Keyword::CharLargeObject.text(), 0);
            }
            if keyword_at_spec(s, p, Keyword::Clob) {
                lemma_tag_index(s, p, Keyword::Clob.text(), 0);
            }
            if keyword_at_spec(s, p, Keyword::CharacterVarying) {
                lemma_tag_index(s, p, Keyword::CharacterVarying.text(), 0);
            }
            if keyword_at_spec(s, p, Keyword::CharVarying) {
                lemma_tag_index(s, p, Keyword::CharVarying.text(), 0);
            }
            if keyword_at_spec(s, p, Keyword::Character) {
                lemma_tag_index(s, p, Keyword::Character.text(), 0);
            }
            if keyword_at_spec(s, p, Keyword::Varchar) {
                lemma_tag_index(s, p, Keyword::Varchar.text(), 0);
            }
            if keyword_at_spec(s, p, Keyword::Char) {
                lemma_tag_index(s, p, Keyword::Char.text(), 0);
            }
            if keyword_at_spec(s, p, Keyword::BinaryLargeObject) {
                lemma_tag_index(s, p, Keyword::BinaryLargeObject.text(), 0);
            }
            if keyword_at_spec(s, p, Keyword::Blob) {
                lemma_tag_index(s, p, Keyword::Blob.text(), 0);
            }
            if keyword_at_spec(s, p, Keyword::Varbinary) {
                lemma_tag_index(s, p, Keyword::Varbinary.text(), 0);
            }
            if keyword_at_spec(s, p, Keyword::BinaryVarying) {
                lemma_tag_index(s, p, Keyword::BinaryVarying.text(), 0);
            }
            if keyword_at_spec(s, p, Keyword::Binary) {
                lemma_tag_index(s, p, Keyword::Binary.text(), 0);
            }
            if keyword_at_spec(s, p, Keyword::DecFloat) {
                lemma_tag_index(s, p, Keyword::DecFloat.text(), 1);
            }
            if keyword_at_spec(s, p, Keyword::Decimal) {
                lemma_tag_index(s, p, Keyword::Decimal.text(), 1);
            }
            if keyword_at_spec(s, p, Keyword::Numeric) {
                lemma_tag_index(s, p, Keyword::Numeric.text(), 0);
            }
            if keyword_at_spec(s, p, Keyword::Dec) {
                lemma_tag_index(s, p, Keyword::Dec.text(), 1);
            }
            if keyword_at_spec(s, p, Keyword::Smallint) {
                lemma_tag_index(s, p, Keyword::Smallint.text(), 0);
            }
            if keyword_at_spec(s, p, Keyword::Integer) {
                lemma_tag_index(s, p, Keyword::Integer.text(), 0);
            }
            if keyword_at_spec(s, p, Keyword::Bigint) {
                lemma_tag_index(s, p, Keyword::Bigint.text(), 0);
            }
            if keyword_at_spec(s, p, Keyword::Int) {
                lemma_tag_index(s, p, Keyword::Int.text(), 0);
            }
            if keyword_at_spec(s, p, Keyword::Float) {
                lemma_tag_index(s, p, Keyword::Float.text(), 0);
            }
            if keyword_at_spec(s, p, Keyword::Real) {
                lemma_tag_index(s, p, Keyword::Real.text(), 0);
            }
            if keyword_at_spec(s, p, Keyword::DoublePrecision) {
                lemma_tag_index(s, p, Keyword::DoublePrecision.text(), 1);
            }
            if keyword_at_spec(s, p, Keyword::Boolean) {
                lemma_tag_index(s, p, Keyword::Boolean.text(), 0);
            }
        },
        Keyword::Timestamp => {
            reveal_with_fuel(first_keyword, 28);
            lemma_occurs_index(s, p, k.text(), 0);
            assert(s[p + 0] == 84u8);
            if keyword_at_spec(s, p, Keyword::CharacterLargeObject) {
                lemma_tag_index(s, p, Keyword::CharacterLargeObject.text(), 0);
            }
            if keyword_at_spec(s, p, Keyword::CharLargeObject) {
                lemma_tag_index(s, p, Keyword::CharLargeObject.text(), 0);
            }
            if keyword_at_spec(s, p, Keyword::Clob) {
                lemma_tag_index(s, p, Keyword::Clob.text(), 0);
            }
            if keyword_at_spec(s, p, Keyword::CharacterVarying) {
                lemma_tag_index(s, p, Keyword::CharacterVarying.text(), 0);
            }
            if keyword_at_spec(s, p, Keyword::CharVarying) {
                lemma_tag_index(s, p, Keyword::CharVarying.text(), 0);
            }
            if keyword_at_spec(s, p, Keyword::Character) {
                lemma_tag_index(s, p, Keyword::Character.text(), 0);
            }
            if keyword_at_spec(s, p, Keyword::Varchar) {
                lemma_tag_index(s, p, Keyword::Varchar.text(), 0);
            }
            if keyword_at_spec(s, p, Keyword::Char) {
                lemma_tag_index(s, p, Keyword::Char.text(), 0);
            }
            if keyword_at_spec(s, p, Keyword::BinaryLargeObject) {
                lemma_tag_index(s, p, Keyword::BinaryLargeObject.text(), 0);
            }
            if keyword_at_spec(s, p, Keyword::Blob) {
                lemma_tag_index(s, p, Keyword::Blob.text(), 0);
            }
            if keyword_at_spec(s, p, Keyword::Varbinary) {
                lemma_tag_index(s, p, Keyword::Varbinary.text(), 0);
            }
            if keyword_at_spec(s, p, Keyword::BinaryVarying) {
                lemma_tag_index(s, p, Keyword::BinaryVarying.text(), 0);
            }
            if keyword_at_spec(s, p, Keyword::Binary) {
                lemma_tag_index(s, p, Keyword::Binary.text(), 0);
            }
            if keyword_at_spec(s, p, Keyword::DecFloat) {
                lemma_tag_index(s, p, Keyword::DecFloat.text(), 0);
            }
            if keyword_at_spec(s, p, Keyword::Decimal) {
                lemma_tag_index(s, p, Keyword::Decimal.text(), 0);
            }
            if keyword_at_spec(s, p, Keyword::Numeric) {
                lemma_tag_index(s, p, Keyword::Numeric.text(), 0);
            }
            if keyword_at_spec(s, p, Keyword::Dec) {
                lemma_tag_index(s, p, Keyword::Dec.text(), 0);
            }
            if keyword_at_spec(s, p, Keyword::Smallint) {
                lemma_tag_index(s, p, Keyword::Smallint.text(), 0);
            }
            if keyword_at_spec(s, p, Keyword::Integer) {
                lemma_tag_index(s, p, Keyword::Integer.text(), 0);
            }
            if keyword_at_spec(s, p, Keyword::Bigint) {
                lemma_tag_index(s, p, Keyword::Bigint.text(), 0);
            }
            if keyword_at_spec(s, p, Keyword::Int) {
                lemma_tag_index(s, p, Keyword::Int.text(), 0);
            }
            if keyword_at_spec(s, p, Keyword::Float) {
                lemma_tag_index(s, p, Keyword::Float.text(), 0);
            }
            if keyword_at_spec(s, p, Keyword::Real) {
                lemma_tag_index(s, p, Keyword::Real.text(), 0);
            }
            if keyword_at_spec(s, p, Keyword::DoublePrecision) {
                lemma_tag_index(s, p, Keyword::DoublePrecision.text(), 0);
            }
            if keyword_at_spec(s, p, Keyword::Boolean) {
                lemma_tag_index(s, p, Keyword::Boolean.text(), 0);
            }
            if keyword_at_spec(s, p, Keyword::Date) {
                lemma_tag_index(s, p, Keyword::Date.text(), 0);
            }
        },
        Keyword::Time => {
            reveal_with_fuel(first_keyword, 29);
            lemma_occurs_index(s, p, k.text(), 0);
            assert(s[p + 0] == 84u8);
            if keyword_at_spec(s, p, Keyword::CharacterLargeObject) {
                lemma_tag_index(s, p, Keyword::CharacterLargeObject.text(), 0);
            }
            if keyword_at_spec(s, p, Keyword::CharLargeObject) {
                lemma_tag_index(s, p, Keyword::CharLargeObject.text(), 0);
            }
            if keyword_at_spec(s, p, Keyword::Clob) {
                lemma_tag_index(s, p, Keyword::Clob.text(), 0);
            }
            if keyword_at_spec(s, p, Keyword::CharacterVarying) {
                lemma_tag_index(s, p, Keyword::CharacterVarying.text(), 0);
            }
            if keyword_at_spec(s, p, Keyword::CharVarying) {
                lemma_tag_index(s, p, Keyword::CharVarying.text(), 0);
            }
            if keyword_at_spec(s, p, Keyword::Character) {
                lemma_tag_index(s, p, Keyword::Character.text(), 0);
            }
            if keyword_at_spec(s, p, Keyword::Varchar) {
                lemma_tag_index(s, p, Keyword::Varchar.text(), 0);
            }
            if keyword_at_spec(s, p, Keyword::Char) {
                lemma_tag_index(s, p, Keyword::Char.text(), 0);
            }
            if keyword_at_spec(s, p, Keyword::BinaryLargeObject) {
                lemma_tag_index(s, p, Keyword::BinaryLargeObject.text(), 0);
            }
            if keyword_at_spec(s, p, Keyword::Blob) {
                lemma_tag_index(s, p, Keyword::Blob.text(), 0);
            }
            if keyword_at_spec(s, p, Keyword::Varbinary) {
                lemma_tag_index(s, p, Keyword::Varbinary.text(), 0);
            }
            if keyword_at_spec(s, p, Keyword::BinaryVarying) {
                lemma_tag_index(s, p, Keyword::BinaryVarying.text(), 0);
            }
            if keyword_at_spec(s, p, Keyword::Binary) {
                lemma_tag_index(s, p, Keyword::Binary.text(), 0);
            }
            if keyword_at_spec(s, p, Keyword::DecFloat) {
                lemma_tag_index(s, p, Keyword::DecFloat.text(), 0);
            }
            if keyword_at_spec(s, p, Keyword::Decimal) {
                lemma_tag_index(s, p, Keyword::Decimal.text(), 0);
            }
            if keyword_at_spec(s, p, Keyword::Numeric) {
                lemma_tag_index(s, p, Keyword::Numeric.text(), 0);
            }
            if keyword_at_spec(s, p, Keyword::Dec) {
                lemma_tag_index(s, p, Keyword::Dec.text(), 0);
            }
            if keyword_at_spec(s, p, Keyword::Smallint) {
                lemma_tag_index(s, p, Keyword::Smallint.text(), 0);
            }
            if keyword_at_spec(s, p, Keyword::Integer) {
                lemma_tag_index(s, p, Keyword::Integer.text(), 0);
            }
            if keyword_at_spec(s, p, Keyword::Bigint) {
                lemma_tag_index(s, p, Keyword::Bigint.text(), 0);
            }
            if keyword_at_spec(s, p, Keyword::Int) {
                lemma_tag_index(s, p, Keyword::Int.text(), 0);
            }
            if keyword_at_spec(s, p, Keyword::Float) {
                lemma_tag_index(s, p, Keyword::Float.text(), 0);
            }
            if keyword_at_spec(s, p, Keyword::Real) {
                lemma_tag_index(s, p, Keyword::Real.text(), 0);
            }
            if keyword_at_spec(s, p, Keyword::DoublePrecision) {
                lemma_tag_index(s, p, Keyword::DoublePrecision.text(), 0);
            }
            if keyword_at_spec(s, p, Keyword::Boolean) {
                lemma_tag_index(s, p, Keyword::Boolean.text(), 0);
            }
            if keyword_at_spec(s, p, Keyword::Date) {
                lemma_tag_index(s, p, Keyword::Date.text(), 0);
            }
            if keyword_at_spec(s, p, Keyword::Timestamp) {
                lemma_tag_index(s, p, Keyword::Timestamp.text(), 4);
            }
        },
        _ => {
            let i = choose|i: int| 0 <= i < type_keywords().len() && type_keywords()[i] == k;
            assert(type_keywords()[i] == k);
        },
    }
}

pub proof fn lemma_occurs_split(s: Seq<u8>, p: int, a: Seq<u8>, b: Seq<u8>)
    requires
        occurs_at(s, p, a + b),
    ensures
        occurs_at(s, p, a),
        occurs_at(s, p + a.len(), b),
{
    assert forall|i: int| 0 <= i < a.len() implies #[trigger] s[p + i] == a[i] by {
        assert(s[p + i] == (a + b)[i]);
    }
    assert forall|i: int| 0 <= i < b.len() implies #[trigger] s[p + a.len() + i] == b[i] by {
        assert(s[p + (a.len() + i)] == (a + b)[a.len() + i]);
    }
}

pub proof fn lemma_occurs_keyword(s: Seq<u8>, p: int, k: Keyword)
    requires
        occurs_at(s, p, k.text()),
    ensures
        keyword_at_spec(s, p, k),
{
    assert forall|i: int| 0 <= i < k.text().len() implies lower(#[trigger] s[p + i]) == lower(
        k.text()[i],
    ) by {
        lemma_occurs_index(s, p, k.text(), i);
    }
}

proof fn lemma_decimal(n: nat)
    ensures
        decimal(n).len() >= 1,
        forall|i: int| 0 <= i < decimal(n).len() ==> is_digit(#[trigger] decimal(n)[i]),
        digits_value(decimal(n)) == n,
    decreases n,
{
    if n >= 10 {
        lemma_decimal(n / 10);
        let d = decimal(n);
        assert(d.drop_last() =~= decimal(n / 10));
        lemma_fundamental_div_mod(n as int, 10);
        assert(d.last() == (48 + n % 10) as u8);
        assert((d.last() - 48) as nat == n % 10);
        assert(digits_value(d) == digits_value(decimal(n / 10)) * 10 + n % 10);
        assert((n / 10) * 10 + n % 10 == n) by (nonlinear_arith)
            requires
                n == 10 * (n / 10) + n % 10,
        ;
        assert forall|i: int| 0 <= i < d.len() implies is_digit(#[trigger] d[i]) by {
            if i < d.len() - 1 {
                assert(d[i] == decimal(n / 10)[i]);
            }
        }
    } else {
        assert(decimal(n).drop_last() =~= Seq::<u8>::empty());
        assert(decimal(n).last() == (48 + n) as u8);
        assert(digits_value(decimal(n)) == digits_value(Seq::<u8>::empty()) * 10 + n);
    }
}

proof fn lemma_digit_run(s: Seq<u8>, p: int, e: int)
    requires
        0 <= p <= e <= s.len(),
        forall|i: int| p <= i < e ==> is_digit(#[trigger] s[i]),
        e == s.len() || !is_digit(s[e]),
    ensures
        digit_end(s, p) == e,
    decreases e - p,
{
    if p < e {
        lemma_digit_run(s, p + 1, e);
    }
}

proof fn lemma_u32_round_trip(s: Seq<u8>, p: int, n: u32)
    requires
        occurs_at(s, p, decimal(n as nat)),
        p + decimal(n as nat).len() == s.len() || !is_digit(s[p + decimal(n as nat).len()]),
    ensures
        u32_spec(s, p) == Some((p + decimal(n as nat).len(), n)),
{
    let d = decimal(n as nat);
    let e = p + d.len();
    lemma_decimal(n as nat);
    assert forall|i: int| p <= i < e implies is_digit(#[trigger] s[i]) by {
        lemma_occurs_index(s, p, d, i - p);
    }
    lemma_digit_run(s, p, e);
    assert forall|i: int| 0 <= i < d.len() implies #[trigger] s.subrange(p, e)[i] == d[i] by {
        lemma_occurs_index(s, p, d, i);
    }
    assert(s.subrange(p, e) =~= d);
}

pub proof fn lemma_ws_one(s: Seq<u8>, q: int)
    requires
        0 <= q,
        q + 1 < s.len(),
        is_ws(s[q]),
        !is_ws(s[q + 1]),
    ensures
        ws_end(s, q) == q + 1,
{
    reveal_with_fuel(ws_end, 2);
}

proof fn lemma_units_round_trip(s: Seq<u8>, b: int, u: Option<CharLengthUnits>)
    requires
        occurs_at(s, b, opt_units_sql(u)),
        b + opt_units_sql(u).len() < s.len(),
        s[b + opt_units_sql(u).len()] == 41,
    ensures
        units_spec(s, b) == (b + opt_units_sql(u).len(), u),
{
    match u {
        Some(units) => {
            lemma_occurs_split(s, b, seq![32u8], units.sql());
            lemma_occurs_index(s, b, seq![32u8], 0);
            lemma_occurs_index(s, b + 1, units.sql(), 0);
            lemma_ws_one(s, b);
            match units {
                CharLengthUnits::Octets => {
                    lemma_occurs_keyword(s, b + 1, Keyword::Octets);
                },
                CharLengthUnits::Characters => {
                    if keyword_at_spec(s, b + 1, Keyword::Octets) {
                        lemma_tag_index(s, b + 1, Keyword::Octets.text(), 0);
                    }
                    lemma_occurs_keyword(s, b + 1, Keyword::Characters);
                },
            }
        },
        None => {},
    }
}

proof fn lemma_char_length_round_trip(s: Seq<u8>, q: int, l: CharacterLength)
    requires
        occurs_at(s, q, parenthesized(l.sql())),
    ensures
        char_length_spec(s, q) == Some((q + parenthesized(l.sql()).len(), l)),
{
    let d = decimal(l.length as nat);
    let x = l.sql();
    lemma_decimal(l.length as nat);
    lemma_occurs_split(s, q, seq![40u8] + x, seq![41u8]);
    lemma_occurs_split(s, q, seq![40u8], x);
    lemma_occurs_split(s, q + 1, d, opt_units_sql(l.opt_units));
    lemma_occurs_index(s, q, seq![40u8], 0);
    lemma_occurs_index(s, q + 1, d, 0);
    lemma_occurs_index(s, q + 1 + x.len(), seq![41u8], 0);
    let e = q + 1 + d.len();
    if l.opt_units is Some {
        lemma_occurs_index(s, e, opt_units_sql(l.opt_units), 0);
    }
    lemma_u32_round_trip(s, q + 1, l.length);
    lemma_units_round_trip(s, e, l.opt_units);
}

proof fn lemma_lob_length_round_trip(s: Seq<u8>, q: int, l: LargeObjectLength)
    requires
        occurs_at(s, q, l.sql()),
        q + l.sql().len() < s.len(),
        s[q + l.sql().len()] == 41 || s[q + l.sql().len()] == 32,
    ensures
        lob_length_spec(s, q) == Some((q + l.sql().len(), l)),
{
    let d = decimal(l.length as nat);
    let m = match l.multiplier {
        Some(m) => seq![m.code()],
        None => Seq::<u8>::empty(),
    };
    assert(l.sql() == d + m);
    lemma_occurs_split(s, q, d, m);
    let e = q + d.len();
    if l.multiplier is Some {
        lemma_occurs_index(s, e, m, 0);
    }
    lemma_u32_round_trip(s, q, l.length);
}

proof fn lemma_clob_length_round_trip(s: Seq<u8>, q: int, l: CharacterLargeObjectLength)
    requires
        occurs_at(s, q, parenthesized(l.sql())),
    ensures
        clob_length_spec(s, q) == Some((q + parenthesized(l.sql()).len(), l)),
{
    let x = l.sql();
    let n = l.length.sql();
    lemma_occurs_split(s, q, seq![40u8] + x, seq![41u8]);
    lemma_occurs_split(s, q, seq![40u8], x);
    lemma_occurs_split(s, q + 1, n, opt_units_sql(l.opt_units));
    lemma_occurs_index(s, q, seq![40u8], 0);
    lemma_occurs_index(s, q + 1 + x.len(), seq![41u8], 0);
    lemma_decimal(l.length.length as nat);
    assert(n == decimal(l.length.length as nat) + match l.length.multiplier {
        Some(m) => seq![m.code()],
        None => Seq::<u8>::empty(),
    });
    lemma_occurs_split(s, q + 1, decimal(l.length.length as nat), n.subrange(
        decimal(l.length.length as nat).len() as int,
        n.len() as int,
    ));
    lemma_occurs_index(s, q + 1, n, 0);
    let e = q + 1 + n.len();
    if l.opt_units is Some {
        lemma_occurs_index(s, e, opt_units_sql(l.opt_units), 0);
    }
    lemma_lob_length_round_trip(s, q + 1, l.length);
    lemma_units_round_trip(s, e, l.opt_units);
}

proof fn lemma_lob_paren_round_trip(s: Seq<u8>, q: int, l: LargeObjectLength)
    requires
        occurs_at(s, q, parenthesized(l.sql())),
    ensures
        lob_paren_spec(s, q) == Some((q + parenthesized(l.sql()).len(), l)),
{
    let x = l.sql();
    lemma_occurs_split(s, q, seq![40u8] + x, seq![41u8]);
    lemma_occurs_split(s, q, seq![40u8], x);
    lemma_occurs_index(s, q, seq![40u8], 0);
    lemma_occurs_index(s, q + 1 + x.len(), seq![41u8], 0);
    lemma_decimal(l.length as nat);
    lemma_occurs_index(s, q + 1, x, 0);
    lemma_lob_length_round_trip(s, q + 1, l);
}

proof fn lemma_u32_paren_round_trip(s: Seq<u8>, q: int, n: u32)
    requires
        occurs_at(s, q, parenthesized(decimal(n as nat))),
    ensures
        u32_paren_spec(s, q) == Some((q + parenthesized(decimal(n as nat)).len(), n)),
{
    let x = decimal(n as nat);
    lemma_decimal(n as nat);
    lemma_occurs_split(s, q, seq![40u8] + x, seq![41u8]);
    lemma_occurs_split(s, q, seq![40u8], x);
    lemma_occurs_index(s, q, seq![40u8], 0);
    lemma_occurs_index(s, q + 1, x, 0);
    lemma_occurs_index(s, q + 1 + x.len(), seq![41u8], 0);
    lemma_u32_round_trip(s, q + 1, n);
}

proof fn lemma_exact_number_info_round_trip(s: Seq<u8>, q: int, i: ExactNumberInfo)
    requires
        occurs_at(s, q, i.sql()),
        ends_data_type(s, q + i.sql().len()),
    ensures
        exact_number_info_spec(s, q) == (q + i.sql().len(), i),
{
    match i {
        ExactNumberInfo::Unspecified => {},
        ExactNumberInfo::Precision(pr) => {
            let x = decimal(pr as nat);
            lemma_u32_paren_round_trip(s, q, pr);
            lemma_occurs_split(s, q, seq![40u8] + x, seq![41u8]);
            lemma_occurs_index(s, q + 1 + x.len(), seq![41u8], 0);
            lemma_occurs_split(s, q, seq![40u8], x);
            lemma_occurs_index(s, q + 1, x, 0);
            lemma_decimal(pr as nat);
            lemma_u32_round_trip(s, q + 1, pr);
        },
        ExactNumberInfo::PrecisionAndScale(pr, sc) => {
            let a = decimal(pr as nat);
            let c = decimal(sc as nat);
            let x = a + seq![44u8, 32u8] + c;
            lemma_decimal(pr as nat);
            lemma_decimal(sc as nat);
            lemma_occurs_split(s, q, seq![40u8] + x, seq![41u8]);
            lemma_occurs_split(s, q, seq![40u8], x);
            lemma_occurs_split(s, q + 1, a + seq![44u8, 32u8], c);
            lemma_occurs_split(s, q + 1, a, seq![44u8, 32u8]);
            lemma_occurs_index(s, q, seq![40u8], 0);
            lemma_occurs_index(s, q + 1, a, 0);
            let b = q + 1 + a.len();
            lemma_occurs_index(s, b, seq![44u8, 32u8], 0);
            lemma_occurs_index(s, b, seq![44u8, 32u8], 1);
            lemma_occurs_index(s, b + 2, c, 0);
            lemma_occurs_index(s, q + 1 + x.len(), seq![41u8], 0);
            lemma_u32_round_trip(s, q + 1, pr);
            lemma_ws_one(s, b + 1);
            lemma_u32_round_trip(s, b + 2, sc);
        },
    }
}

proof fn lemma_time_zone_round_trip(s: Seq<u8>, a: int, tz: WithOrWithoutTimeZone)
    requires
        occurs_at(s, a, tz.sql()),
        ends_data_type(s, a + tz.sql().len()),
    ensures
        time_zone_spec(s, a) == (a + tz.sql().len(), tz),
{
    match tz {
        WithOrWithoutTimeZone::Unspecified => {},
        WithOrWithoutTimeZone::WithTimeZone => {
            let k = Keyword::WithTimeZone;
            lemma_occurs_split(s, a, seq![32u8], k.text());
            lemma_occurs_index(s, a, seq![32u8], 0);
            lemma_occurs_index(s, a + 1, k.text(), 0);
            lemma_occurs_index(s, a + 1, k.text(), 4);
            lemma_ws_one(s, a);
            if keyword_at_spec(s, a + 1, Keyword::WithoutTimeZone) {
                lemma_tag_index(s, a + 1, Keyword::WithoutTimeZone.text(), 4);
            }
            lemma_occurs_keyword(s, a + 1, k);
        },
        WithOrWithoutTimeZone::WithoutTimeZone => {
            let k = Keyword::WithoutTimeZone;
            lemma_occurs_split(s, a, seq![32u8], k.text());
            lemma_occurs_index(s, a, seq![32u8], 0);
            lemma_occurs_index(s, a + 1, k.text(), 0);
            lemma_ws_one(s, a);
            lemma_occurs_keyword(s, a + 1, k);
        },
    }
}

/// The canonical text of a data type, standing at `p` and followed by the
/// end of the text, `,` or `)`, parses back to that type.
#[verifier::spinoff_prover]
#[verifier::rlimit(60)]
pub proof fn lemma_data_type_in_text(s: Seq<u8>, p: int, d: DataType)
    requires
        occurs_at(s, p, d.sql()),
        ends_data_type(s, p + d.sql().len()),
    ensures
        data_type_spec(s, p) == Some((p + d.sql().len(), d)),
{
    let k = d.keyword();
    let q = p + k.text().len();
    lemma_occurs_split(s, p, k.text(), d.suffix_sql());
    match d {
        DataType::CharacterLargeObject(l) => {
            assert(type_keywords()[0] == Keyword::CharacterLargeObject);
            if let Some(l) = l {
                lemma_occurs_index(s, q, d.suffix_sql(), 0);
                lemma_keyword_first(k, s, p);
                lemma_clob_length_round_trip(s, q, l);
            } else {
                lemma_keyword_first(k, s, p);
            }
        },
        DataType::CharLargeObject(l) => {
            assert(type_keywords()[1] == Keyword::CharLargeObject);
            if let Some(l) = l {
                lemma_occurs_index(s, q, d.suffix_sql(), 0);
                lemma_keyword_first(k, s, p);
                lemma_clob_length_round_trip(s, q, l);
            } else {
                lemma_keyword_first(k, s, p);
            }
        },
        DataType::Clob(l) => {
            assert(type_keywords()[2] == Keyword::Clob);
            if let Some(l) = l {
                lemma_occurs_index(s, q, d.suffix_sql(), 0);
                lemma_keyword_first(k, s, p);
                lemma_clob_length_round_trip(s, q, l);
            } else {
                lemma_keyword_first(k, s, p);
            }
        },
        DataType::CharacterVarying(l) => {
            assert(type_keywords()[3] == Keyword::CharacterVarying);
            if let Some(l) = l {
                lemma_occurs_index(s, q, d.suffix_sql(), 0);
                lemma_keyword_first(k, s, p);
                lemma_char_length_round_trip(s, q, l);
            } else {
                lemma_keyword_first(k, s, p);
            }
        },
        DataType::CharVarying(l) => {
            assert(type_keywords()[4] == Keyword::CharVarying);
            if let Some(l) = l {
                lemma_occurs_index(s, q, d.suffix_sql(), 0);
                lemma_keyword_first(k, s, p);
                lemma_char_length_round_trip(s, q, l);
            } else {
                lemma_keyword_first(k, s, p);
            }
        },
        DataType::Character(l) => {
            assert(type_keywords()[5] == Keyword::Character);
            if let Some(l) = l {
                lemma_occurs_index(s, q, d.suffix_sql(), 0);
                lemma_keyword_first(k, s, p);
                lemma_char_length_round_trip(s, q, l);
            } else {
                lemma_keyword_first(k, s, p);
            }
        },
        DataType::Varchar(l) => {
            assert(type_keywords()[6] == Keyword::Varchar);
            if let Some(l) = l {
                lemma_occurs_index(s, q, d.suffix_sql(), 0);
                lemma_keyword_first(k, s, p);
                lemma_char_length_round_trip(s, q, l);
            } else {
                lemma_keyword_first(k, s, p);
            }
        },
        DataType::Char(l) => {
            assert(type_keywords()[7] == Keyword::Char);
            if let Some(l) = l {
                lemma_occurs_index(s, q, d.suffix_sql(), 0);
                lemma_keyword_first(k, s, p);
                lemma_char_length_round_trip(s, q, l);
            } else {
                lemma_keyword_first(k, s, p);
            }
        },
        DataType::BinaryLargeObject(l) => {
            assert(type_keywords()[8] == Keyword::BinaryLargeObject);
            if let Some(l) = l {
                lemma_occurs_index(s, q, d.suffix_sql(), 0);
                lemma_keyword_first(k, s, p);
                lemma_lob_paren_round_trip(s, q, l);
            } else {
                lemma_keyword_first(k, s, p);
            }
        },
        DataType::Blob(l) => {
            assert(type_keywords()[9] == Keyword::Blob);
            if let Some(l) = l {
                lemma_occurs_index(s, q, d.suffix_sql(), 0);
                lemma_keyword_first(k, s, p);
                lemma_lob_paren_round_trip(s, q, l);
            } else {
                lemma_keyword_first(k, s, p);
            }
        },
        DataType::Varbinary(l) => {
            assert(type_keywords()[10] == Keyword::Varbinary);
            if let Some(l) = l {
                lemma_occurs_index(s, q, d.suffix_sql(), 0);
                lemma_keyword_first(k, s, p);
                lemma_u32_paren_round_trip(s, q, l);
            } else {
                lemma_keyword_first(k, s, p);
            }
        },
        DataType::BinaryVarying(l) => {
            assert(type_keywords()[11] == Keyword::BinaryVarying);
            if let Some(l) = l {
                lemma_occurs_index(s, q, d.suffix_sql(), 0);
                lemma_keyword_first(k, s, p);
                lemma_u32_paren_round_trip(s, q, l);
            } else {
                lemma_keyword_first(k, s, p);
            }
        },
        DataType::Binary(l) => {
            assert(type_keywords()[12] == Keyword::Binary);
            if let Some(l) = l {
                lemma_occurs_index(s, q, d.suffix_sql(), 0);
                lemma_keyword_first(k, s, p);
                lemma_u32_paren_round_trip(s, q, l);
            } else {
                lemma_keyword_first(k, s, p);
            }
        },
        DataType::DecFloat(l) => {
            assert(type_keywords()[13] == Keyword::DecFloat);
            if let Some(l) = l {
                lemma_occurs_index(s, q, d.suffix_sql(), 0);
                lemma_keyword_first(k, s, p);
                lemma_u32_paren_round_trip(s, q, l);
            } else {
                lemma_keyword_first(k, s, p);
            }
        },
        DataType::Decimal(i) => {
            assert(type_keywords()[14] == Keyword::Decimal);
            if !(i is Unspecified) {
                lemma_occurs_index(s, q, d.suffix_sql(), 0);
            }
            lemma_keyword_first(k, s, p);
            lemma_exact_number_info_round_trip(s, q, i);
        },
        DataType::Numeric(i) => {
            assert(type_keywords()[15] == Keyword::Numeric);
            if !(i is Unspecified) {
                lemma_occurs_index(s, q, d.suffix_sql(), 0);
            }
            lemma_keyword_first(k, s, p);
            lemma_exact_number_info_round_trip(s, q, i);
        },
        DataType::Dec(i) => {
            assert(type_keywords()[16] == Keyword::Dec);
            if !(i is Unspecified) {
                lemma_occurs_index(s, q, d.suffix_sql(), 0);
            }
            lemma_keyword_first(k, s, p);
            lemma_exact_number_info_round_trip(s, q, i);
        },
        DataType::Smallint => {
            assert(type_keywords()[17] == Keyword::Smallint);
            lemma_keyword_first(k, s, p);
        },
        DataType::Integer => {
            assert(type_keywords()[18] == Keyword::Integer);
            lemma_keyword_first(k, s, p);
        },
        DataType::Bigint => {
            assert(type_keywords()[19] == Keyword::Bigint);
            lemma_keyword_first(k, s, p);
        },
        DataType::Int => {
            assert(type_keywords()[20] == Keyword::Int);
            lemma_keyword_first(k, s, p);
        },
        DataType::Float => {
            assert(type_keywords()[21] == Keyword::Float);
            lemma_keyword_first(k, s, p);
        },
        DataType::Real => {
            assert(type_keywords()[22] == Keyword::Real);
            lemma_keyword_first(k, s, p);
        },
        DataType::DoublePrecision => {
            assert(type_keywords()[23] == Keyword::DoublePrecision);
            lemma_keyword_first(k, s, p);
        },
        DataType::Boolean => {
            assert(type_keywords()[24] == Keyword::Boolean);
            lemma_keyword_first(k, s, p);
        },
        DataType::Date => {
            assert(type_keywords()[25] == Keyword::Date);
            lemma_keyword_first(k, s, p);
        },
        DataType::Timestamp(n, tz) => {
            assert(type_keywords()[26] == Keyword::Timestamp);
            lemma_occurs_split(s, q, opt_u32_sql(n), tz.sql());
            if let Some(n) = n {
                lemma_occurs_index(s, q, d.suffix_sql(), 0);
                lemma_keyword_first(k, s, p);
                lemma_u32_paren_round_trip(s, q, n);
                lemma_time_zone_round_trip(s, q + opt_u32_sql(Some(n)).len(), tz);
            } else {
                if !(tz is Unspecified) {
                    lemma_occurs_index(s, q, tz.sql(), 0);
                }
                lemma_keyword_first(k, s, p);
                lemma_time_zone_round_trip(s, q, tz);
            }
        },
        DataType::Time(n, tz) => {
            assert(type_keywords()[27] == Keyword::Time);
            lemma_occurs_split(s, q, opt_u32_sql(n), tz.sql());
            if let Some(n) = n {
                lemma_occurs_index(s, q, d.suffix_sql(), 0);
                lemma_keyword_first(k, s, p);
                lemma_u32_paren_round_trip(s, q, n);
                lemma_time_zone_round_trip(s, q + opt_u32_sql(Some(n)).len(), tz);
            } else {
                if !(tz is Unspecified) {
                    lemma_occurs_index(s, q, tz.sql(), 0);
                }
                lemma_keyword_first(k, s, p);
                lemma_time_zone_round_trip(s, q, tz);
            }
        },
    }
}

/// Round trip of data types: the canonical text of every data type parses
/// back to that same type, and the parse consumes the whole text.
pub proof fn lemma_data_type_round_trip(d: DataType)
    ensures
        data_type_spec(d.sql(), 0) == Some((d.sql().len() as int, d)),
{
    let s = d.sql();
    assert forall|i: int| 0 <= i < s.len() implies #[trigger] s[0 + i] == s[i] by {}
    lemma_data_type_in_text(s, 0, d);
}

/// Idempotence of parse and render: where a data type parses from any text,
/// rendering it and parsing the rendering gives the same type again.
pub proof fn lemma_data_type_idempotent(s: Seq<u8>, p: int)
    requires
        data_type_spec(s, p) is Some,
    ensures
        ({
            let d = data_type_spec(s, p)->Some_0.1;
            data_type_spec(d.sql(), 0) == Some((d.sql().len() as int, d))
        }),
{
    lemma_data_type_round_trip(data_type_spec(s, p)->Some_0.1);
}

/// Keyword-prefix disambiguation: the bare keyword of every data type, with
/// no size, precision or time zone parts, parses to that type and not to one
/// whose keyword is a prefix of it.
pub proof fn lemma_bare_keyword_resolves(d: DataType)
    requires
        d.suffix_sql().len() == 0,
    ensures
        first_keyword(d.keyword().text(), 0, type_keywords()) == Some(d.keyword()),
        data_type_spec(d.keyword().text(), 0) == Some((d.keyword().text().len() as int, d)),
{
    assert(d.sql() =~= d.keyword().text());
    lemma_data_type_round_trip(d);
}

} // verus!
