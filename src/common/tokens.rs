//! Keywords of the grammar and the byte classes that the lexer works with.

use vstd::prelude::*;

verus! {

/// A reserved word or fixed phrase of the grammar, matched without regard to
/// ASCII case. Words of a phrase are separated by exactly one space.
#[derive(Clone, Copy, PartialEq, Eq, Debug, Hash, Structural)]
pub enum Keyword {
    /// `CHARACTER LARGE OBJECT`
    CharacterLargeObject,
    /// `CHAR LARGE OBJECT`
    CharLargeObject,
    /// `CLOB`
    Clob,
    /// `CHARACTER VARYING`
    CharacterVarying,
    /// `CHAR VARYING`
    CharVarying,
    /// `CHARACTER`
    Character,
    /// `VARCHAR`
    Varchar,
    /// `CHAR`
    Char,
    /// `BINARY LARGE OBJECT`
    BinaryLargeObject,
    /// `BLOB`
    Blob,
    /// `VARBINARY`
    Varbinary,
    /// `BINARY VARYING`
    BinaryVarying,
    /// `BINARY`
    Binary,
    /// `DECFLOAT`
    DecFloat,
    /// `DECIMAL`
    Decimal,
    /// `NUMERIC`
    Numeric,
    /// `DEC`
    Dec,
    /// `SMALLINT`
    Smallint,
    /// `INTEGER`
    Integer,
    /// `BIGINT`
    Bigint,
    /// `INT`
    Int,
    /// `FLOAT`
    Float,
    /// `REAL`
    Real,
    /// `DOUBLE PRECISION`
    DoublePrecision,
    /// `BOOLEAN`
    Boolean,
    /// `DATE`
    Date,
    /// `TIMESTAMP`
    Timestamp,
    /// `TIME`
    Time,
    /// `OCTETS`
    Octets,
    /// `CHARACTERS`
    Characters,
    /// `WITHOUT TIME ZONE`
    WithoutTimeZone,
    /// `WITH TIME ZONE`
    WithTimeZone,
    /// `CREATE`
    Create,
    /// `SCHEMA`
    Schema,
    /// `AUTHORIZATION`
    Authorization,
    /// `DROP`
    Drop,
    /// `TABLE`
    Table,
    /// `GLOBAL TEMPORARY`
    GlobalTemporary,
    /// `LOCAL TEMPORARY`
    LocalTemporary,
    /// `CASCADE`
    Cascade,
    /// `RESTRICT`
    Restrict,
    /// `MODULE`
    Module,
    /// `SET NULL`
    SetNull,
    /// `SET DEFAULT`
    SetDefault,
    /// `NO ACTION`
    NoAction,
    /// `ON DELETE`
    OnDelete,
    /// `ON UPDATE`
    OnUpdate,
    /// `FULL`
    Full,
    /// `PARTIAL`
    Partial,
    /// `SIMPLE`
    Simple,
    /// `PERIOD`
    Period,
}

impl Keyword {
    /// The canonical (upper case) spelling of the keyword.
    pub open spec fn text(self) -> Seq<u8> {
        match self {
            Keyword::CharacterLargeObject => seq![
                67u8, 72u8, 65u8, 82u8, 65u8, 67u8, 84u8, 69u8, 82u8, 32u8, 76u8, 65u8, 82u8, 71u8,
                69u8, 32u8, 79u8, 66u8, 74u8, 69u8, 67u8, 84u8,
            ],
            Keyword::CharLargeObject => seq![
                67u8, 72u8, 65u8, 82u8, 32u8, 76u8, 65u8, 82u8, 71u8, 69u8, 32u8, 79u8, 66u8, 74u8,
                69u8, 67u8, 84u8,
            ],
            Keyword::Clob => seq![67u8, 76u8, 79u8, 66u8],
            Keyword::CharacterVarying => seq![
                67u8, 72u8, 65u8, 82u8, 65u8, 67u8, 84u8, 69u8, 82u8, 32u8, 86u8, 65u8, 82u8, 89u8,
                73u8, 78u8, 71u8,
            ],
            Keyword::CharVarying => seq![
                67u8, 72u8, 65u8, 82u8, 32u8, 86u8, 65u8, 82u8, 89u8, 73u8, 78u8, 71u8,
            ],
            Keyword::Character => seq![67u8, 72u8, 65u8, 82u8, 65u8, 67u8, 84u8, 69u8, 82u8],
            Keyword::Varchar => seq![86u8, 65u8, 82u8, 67u8, 72u8, 65u8, 82u8],
            Keyword::Char => seq![67u8, 72u8, 65u8, 82u8],
            Keyword::BinaryLargeObject => seq![
                66u8, 73u8, 78u8, 65u8, 82u8, 89u8, 32u8, 76u8, 65u8, 82u8, 71u8, 69u8, 32u8, 79u8,
                66u8, 74u8, 69u8, 67u8, 84u8,
            ],
            Keyword::Blob => seq![66u8, 76u8, 79u8, 66u8],
            Keyword::Varbinary => seq![86u8, 65u8, 82u8, 66u8, 73u8, 78u8, 65u8, 82u8, 89u8],
            Keyword::BinaryVarying => seq![
                66u8, 73u8, 78u8, 65u8, 82u8, 89u8, 32u8, 86u8, 65u8, 82u8, 89u8, 73u8, 78u8, 71u8,
            ],
            Keyword::Binary => seq![66u8, 73u8, 78u8, 65u8, 82u8, 89u8],
            Keyword::DecFloat => seq![68u8, 69u8, 67u8, 70u8, 76u8, 79u8, 65u8, 84u8],
            Keyword::Decimal => seq![68u8, 69u8, 67u8, 73u8, 77u8, 65u8, 76u8],
            Keyword::Numeric => seq![78u8, 85u8, 77u8, 69u8, 82u8, 73u8, 67u8],
            Keyword::Dec => seq![68u8, 69u8, 67u8],
            Keyword::Smallint => seq![83u8, 77u8, 65u8, 76u8, 76u8, 73u8, 78u8, 84u8],
            Keyword::Integer => seq![73u8, 78u8, 84u8, 69u8, 71u8, 69u8, 82u8],
            Keyword::Bigint => seq![66u8, 73u8, 71u8, 73u8, 78u8, 84u8],
            Keyword::Int => seq![73u8, 78u8, 84u8],
            Keyword::Float => seq![70u8, 76u8, 79u8, 65u8, 84u8],
            Keyword::Real => seq![82u8, 69u8, 65u8, 76u8],
            Keyword::DoublePrecision => seq![
                68u8, 79u8, 85u8, 66u8, 76u8, 69u8, 32u8, 80u8, 82u8, 69u8, 67u8, 73u8, 83u8, 73u8,
                79u8, 78u8,
            ],
            Keyword::Boolean => seq![66u8, 79u8, 79u8, 76u8, 69u8, 65u8, 78u8],
            Keyword::Date => seq![68u8, 65u8, 84u8, 69u8],
            Keyword::Timestamp => seq![84u8, 73u8, 77u8, 69u8, 83u8, 84u8, 65u8, 77u8, 80u8],
            Keyword::Time => seq![84u8, 73u8, 77u8, 69u8],
            Keyword::Octets => seq![79u8, 67u8, 84u8, 69u8, 84u8, 83u8],
            Keyword::Characters => seq![67u8, 72u8, 65u8, 82u8, 65u8, 67u8, 84u8, 69u8, 82u8, 83u8],
            Keyword::WithoutTimeZone => seq![
                87u8, 73u8, 84u8, 72u8, 79u8, 85u8, 84u8, 32u8, 84u8, 73u8, 77u8, 69u8, 32u8, 90u8,
                79u8, 78u8, 69u8,
            ],
            Keyword::WithTimeZone => seq![
                87u8, 73u8, 84u8, 72u8, 32u8, 84u8, 73u8, 77u8, 69u8, 32u8, 90u8, 79u8, 78u8, 69u8,
            ],
            Keyword::Create => seq![67u8, 82u8, 69u8, 65u8, 84u8, 69u8],
            Keyword::Schema => seq![83u8, 67u8, 72u8, 69u8, 77u8, 65u8],
            Keyword::Authorization => seq![
                65u8, 85u8, 84u8, 72u8, 79u8, 82u8, 73u8, 90u8, 65u8, 84u8, 73u8, 79u8, 78u8,
            ],
            Keyword::Drop => seq![68u8, 82u8, 79u8, 80u8],
            Keyword::Table => seq![84u8, 65u8, 66u8, 76u8, 69u8],
            Keyword::GlobalTemporary => seq![
                71u8, 76u8, 79u8, 66u8, 65u8, 76u8, 32u8, 84u8, 69u8, 77u8, 80u8, 79u8, 82u8, 65u8,
                82u8, 89u8,
            ],
            Keyword::LocalTemporary => seq![
                76u8, 79u8, 67u8, 65u8, 76u8, 32u8, 84u8, 69u8, 77u8, 80u8, 79u8, 82u8, 65u8, 82u8,
                89u8,
            ],
            Keyword::Cascade => seq![67u8, 65u8, 83u8, 67u8, 65u8, 68u8, 69u8],
            Keyword::Restrict => seq![82u8, 69u8, 83u8, 84u8, 82u8, 73u8, 67u8, 84u8],
            Keyword::Module => seq![77u8, 79u8, 68u8, 85u8, 76u8, 69u8],
            Keyword::SetNull => seq![83u8, 69u8, 84u8, 32u8, 78u8, 85u8, 76u8, 76u8],
            Keyword::SetDefault => seq![
                83u8, 69u8, 84u8, 32u8, 68u8, 69u8, 70u8, 65u8, 85u8, 76u8, 84u8,
            ],
            Keyword::NoAction => seq![78u8, 79u8, 32u8, 65u8, 67u8, 84u8, 73u8, 79u8, 78u8],
            Keyword::OnDelete => seq![79u8, 78u8, 32u8, 68u8, 69u8, 76u8, 69u8, 84u8, 69u8],
            Keyword::OnUpdate => seq![79u8, 78u8, 32u8, 85u8, 80u8, 68u8, 65u8, 84u8, 69u8],
            Keyword::Full => seq![70u8, 85u8, 76u8, 76u8],
            Keyword::Partial => seq![80u8, 65u8, 82u8, 84u8, 73u8, 65u8, 76u8],
            Keyword::Simple => seq![83u8, 73u8, 77u8, 80u8, 76u8, 69u8],
            Keyword::Period => seq![80u8, 69u8, 82u8, 73u8, 79u8, 68u8],
        }
    }

    /// The canonical spelling as bytes.
    pub fn bytes(self) -> (r: Vec<u8>)
        ensures
            r@ == self.text(),
    {
        match self {
            Keyword::CharacterLargeObject => {
                let a: [u8; 22] = [
                    67u8, 72u8, 65u8, 82u8, 65u8, 67u8, 84u8, 69u8, 82u8, 32u8, 76u8, 65u8, 82u8,
                    71u8, 69u8, 32u8, 79u8, 66u8, 74u8, 69u8, 67u8, 84u8,
                ];
                bytes_of(&a)
            }
            Keyword::CharLargeObject => {
                let a: [u8; 17] = [
                    67u8, 72u8, 65u8, 82u8, 32u8, 76u8, 65u8, 82u8, 71u8, 69u8, 32u8, 79u8, 66u8,
                    74u8, 69u8, 67u8, 84u8,
                ];
                bytes_of(&a)
            }
            Keyword::Clob => {
                let a: [u8; 4] = [67u8, 76u8, 79u8, 66u8];
                bytes_of(&a)
            }
            Keyword::CharacterVarying => {
                let a: [u8; 17] = [
                    67u8, 72u8, 65u8, 82u8, 65u8, 67u8, 84u8, 69u8, 82u8, 32u8, 86u8, 65u8, 82u8,
                    89u8, 73u8, 78u8, 71u8,
                ];
                bytes_of(&a)
            }
            Keyword::CharVarying => {
                let a: [u8; 12] = [
                    67u8, 72u8, 65u8, 82u8, 32u8, 86u8, 65u8, 82u8, 89u8, 73u8, 78u8, 71u8,
                ];
                bytes_of(&a)
            }
            Keyword::Character => {
                let a: [u8; 9] = [67u8, 72u8, 65u8, 82u8, 65u8, 67u8, 84u8, 69u8, 82u8];
                bytes_of(&a)
            }
            Keyword::Varchar => {
                let a: [u8; 7] = [86u8, 65u8, 82u8, 67u8, 72u8, 65u8, 82u8];
                bytes_of(&a)
            }
            Keyword::Char => {
                let a: [u8; 4] = [67u8, 72u8, 65u8, 82u8];
                bytes_of(&a)
            }
            Keyword::BinaryLargeObject => {
                let a: [u8; 19] = [
                    66u8, 73u8, 78u8, 65u8, 82u8, 89u8, 32u8, 76u8, 65u8, 82u8, 71u8, 69u8, 32u8,
                    79u8, 66u8, 74u8, 69u8, 67u8, 84u8,
                ];
                bytes_of(&a)
            }
            Keyword::Blob => {
                let a: [u8; 4] = [66u8, 76u8, 79u8, 66u8];
                bytes_of(&a)
            }
            Keyword::Varbinary => {
                let a: [u8; 9] = [86u8, 65u8, 82u8, 66u8, 73u8, 78u8, 65u8, 82u8, 89u8];
                bytes_of(&a)
            }
            Keyword::BinaryVarying => {
                let a: [u8; 14] = [
                    66u8, 73u8, 78u8, 65u8, 82u8, 89u8, 32u8, 86u8, 65u8, 82u8, 89u8, 73u8, 78u8,
                    71u8,
                ];
                bytes_of(&a)
            }
            Keyword::Binary => {
                let a: [u8; 6] = [66u8, 73u8, 78u8, 65u8, 82u8, 89u8];
                bytes_of(&a)
            }
            Keyword::DecFloat => {
                let a: [u8; 8] = [68u8, 69u8, 67u8, 70u8, 76u8, 79u8, 65u8, 84u8];
                bytes_of(&a)
            }
            Keyword::Decimal => {
                let a: [u8; 7] = [68u8, 69u8, 67u8, 73u8, 77u8, 65u8, 76u8];
                bytes_of(&a)
            }
            Keyword::Numeric => {
                let a: [u8; 7] = [78u8, 85u8, 77u8, 69u8, 82u8, 73u8, 67u8];
                bytes_of(&a)
            }
            Keyword::Dec => {
                let a: [u8; 3] = [68u8, 69u8, 67u8];
                bytes_of(&a)
            }
            Keyword::Smallint => {
                let a: [u8; 8] = [83u8, 77u8, 65u8, 76u8, 76u8, 73u8, 78u8, 84u8];
                bytes_of(&a)
            }
            Keyword::Integer => {
                let a: [u8; 7] = [73u8, 78u8, 84u8, 69u8, 71u8, 69u8, 82u8];
                bytes_of(&a)
            }
            Keyword::Bigint => {
                let a: [u8; 6] = [66u8, 73u8, 71u8, 73u8, 78u8, 84u8];
                bytes_of(&a)
            }
            Keyword::Int => {
                let a: [u8; 3] = [73u8, 78u8, 84u8];
                bytes_of(&a)
            }
            Keyword::Float => {
                let a: [u8; 5] = [70u8, 76u8, 79u8, 65u8, 84u8];
                bytes_of(&a)
            }
            Keyword::Real => {
                let a: [u8; 4] = [82u8, 69u8, 65u8, 76u8];
                bytes_of(&a)
            }
            Keyword::DoublePrecision => {
                let a: [u8; 16] = [
                    68u8, 79u8, 85u8, 66u8, 76u8, 69u8, 32u8, 80u8, 82u8, 69u8, 67u8, 73u8, 83u8,
                    73u8, 79u8, 78u8,
                ];
                bytes_of(&a)
            }
            Keyword::Boolean => {
                let a: [u8; 7] = [66u8, 79u8, 79u8, 76u8, 69u8, 65u8, 78u8];
                bytes_of(&a)
            }
            Keyword::Date => {
                let a: [u8; 4] = [68u8, 65u8, 84u8, 69u8];
                bytes_of(&a)
            }
            Keyword::Timestamp => {
                let a: [u8; 9] = [84u8, 73u8, 77u8, 69u8, 83u8, 84u8, 65u8, 77u8, 80u8];
                bytes_of(&a)
            }
            Keyword::Time => {
                let a: [u8; 4] = [84u8, 73u8, 77u8, 69u8];
                bytes_of(&a)
            }
            Keyword::Octets => {
                let a: [u8; 6] = [79u8, 67u8, 84u8, 69u8, 84u8, 83u8];
                bytes_of(&a)
            }
            Keyword::Characters => {
                let a: [u8; 10] = [67u8, 72u8, 65u8, 82u8, 65u8, 67u8, 84u8, 69u8, 82u8, 83u8];
                bytes_of(&a)
            }
            Keyword::WithoutTimeZone => {
                let a: [u8; 17] = [
                    87u8, 73u8, 84u8, 72u8, 79u8, 85u8, 84u8, 32u8, 84u8, 73u8, 77u8, 69u8, 32u8,
                    90u8, 79u8, 78u8, 69u8,
                ];
                bytes_of(&a)
            }
            Keyword::WithTimeZone => {
                let a: [u8; 14] = [
                    87u8, 73u8, 84u8, 72u8, 32u8, 84u8, 73u8, 77u8, 69u8, 32u8, 90u8, 79u8, 78u8,
                    69u8,
                ];
                bytes_of(&a)
            }
            Keyword::Create => {
                let a: [u8; 6] = [67u8, 82u8, 69u8, 65u8, 84u8, 69u8];
                bytes_of(&a)
            }
            Keyword::Schema => {
                let a: [u8; 6] = [83u8, 67u8, 72u8, 69u8, 77u8, 65u8];
                bytes_of(&a)
            }
            Keyword::Authorization => {
                let a: [u8; 13] = [
                    65u8, 85u8, 84u8, 72u8, 79u8, 82u8, 73u8, 90u8, 65u8, 84u8, 73u8, 79u8, 78u8,
                ];
                bytes_of(&a)
            }
            Keyword::Drop => {
                let a: [u8; 4] = [68u8, 82u8, 79u8, 80u8];
                bytes_of(&a)
            }
            Keyword::Table => {
                let a: [u8; 5] = [84u8, 65u8, 66u8, 76u8, 69u8];
                bytes_of(&a)
            }
            Keyword::GlobalTemporary => {
                let a: [u8; 16] = [
                    71u8, 76u8, 79u8, 66u8, 65u8, 76u8, 32u8, 84u8, 69u8, 77u8, 80u8, 79u8, 82u8,
                    65u8, 82u8, 89u8,
                ];
                bytes_of(&a)
            }
            Keyword::LocalTemporary => {
                let a: [u8; 15] = [
                    76u8, 79u8, 67u8, 65u8, 76u8, 32u8, 84u8, 69u8, 77u8, 80u8, 79u8, 82u8, 65u8,
                    82u8, 89u8,
                ];
                bytes_of(&a)
            }
            Keyword::Cascade => {
                let a: [u8; 7] = [67u8, 65u8, 83u8, 67u8, 65u8, 68u8, 69u8];
                bytes_of(&a)
            }
            Keyword::Restrict => {
                let a: [u8; 8] = [82u8, 69u8, 83u8, 84u8, 82u8, 73u8, 67u8, 84u8];
                bytes_of(&a)
            }
            Keyword::Module => {
                let a: [u8; 6] = [77u8, 79u8, 68u8, 85u8, 76u8, 69u8];
                bytes_of(&a)
            }
            Keyword::SetNull => {
                let a: [u8; 8] = [83u8, 69u8, 84u8, 32u8, 78u8, 85u8, 76u8, 76u8];
                bytes_of(&a)
            }
            Keyword::SetDefault => {
                let a: [u8; 11] = [
                    83u8, 69u8, 84u8, 32u8, 68u8, 69u8, 70u8, 65u8, 85u8, 76u8, 84u8,
                ];
                bytes_of(&a)
            }
            Keyword::NoAction => {
                let a: [u8; 9] = [78u8, 79u8, 32u8, 65u8, 67u8, 84u8, 73u8, 79u8, 78u8];
                bytes_of(&a)
            }
            Keyword::OnDelete => {
                let a: [u8; 9] = [79u8, 78u8, 32u8, 68u8, 69u8, 76u8, 69u8, 84u8, 69u8];
                bytes_of(&a)
            }
            Keyword::OnUpdate => {
                let a: [u8; 9] = [79u8, 78u8, 32u8, 85u8, 80u8, 68u8, 65u8, 84u8, 69u8];
                bytes_of(&a)
            }
            Keyword::Full => {
                let a: [u8; 4] = [70u8, 85u8, 76u8, 76u8];
                bytes_of(&a)
            }
            Keyword::Partial => {
                let a: [u8; 7] = [80u8, 65u8, 82u8, 84u8, 73u8, 65u8, 76u8];
                bytes_of(&a)
            }
            Keyword::Simple => {
                let a: [u8; 6] = [83u8, 73u8, 77u8, 80u8, 76u8, 69u8];
                bytes_of(&a)
            }
            Keyword::Period => {
                let a: [u8; 6] = [80u8, 69u8, 82u8, 73u8, 79u8, 68u8];
                bytes_of(&a)
            }
        }
    }
}
/// Copies a byte slice into a fresh vector.
pub fn bytes_of(a: &[u8]) -> (r: Vec<u8>)
    ensures
        r@ == a@,
{
    let mut r: Vec<u8> = Vec::new();
    push_all(&mut r, a);
    r
}

/// Appends every byte of `a` to `out`.
pub fn push_all(out: &mut Vec<u8>, a: &[u8])
    ensures
        final(out)@ == old(out)@ + a@,
{
    let mut i: usize = 0;
    while i < a.len()
        invariant
            0 <= i <= a@.len(),
            out@ == old(out)@ + a@.subrange(0, i as int),
        decreases a@.len() - i,
    {
        out.push(a[i]);
        i = i + 1;
        assert(out@ =~= old(out)@ + a@.subrange(0, i as int));
    }
    assert(a@.subrange(0, a@.len() as int) =~= a@);
}

/// Appends the canonical spelling of a keyword to `out`.
pub fn push_keyword(out: &mut Vec<u8>, k: Keyword)
    ensures
        final(out)@ == old(out)@ + k.text(),
{
    let b = k.bytes();
    push_all(out, b.as_slice());
}

/// ASCII lower-casing of one byte; other bytes are left as they are.
pub open spec fn lower(b: u8) -> u8 {
    if 65 <= b <= 90 {
        (b + 32) as u8
    } else {
        b
    }
}

/// The bytes of `s` from `p` on start with `t`, ignoring ASCII case.
pub open spec fn tag_at(s: Seq<u8>, p: int, t: Seq<u8>) -> bool {
    &&& 0 <= p
    &&& p + t.len() <= s.len()
    &&& forall|i: int| 0 <= i < t.len() ==> lower(#[trigger] s[p + i]) == lower(t[i])
}

/// The keyword `k` stands in `s` at `p`.
pub open spec fn keyword_at_spec(s: Seq<u8>, p: int, k: Keyword) -> bool {
    tag_at(s, p, k.text())
}

fn to_lower(b: u8) -> (r: u8)
    ensures
        r == lower(b),
{
    if 65 <= b && b <= 90 {
        b + 32
    } else {
        b
    }
}

/// Whether the keyword `k` stands at `p`, ignoring ASCII case.
pub fn keyword_at(s: &[u8], p: usize, k: Keyword) -> (r: bool)
    ensures
        r == keyword_at_spec(s@, p as int, k),
{
    let t = k.bytes();
    if p > s.len() || t.len() > s.len() - p {
        return false;
    }
    let n = s.len();
    let mut i: usize = 0;
    while i < t.len()
        invariant
            0 <= i <= t@.len(),
            n == s@.len(),
            t@ == k.text(),
            p + t@.len() <= s@.len(),
            forall|j: int| 0 <= j < i ==> lower(#[trigger] s@[p + j]) == lower(t@[j]),
        decreases t@.len() - i,
    {
        if to_lower(s[p + i]) != to_lower(t[i]) {
            return false;
        }
        i = i + 1;
    }
    true
}

/// Where the keyword `k` ends, if it stands at `p`.
pub fn match_keyword(s: &[u8], p: usize, k: Keyword) -> (r: Option<usize>)
    ensures
        keyword_at_spec(s@, p as int, k) ==> r == Some((p + k.text().len()) as usize),
        !keyword_at_spec(s@, p as int, k) ==> r is None,
        r matches Some(e) ==> e == p + k.text().len() && e <= s@.len(),
{
    let n = s.len();
    if keyword_at(s, p, k) {
        let t = k.bytes();
        assert(p + t@.len() <= n);
        Some(p + t.len())
    } else {
        None
    }
}

/// The whitespace bytes: tab, line feed, vertical tab, form feed, carriage
/// return, space, and the Latin-1 next line (0x85) and no-break space (0xA0).
pub open spec fn is_ws(b: u8) -> bool {
    b == 9 || b == 10 || b == 11 || b == 12 || b == 13 || b == 32 || b == 0x85 || b == 0xA0
}

/// Whitespace that does not break a line.
pub open spec fn is_inline_ws(b: u8) -> bool {
    is_ws(b) && b != 10 && b != 13
}

/// Whether a character is whitespace in the sense of the grammar: one of
/// U+0009 to U+000D, U+0020, U+0085 or U+00A0.
pub fn is_whitespace(i: char) -> (r: bool)
    ensures
        r == (i as u32 == 9 || i as u32 == 10 || i as u32 == 11 || i as u32 == 12
            || i as u32 == 13 || i as u32 == 32 || i as u32 == 0x85 || i as u32 == 0xA0),
{
    let c = i as u32;
    c == 9 || c == 10 || c == 11 || c == 12 || c == 13 || c == 32 || c == 0x85 || c == 0xA0
}

/// Whether a byte is whitespace.
pub fn is_ws_byte(b: u8) -> (r: bool)
    ensures
        r == is_ws(b),
{
    b == 9 || b == 10 || b == 11 || b == 12 || b == 13 || b == 32 || b == 0x85 || b == 0xA0
}

/// The end of the run of whitespace that starts at `p`.
pub open spec fn ws_end(s: Seq<u8>, p: int) -> int
    decreases s.len() - p,
{
    if 0 <= p < s.len() && is_ws(s[p]) {
        ws_end(s, p + 1)
    } else {
        p
    }
}

/// The end of the run of line-preserving whitespace that starts at `p`.
pub open spec fn inline_ws_end(s: Seq<u8>, p: int) -> int
    decreases s.len() - p,
{
    if 0 <= p < s.len() && is_inline_ws(s[p]) {
        inline_ws_end(s, p + 1)
    } else {
        p
    }
}

pub proof fn lemma_ws_end_bounds(s: Seq<u8>, p: int)
    requires
        0 <= p <= s.len(),
    ensures
        p <= ws_end(s, p) <= s.len(),
    decreases s.len() - p,
{
    if p < s.len() && is_ws(s[p]) {
        lemma_ws_end_bounds(s, p + 1);
    }
}

/// Skips whitespace from `p`.
pub fn skip_ws(s: &[u8], p: usize) -> (r: usize)
    requires
        p <= s@.len(),
    ensures
        r == ws_end(s@, p as int),
        p <= r <= s@.len(),
{
    let mut q = p;
    while q < s.len() && is_ws_byte(s[q])
        invariant
            p <= q <= s@.len(),
            ws_end(s@, q as int) == ws_end(s@, p as int),
        decreases s@.len() - q,
    {
        q = q + 1;
    }
    q
}

/// Skips whitespace that does not break a line from `p`.
pub fn skip_inline_ws(s: &[u8], p: usize) -> (r: usize)
    requires
        p <= s@.len(),
    ensures
        r == inline_ws_end(s@, p as int),
        p <= r <= s@.len(),
{
    let mut q = p;
    while q < s.len() && is_ws_byte(s[q]) && s[q] != 10 && s[q] != 13
        invariant
            p <= q <= s@.len(),
            inline_ws_end(s@, q as int) == inline_ws_end(s@, p as int),
        decreases s@.len() - q,
    {
        q = q + 1;
    }
    q
}

/// ASCII letter.
pub open spec fn is_alpha(b: u8) -> bool {
    (65 <= b <= 90) || (97 <= b <= 122)
}

/// ASCII decimal digit.
pub open spec fn is_digit(b: u8) -> bool {
    48 <= b <= 57
}

/// A byte that may stand in an identifier: an ASCII letter or digit, `_` or `@`.
pub open spec fn is_ident_byte(b: u8) -> bool {
    is_alpha(b) || is_digit(b) || b == 95 || b == 64
}

/// Whether a byte may stand in an identifier: an ASCII letter or digit, `_`
/// or `@`.
pub fn is_sql_identifier(chr: u8) -> (r: bool)
    ensures
        r == is_ident_byte(chr),
{
    (65 <= chr && chr <= 90) || (97 <= chr && chr <= 122) || (48 <= chr && chr <= 57) || chr
        == 95 || chr == 64
}

/// The end of the run of identifier bytes that starts at `p`.
pub open spec fn ident_end(s: Seq<u8>, p: int) -> int
    decreases s.len() - p,
{
    if 0 <= p < s.len() && is_ident_byte(s[p]) {
        ident_end(s, p + 1)
    } else {
        p
    }
}

/// Finds the end of the run of identifier bytes that starts at `p`.
pub fn skip_ident(s: &[u8], p: usize) -> (r: usize)
    requires
        p <= s@.len(),
    ensures
        r == ident_end(s@, p as int),
        p <= r <= s@.len(),
        forall|i: int| p <= i < r ==> is_ident_byte(#[trigger] s@[i]),
{
    let mut q = p;
    while q < s.len() && is_sql_identifier(s[q])
        invariant
            p <= q <= s@.len(),
            ident_end(s@, q as int) == ident_end(s@, p as int),
            forall|i: int| p <= i < q ==> is_ident_byte(#[trigger] s@[i]),
        decreases s@.len() - q,
    {
        q = q + 1;
    }
    q
}

/// The end of the run of decimal digits that starts at `p`.
pub open spec fn digit_end(s: Seq<u8>, p: int) -> int
    decreases s.len() - p,
{
    if 0 <= p < s.len() && is_digit(s[p]) {
        digit_end(s, p + 1)
    } else {
        p
    }
}

/// Finds the end of the run of decimal digits that starts at `p`.
pub fn skip_digits(s: &[u8], p: usize) -> (r: usize)
    requires
        p <= s@.len(),
    ensures
        r == digit_end(s@, p as int),
        p <= r <= s@.len(),
        forall|i: int| p <= i < r ==> is_digit(#[trigger] s@[i]),
{
    let mut q = p;
    while q < s.len() && 48 <= s[q] && s[q] <= 57
        invariant
            p <= q <= s@.len(),
            digit_end(s@, q as int) == digit_end(s@, p as int),
            forall|i: int| p <= i < q ==> is_digit(#[trigger] s@[i]),
        decreases s@.len() - q,
    {
        q = q + 1;
    }
    q
}

/// SQL special character.
#[derive(Copy, Clone, Eq, PartialEq, Ord, PartialOrd, Hash, Debug, Structural)]
pub enum SqlSpecialCharacter {
    /// `<space>`.
    Space,
    /// `<double quote>`.
    DoubleQuote,
    /// `<percent>`.
    Percent,
    /// `<ampersand>`.
    Ampersand,
    /// `<quote>`.
    Quote,
    /// `<left paren>`.
    LeftParen,
    /// `<right paren>`.
    RightParen,
    /// `<asterisk>`.
    Asterisk,
    /// `<plus sign>`.
    PlusSign,
    /// `<comma>`.
    Comma,
    /// `<minus sign>`.
    MinusSign,
    /// `<period>`.
    Period,
    /// `<solidus>`.
    Solidus,
    /// `<colon>`.
    Colon,
    /// `<semicolon>`.
    Semicolon,
    /// `<less than operator>`.
    LessThanOperator,
    /// `<equals operator>`.
    EqualsOperator,
    /// `<greater than operator>`.
    GreaterThanOperator,
    /// `<question mark>`.
    QuestionMark,
    /// `<left bracket>`.
    LeftBracket,
    /// `<right bracket>`.
    RightBracket,
    /// `<circumflex>`.
    Circumflex,
    /// `<underscore>`.
    Underscore,
    /// `<vertical bar>`.
    VerticalBar,
    /// `<left brace>`.
    LeftBrace,
    /// `<right brace>`.
    RightBrace,
    /// `<dollar sign>`.
    DollarSign,
}

impl SqlSpecialCharacter {
    /// The byte that the character is.
    pub open spec fn code(self) -> u8 {
        match self {
            SqlSpecialCharacter::Space => 32u8,
            SqlSpecialCharacter::DoubleQuote => 34u8,
            SqlSpecialCharacter::Percent => 37u8,
            SqlSpecialCharacter::Ampersand => 38u8,
            SqlSpecialCharacter::Quote => 39u8,
            SqlSpecialCharacter::LeftParen => 40u8,
            SqlSpecialCharacter::RightParen => 41u8,
            SqlSpecialCharacter::Asterisk => 42u8,
            SqlSpecialCharacter::PlusSign => 43u8,
            SqlSpecialCharacter::Comma => 44u8,
            SqlSpecialCharacter::MinusSign => 45u8,
            SqlSpecialCharacter::Period => 46u8,
            SqlSpecialCharacter::Solidus => 47u8,
            SqlSpecialCharacter::Colon => 58u8,
            SqlSpecialCharacter::Semicolon => 59u8,
            SqlSpecialCharacter::LessThanOperator => 60u8,
            SqlSpecialCharacter::EqualsOperator => 61u8,
            SqlSpecialCharacter::GreaterThanOperator => 62u8,
            SqlSpecialCharacter::QuestionMark => 63u8,
            SqlSpecialCharacter::LeftBracket => 91u8,
            SqlSpecialCharacter::RightBracket => 93u8,
            SqlSpecialCharacter::Circumflex => 94u8,
            SqlSpecialCharacter::Underscore => 95u8,
            SqlSpecialCharacter::VerticalBar => 124u8,
            SqlSpecialCharacter::LeftBrace => 123u8,
            SqlSpecialCharacter::RightBrace => 125u8,
            SqlSpecialCharacter::DollarSign => 36u8,
        }
    }

    /// The byte that the character is.
    pub fn byte(self) -> (r: u8)
        ensures
            r == self.code(),
    {
        match self {
            SqlSpecialCharacter::Space => 32u8,
            SqlSpecialCharacter::DoubleQuote => 34u8,
            SqlSpecialCharacter::Percent => 37u8,
            SqlSpecialCharacter::Ampersand => 38u8,
            SqlSpecialCharacter::Quote => 39u8,
            SqlSpecialCharacter::LeftParen => 40u8,
            SqlSpecialCharacter::RightParen => 41u8,
            SqlSpecialCharacter::Asterisk => 42u8,
            SqlSpecialCharacter::PlusSign => 43u8,
            SqlSpecialCharacter::Comma => 44u8,
            SqlSpecialCharacter::MinusSign => 45u8,
            SqlSpecialCharacter::Period => 46u8,
            SqlSpecialCharacter::Solidus => 47u8,
            SqlSpecialCharacter::Colon => 58u8,
            SqlSpecialCharacter::Semicolon => 59u8,
            SqlSpecialCharacter::LessThanOperator => 60u8,
            SqlSpecialCharacter::EqualsOperator => 61u8,
            SqlSpecialCharacter::GreaterThanOperator => 62u8,
            SqlSpecialCharacter::QuestionMark => 63u8,
            SqlSpecialCharacter::LeftBracket => 91u8,
            SqlSpecialCharacter::RightBracket => 93u8,
            SqlSpecialCharacter::Circumflex => 94u8,
            SqlSpecialCharacter::Underscore => 95u8,
            SqlSpecialCharacter::VerticalBar => 124u8,
            SqlSpecialCharacter::LeftBrace => 123u8,
            SqlSpecialCharacter::RightBrace => 125u8,
            SqlSpecialCharacter::DollarSign => 36u8,
        }
    }

    /// The canonical text of the character.
    pub fn to_sql(self) -> (r: Vec<u8>)
        ensures
            r@ == seq![self.code()],
    {
        let mut out: Vec<u8> = Vec::new();
        out.push(self.byte());
        proof {
            assert(out@ =~= seq![self.code()]);
        }
        out
    }
}

/// The special character that a byte is, if any.
pub open spec fn special_character_of(b: u8) -> Option<SqlSpecialCharacter> {
    if b == 32u8 {
        Some(SqlSpecialCharacter::Space)
    } else if b == 34u8 {
        Some(SqlSpecialCharacter::DoubleQuote)
    } else if b == 37u8 {
        Some(SqlSpecialCharacter::Percent)
    } else if b == 38u8 {
        Some(SqlSpecialCharacter::Ampersand)
    } else if b == 39u8 {
        Some(SqlSpecialCharacter::Quote)
    } else if b == 40u8 {
        Some(SqlSpecialCharacter::LeftParen)
    } else if b == 41u8 {
        Some(SqlSpecialCharacter::RightParen)
    } else if b == 42u8 {
        Some(SqlSpecialCharacter::Asterisk)
    } else if b == 43u8 {
        Some(SqlSpecialCharacter::PlusSign)
    } else if b == 44u8 {
        Some(SqlSpecialCharacter::Comma)
    } else if b == 45u8 {
        Some(SqlSpecialCharacter::MinusSign)
    } else if b == 46u8 {
        Some(SqlSpecialCharacter::Period)
    } else if b == 47u8 {
        Some(SqlSpecialCharacter::Solidus)
    } else if b == 58u8 {
        Some(SqlSpecialCharacter::Colon)
    } else if b == 59u8 {
        Some(SqlSpecialCharacter::Semicolon)
    } else if b == 60u8 {
        Some(SqlSpecialCharacter::LessThanOperator)
    } else if b == 61u8 {
        Some(SqlSpecialCharacter::EqualsOperator)
    } else if b == 62u8 {
        Some(SqlSpecialCharacter::GreaterThanOperator)
    } else if b == 63u8 {
        Some(SqlSpecialCharacter::QuestionMark)
    } else if b == 91u8 {
        Some(SqlSpecialCharacter::LeftBracket)
    } else if b == 93u8 {
        Some(SqlSpecialCharacter::RightBracket)
    } else if b == 94u8 {
        Some(SqlSpecialCharacter::Circumflex)
    } else if b == 95u8 {
        Some(SqlSpecialCharacter::Underscore)
    } else if b == 124u8 {
        Some(SqlSpecialCharacter::VerticalBar)
    } else if b == 123u8 {
        Some(SqlSpecialCharacter::LeftBrace)
    } else if b == 125u8 {
        Some(SqlSpecialCharacter::RightBrace)
    } else if b == 36u8 {
        Some(SqlSpecialCharacter::DollarSign)
    } else {
        None
    }
}

/// Finds the special character that a byte is, if any.
pub fn special_character(b: u8) -> (r: Option<SqlSpecialCharacter>)
    ensures
        r == special_character_of(b),
{
    if b == 32u8 {
        Some(SqlSpecialCharacter::Space)
    } else if b == 34u8 {
        Some(SqlSpecialCharacter::DoubleQuote)
    } else if b == 37u8 {
        Some(SqlSpecialCharacter::Percent)
    } else if b == 38u8 {
        Some(SqlSpecialCharacter::Ampersand)
    } else if b == 39u8 {
        Some(SqlSpecialCharacter::Quote)
    } else if b == 40u8 {
        Some(SqlSpecialCharacter::LeftParen)
    } else if b == 41u8 {
        Some(SqlSpecialCharacter::RightParen)
    } else if b == 42u8 {
        Some(SqlSpecialCharacter::Asterisk)
    } else if b == 43u8 {
        Some(SqlSpecialCharacter::PlusSign)
    } else if b == 44u8 {
        Some(SqlSpecialCharacter::Comma)
    } else if b == 45u8 {
        Some(SqlSpecialCharacter::MinusSign)
    } else if b == 46u8 {
        Some(SqlSpecialCharacter::Period)
    } else if b == 47u8 {
        Some(SqlSpecialCharacter::Solidus)
    } else if b == 58u8 {
        Some(SqlSpecialCharacter::Colon)
    } else if b == 59u8 {
        Some(SqlSpecialCharacter::Semicolon)
    } else if b == 60u8 {
        Some(SqlSpecialCharacter::LessThanOperator)
    } else if b == 61u8 {
        Some(SqlSpecialCharacter::EqualsOperator)
    } else if b == 62u8 {
        Some(SqlSpecialCharacter::GreaterThanOperator)
    } else if b == 63u8 {
        Some(SqlSpecialCharacter::QuestionMark)
    } else if b == 91u8 {
        Some(SqlSpecialCharacter::LeftBracket)
    } else if b == 93u8 {
        Some(SqlSpecialCharacter::RightBracket)
    } else if b == 94u8 {
        Some(SqlSpecialCharacter::Circumflex)
    } else if b == 95u8 {
        Some(SqlSpecialCharacter::Underscore)
    } else if b == 124u8 {
        Some(SqlSpecialCharacter::VerticalBar)
    } else if b == 123u8 {
        Some(SqlSpecialCharacter::LeftBrace)
    } else if b == 125u8 {
        Some(SqlSpecialCharacter::RightBrace)
    } else if b == 36u8 {
        Some(SqlSpecialCharacter::DollarSign)
    } else {
        None
    }
}

} // verus!
