//! The data types of the ANSI grammar and their canonical rendering.
use vstd::prelude::*;

use crate::common::tokens::{push_keyword, Keyword};
use crate::common::{ascii_chars, is_ascii_text, text_of};

verus! {

/// `ANSI` data type.
#[derive(Copy, Clone, Eq, PartialEq, Ord, PartialOrd, Hash, Debug, Structural)]
pub enum DataType {
    /// `CHARACTER [(<character length>)]`
    Character(Option<CharacterLength>),
    /// `CHAR [(<character length>)]`
    Char(Option<CharacterLength>),
    /// `CHARACTER VARYING [(<character length>)]`
    CharacterVarying(Option<CharacterLength>),
    /// `CHAR VARYING [(<character length>)]`
    CharVarying(Option<CharacterLength>),
    /// `VARCHAR [(<character length>)]`
    Varchar(Option<CharacterLength>),
    /// `CHARACTER LARGE OBJECT [(<character large object length>)]`
    CharacterLargeObject(Option<CharacterLargeObjectLength>),
    /// `CHAR LARGE OBJECT [(<character large object length>)]`
    CharLargeObject(Option<CharacterLargeObjectLength>),
    /// `CLOB [(<character large object length>)]`
    Clob(Option<CharacterLargeObjectLength>),
    /// `BINARY [(<length>)]`
    Binary(Option<u32>),
    /// `BINARY VARYING [(<length>)]`
    BinaryVarying(Option<u32>),
    /// `VARBINARY [(<length>)]`
    Varbinary(Option<u32>),
    /// `BINARY LARGE OBJECT [(<large object length>)]`
    BinaryLargeObject(Option<LargeObjectLength>),
    /// `BLOB [(<large object length>)]`
    Blob(Option<LargeObjectLength>),
    /// `NUMERIC [(<precision>[, <scale>])]`
    Numeric(ExactNumberInfo),
    /// `DECIMAL [(<precision>[, <scale>])]`
    Decimal(ExactNumberInfo),
    /// `DEC [(<precision>[, <scale>])]`
    Dec(ExactNumberInfo),
    /// `SMALLINT`
    Smallint,
    /// `INTEGER`
    Integer,
    /// `INT`
    Int,
    /// `BIGINT`
    Bigint,
    /// `FLOAT`
    Float,
    /// `REAL`
    Real,
    /// `DOUBLE PRECISION`
    DoublePrecision,
    /// `DECFLOAT [(<precision>)]`
    DecFloat(Option<u32>),
    /// `BOOLEAN`
    Boolean,
    /// `DATE`
    Date,
    /// `TIME [(<temporal precision>)] [<with or without time zone>]`
    Time(Option<u32>, WithOrWithoutTimeZone),
    /// `TIMESTAMP [(<temporal precision>)] [<with or without time zone>]`
    Timestamp(Option<u32>, WithOrWithoutTimeZone),
}

/// Character length of a string type: `<length> [<char length units>]`.
#[derive(Copy, Clone, Eq, PartialEq, Ord, PartialOrd, Hash, Debug, Structural)]
pub struct CharacterLength {
    /// `<length>`
    pub length: u32,
    /// `[<char length units>]`
    pub opt_units: Option<CharLengthUnits>,
}

/// Character length units: `CHARACTERS | OCTETS`.
#[derive(Copy, Clone, Eq, PartialEq, Ord, PartialOrd, Hash, Debug, Structural)]
pub enum CharLengthUnits {
    /// `CHARACTERS`
    Characters,
    /// `OCTETS`
    Octets,
}

/// Character large object length: `<large object length> [<char length units>]`.
#[derive(Copy, Clone, Eq, PartialEq, Ord, PartialOrd, Hash, Debug, Structural)]
pub struct CharacterLargeObjectLength {
    /// `<large object length>`
    pub length: LargeObjectLength,
    /// `[<char length units>]`
    pub opt_units: Option<CharLengthUnits>,
}

/// Large object length: `<unsigned integer>[<multiplier>]`.
#[derive(Copy, Clone, Eq, PartialEq, Ord, PartialOrd, Hash, Debug, Structural)]
pub struct LargeObjectLength {
    /// `<unsigned integer>`
    pub length: u32,
    /// `[<multiplier>]`
    pub multiplier: Option<Multiplier>,
}

/// Multiplier of a large object length: `K | M | G | T | P`.
#[derive(Copy, Clone, Eq, PartialEq, Ord, PartialOrd, Hash, Debug, Structural)]
pub enum Multiplier {
    /// `K` (kilo)
    K,
    /// `M` (mega)
    M,
    /// `G` (giga)
    G,
    /// `T` (tera)
    T,
    /// `P` (peta)
    P,
}

/// Precision and scale of an exact number type: absent, `(<precision>)`, or
/// `(<precision>, <scale>)`. The three states render differently.
#[derive(Copy, Clone, Eq, PartialEq, Ord, PartialOrd, Hash, Debug, Structural)]
pub enum ExactNumberInfo {
    /// No precision was given.
    Unspecified,
    /// `(<precision>)`
    Precision(u32),
    /// `(<precision>, <scale>)`
    PrecisionAndScale(u32, u32),
}

/// Time zone marker of a temporal type: absent, `WITH TIME ZONE` or
/// `WITHOUT TIME ZONE`.
#[derive(Copy, Clone, Eq, PartialEq, Ord, PartialOrd, Hash, Debug, Structural)]
pub enum WithOrWithoutTimeZone {
    /// No time zone marker was given.
    Unspecified,
    /// `WITH TIME ZONE`
    WithTimeZone,
    /// `WITHOUT TIME ZONE`
    WithoutTimeZone,
}

impl View for DataType {
    type V = DataType;

    open spec fn view(&self) -> DataType {
        *self
    }
}

impl View for CharacterLength {
    type V = CharacterLength;

    open spec fn view(&self) -> CharacterLength {
        *self
    }
}

impl View for CharacterLargeObjectLength {
    type V = CharacterLargeObjectLength;

    open spec fn view(&self) -> CharacterLargeObjectLength {
        *self
    }
}

impl View for LargeObjectLength {
    type V = LargeObjectLength;

    open spec fn view(&self) -> LargeObjectLength {
        *self
    }
}

/// Decimal digits of `n`, most significant first, without leading zeros.
pub open spec fn decimal(n: nat) -> Seq<u8>
    decreases n,
{
    if n < 10 {
        seq![(48 + n) as u8]
    } else {
        decimal(n / 10) + seq![(48 + n % 10) as u8]
    }
}

/// `(` text `)`.
pub open spec fn parenthesized(t: Seq<u8>) -> Seq<u8> {
    seq![40u8] + t + seq![41u8]
}

/// Appends the decimal digits of `n` to `out`.
pub fn write_decimal(out: &mut Vec<u8>, n: u32)
    ensures
        final(out)@ == old(out)@ + decimal(n as nat),
    decreases n,
{
    if n >= 10 {
        write_decimal(out, n / 10);
    }
    out.push(48u8 + (n % 10) as u8);
    assert(final(out)@ =~= old(out)@ + decimal(n as nat));
}

/// Appends `(` and the decimal digits of `n` and `)` to `out`.
fn write_parenthesized_u32(out: &mut Vec<u8>, n: u32)
    ensures
        final(out)@ == old(out)@ + parenthesized(decimal(n as nat)),
{
    out.push(40u8);
    write_decimal(out, n);
    out.push(41u8);
    assert(final(out)@ =~= old(out)@ + parenthesized(decimal(n as nat)));
}

/// Text of an optional parenthesized integer: nothing where it is absent.
pub open spec fn opt_u32_sql(o: Option<u32>) -> Seq<u8> {
    match o {
        Some(n) => parenthesized(decimal(n as nat)),
        None => Seq::empty(),
    }
}

fn write_opt_u32(out: &mut Vec<u8>, o: Option<u32>)
    ensures
        final(out)@ == old(out)@ + opt_u32_sql(o),
{
    match o {
        Some(n) => write_parenthesized_u32(out, n),
        None => {
            assert(out@ =~= old(out)@ + opt_u32_sql(o));
        },
    }
}

impl CharLengthUnits {
    /// The keyword of the units.
    pub open spec fn keyword(self) -> Keyword {
        match self {
            CharLengthUnits::Characters => Keyword::Characters,
            CharLengthUnits::Octets => Keyword::Octets,
        }
    }

    /// Canonical text of the units.
    pub open spec fn sql(self) -> Seq<u8> {
        self.keyword().text()
    }

    /// Appends the canonical text of the units to `out`.
    pub fn write_sql(self, out: &mut Vec<u8>)
        ensures
            final(out)@ == old(out)@ + self.sql(),
    {
        match self {
            CharLengthUnits::Characters => push_keyword(out, Keyword::Characters),
            CharLengthUnits::Octets => push_keyword(out, Keyword::Octets),
        }
    }
}

/// Text of optional units, preceded by a space where they are given.
pub open spec fn opt_units_sql(o: Option<CharLengthUnits>) -> Seq<u8> {
    match o {
        Some(u) => seq![32u8] + u.sql(),
        None => Seq::empty(),
    }
}

fn write_opt_units(out: &mut Vec<u8>, o: Option<CharLengthUnits>)
    ensures
        final(out)@ == old(out)@ + opt_units_sql(o),
{
    match o {
        Some(u) => {
            out.push(32u8);
            u.write_sql(out);
            assert(out@ =~= old(out)@ + opt_units_sql(o));
        },
        None => {
            assert(out@ =~= old(out)@ + opt_units_sql(o));
        },
    }
}

impl CharacterLength {
    /// A length without units.
    pub fn new(length: u32) -> (r: Self)
        ensures
            r == (CharacterLength { length, opt_units: None }),
    {
        Self { length, opt_units: None }
    }

    /// The same length with the given units.
    pub fn with_units(self, units: CharLengthUnits) -> (r: Self)
        ensures
            r == (CharacterLength { opt_units: Some(units), ..self }),
    {
        Self { opt_units: Some(units), ..self }
    }

    /// The length.
    pub fn length(&self) -> (r: u32)
        ensures
            r == self.length,
    {
        self.length
    }

    /// The units, if given.
    pub fn opt_units(&self) -> (r: Option<CharLengthUnits>)
        ensures
            r == self.opt_units,
    {
        self.opt_units
    }

    /// Canonical text: the length, then the units after a space.
    pub open spec fn sql(self) -> Seq<u8> {
        decimal(self.length as nat) + opt_units_sql(self.opt_units)
    }

    /// Appends the canonical text to `out`.
    pub fn write_sql(&self, out: &mut Vec<u8>)
        ensures
            final(out)@ == old(out)@ + self.sql(),
    {
        write_decimal(out, self.length);
        write_opt_units(out, self.opt_units);
        assert(out@ =~= old(out)@ + self.sql());
    }
}

impl Multiplier {
    /// The letter of the multiplier.
    pub open spec fn code(self) -> u8 {
        match self {
            Multiplier::K => 75u8,
            Multiplier::M => 77u8,
            Multiplier::G => 71u8,
            Multiplier::T => 84u8,
            Multiplier::P => 80u8,
        }
    }

    /// The letter of the multiplier.
    pub fn byte(self) -> (r: u8)
        ensures
            r == self.code(),
    {
        match self {
            Multiplier::K => 75u8,
            Multiplier::M => 77u8,
            Multiplier::G => 71u8,
            Multiplier::T => 84u8,
            Multiplier::P => 80u8,
        }
    }
}

impl LargeObjectLength {
    /// A length without multiplier.
    pub fn new(length: u32) -> (r: Self)
        ensures
            r == (LargeObjectLength { length, multiplier: None }),
    {
        Self { length, multiplier: None }
    }

    /// The same length with the given multiplier.
    pub fn with_multiplier(self, multiplier: Multiplier) -> (r: Self)
        ensures
            r == (LargeObjectLength { multiplier: Some(multiplier), ..self }),
    {
        Self { multiplier: Some(multiplier), ..self }
    }

    /// The integer length.
    pub fn length(&self) -> (r: u32)
        ensures
            r == self.length,
    {
        self.length
    }

    /// The multiplier, if given.
    pub fn opt_multiplier(&self) -> (r: Option<Multiplier>)
        ensures
            r == self.multiplier,
    {
        self.multiplier
    }

    /// Canonical text: the digits, then the multiplier letter.
    pub open spec fn sql(self) -> Seq<u8> {
        decimal(self.length as nat) + match self.multiplier {
            Some(m) => seq![m.code()],
            None => Seq::empty(),
        }
    }

    /// Appends the canonical text to `out`.
    pub fn write_sql(&self, out: &mut Vec<u8>)
        ensures
            final(out)@ == old(out)@ + self.sql(),
    {
        write_decimal(out, self.length);
        if let Some(m) = self.multiplier {
            out.push(m.byte());
        }
        assert(out@ =~= old(out)@ + self.sql());
    }
}

impl CharacterLargeObjectLength {
    /// A length without units.
    pub fn new(length: LargeObjectLength) -> (r: Self)
        ensures
            r == (CharacterLargeObjectLength { length, opt_units: None }),
    {
        Self { length, opt_units: None }
    }

    /// The same length with the given units.
    pub fn with_units(self, units: CharLengthUnits) -> (r: Self)
        ensures
            r == (CharacterLargeObjectLength { opt_units: Some(units), ..self }),
    {
        Self { opt_units: Some(units), ..self }
    }

    /// The large object length.
    pub fn length(&self) -> (r: LargeObjectLength)
        ensures
            r == self.length,
    {
        self.length
    }

    /// The units, if given.
    pub fn opt_units(&self) -> (r: Option<CharLengthUnits>)
        ensures
            r == self.opt_units,
    {
        self.opt_units
    }

    /// Canonical text: the large object length, then the units after a space.
    pub open spec fn sql(self) -> Seq<u8> {
        self.length.sql() + opt_units_sql(self.opt_units)
    }

    /// Appends the canonical text to `out`.
    pub fn write_sql(&self, out: &mut Vec<u8>)
        ensures
            final(out)@ == old(out)@ + self.sql(),
    {
        self.length.write_sql(out);
        write_opt_units(out, self.opt_units);
        assert(out@ =~= old(out)@ + self.sql());
    }
}

impl ExactNumberInfo {
    /// Canonical text: nothing, `(p)` or `(p, s)`.
    pub open spec fn sql(self) -> Seq<u8> {
        match self {
            ExactNumberInfo::Unspecified => Seq::empty(),
            ExactNumberInfo::Precision(p) => parenthesized(decimal(p as nat)),
            ExactNumberInfo::PrecisionAndScale(p, s) => parenthesized(
                decimal(p as nat) + seq![44u8, 32u8] + decimal(s as nat),
            ),
        }
    }

    /// Appends the canonical text to `out`.
    pub fn write_sql(&self, out: &mut Vec<u8>)
        ensures
            final(out)@ == old(out)@ + self.sql(),
    {
        match *self {
            ExactNumberInfo::Unspecified => {},
            ExactNumberInfo::Precision(p) => write_parenthesized_u32(out, p),
            ExactNumberInfo::PrecisionAndScale(p, s) => {
                out.push(40u8);
                write_decimal(out, p);
                out.push(44u8);
                out.push(32u8);
                write_decimal(out, s);
                out.push(41u8);
            },
        }
        assert(out@ =~= old(out)@ + self.sql());
    }
}

impl WithOrWithoutTimeZone {
    /// Canonical text: nothing, or a space and the marker.
    pub open spec fn sql(self) -> Seq<u8> {
        match self {
            WithOrWithoutTimeZone::Unspecified => Seq::empty(),
            WithOrWithoutTimeZone::WithTimeZone => seq![32u8] + Keyword::WithTimeZone.text(),
            WithOrWithoutTimeZone::WithoutTimeZone => seq![32u8]
                + Keyword::WithoutTimeZone.text(),
        }
    }

    /// Appends the canonical text to `out`.
    pub fn write_sql(&self, out: &mut Vec<u8>)
        ensures
            final(out)@ == old(out)@ + self.sql(),
    {
        match *self {
            WithOrWithoutTimeZone::Unspecified => {},
            WithOrWithoutTimeZone::WithTimeZone => {
                out.push(32u8);
                push_keyword(out, Keyword::WithTimeZone);
            },
            WithOrWithoutTimeZone::WithoutTimeZone => {
                out.push(32u8);
                push_keyword(out, Keyword::WithoutTimeZone);
            },
        }
        assert(out@ =~= old(out)@ + self.sql());
    }
}

/// Text of an optional parenthesized character length.
pub open spec fn opt_char_length_sql(o: Option<CharacterLength>) -> Seq<u8> {
    match o {
        Some(l) => parenthesized(l.sql()),
        None => Seq::empty(),
    }
}

/// Text of an optional parenthesized character large object length.
pub open spec fn opt_clob_length_sql(o: Option<CharacterLargeObjectLength>) -> Seq<u8> {
    match o {
        Some(l) => parenthesized(l.sql()),
        None => Seq::empty(),
    }
}

/// Text of an optional parenthesized large object length.
pub open spec fn opt_lob_length_sql(o: Option<LargeObjectLength>) -> Seq<u8> {
    match o {
        Some(l) => parenthesized(l.sql()),
        None => Seq::empty(),
    }
}

fn write_opt_char_length(out: &mut Vec<u8>, o: Option<CharacterLength>)
    ensures
        final(out)@ == old(out)@ + opt_char_length_sql(o),
{
    if let Some(l) = o {
        out.push(40u8);
        l.write_sql(out);
        out.push(41u8);
    }
    assert(out@ =~= old(out)@ + opt_char_length_sql(o));
}

fn write_opt_clob_length(out: &mut Vec<u8>, o: Option<CharacterLargeObjectLength>)
    ensures
        final(out)@ == old(out)@ + opt_clob_length_sql(o),
{
    if let Some(l) = o {
        out.push(40u8);
        l.write_sql(out);
        out.push(41u8);
    }
    assert(out@ =~= old(out)@ + opt_clob_length_sql(o));
}

fn write_opt_lob_length(out: &mut Vec<u8>, o: Option<LargeObjectLength>)
    ensures
        final(out)@ == old(out)@ + opt_lob_length_sql(o),
{
    if let Some(l) = o {
        out.push(40u8);
        l.write_sql(out);
        out.push(41u8);
    }
    assert(out@ =~= old(out)@ + opt_lob_length_sql(o));
}

impl DataType {
    /// The keyword that names the type.
    pub open spec fn keyword(self) -> Keyword {
        match self {
            DataType::Character(_) => Keyword::Character,
            DataType::Char(_) => Keyword::Char,
            DataType::CharacterVarying(_) => Keyword::CharacterVarying,
            DataType::CharVarying(_) => Keyword::CharVarying,
            DataType::Varchar(_) => Keyword::Varchar,
            DataType::CharacterLargeObject(_) => Keyword::CharacterLargeObject,
            DataType::CharLargeObject(_) => Keyword::CharLargeObject,
            DataType::Clob(_) => Keyword::Clob,
            DataType::Binary(_) => Keyword::Binary,
            DataType::BinaryVarying(_) => Keyword::BinaryVarying,
            DataType::Varbinary(_) => Keyword::Varbinary,
            DataType::BinaryLargeObject(_) => Keyword::BinaryLargeObject,
            DataType::Blob(_) => Keyword::Blob,
            DataType::Numeric(_) => Keyword::Numeric,
            DataType::Decimal(_) => Keyword::Decimal,
            DataType::Dec(_) => Keyword::Dec,
            DataType::Smallint => Keyword::Smallint,
            DataType::Integer => Keyword::Integer,
            DataType::Int => Keyword::Int,
            DataType::Bigint => Keyword::Bigint,
            DataType::Float => Keyword::Float,
            DataType::Real => Keyword::Real,
            DataType::DoublePrecision => Keyword::DoublePrecision,
            DataType::DecFloat(_) => Keyword::DecFloat,
            DataType::Boolean => Keyword::Boolean,
            DataType::Date => Keyword::Date,
            DataType::Time(_, _) => Keyword::Time,
            DataType::Timestamp(_, _) => Keyword::Timestamp,
        }
    }

    /// The text after the keyword: the size, precision or time zone parts.
    pub open spec fn suffix_sql(self) -> Seq<u8> {
        match self {
            DataType::Character(l) => opt_char_length_sql(l),
            DataType::Char(l) => opt_char_length_sql(l),
            DataType::CharacterVarying(l) => opt_char_length_sql(l),
            DataType::CharVarying(l) => opt_char_length_sql(l),
            DataType::Varchar(l) => opt_char_length_sql(l),
            DataType::CharacterLargeObject(l) => opt_clob_length_sql(l),
            DataType::CharLargeObject(l) => opt_clob_length_sql(l),
            DataType::Clob(l) => opt_clob_length_sql(l),
            DataType::Binary(n) => opt_u32_sql(n),
            DataType::BinaryVarying(n) => opt_u32_sql(n),
            DataType::Varbinary(n) => opt_u32_sql(n),
            DataType::BinaryLargeObject(l) => opt_lob_length_sql(l),
            DataType::Blob(l) => opt_lob_length_sql(l),
            DataType::Numeric(i) => i.sql(),
            DataType::Decimal(i) => i.sql(),
            DataType::Dec(i) => i.sql(),
            DataType::DecFloat(n) => opt_u32_sql(n),
            DataType::Time(n, tz) => opt_u32_sql(n) + tz.sql(),
            DataType::Timestamp(n, tz) => opt_u32_sql(n) + tz.sql(),
            _ => Seq::empty(),
        }
    }

    /// Canonical text of the type: its keyword, then its size, precision or
    /// time zone parts.
    pub open spec fn sql(self) -> Seq<u8> {
        self.keyword().text() + self.suffix_sql()
    }

    /// The keyword that names the type.
    pub fn type_keyword(&self) -> (r: Keyword)
        ensures
            r == self.keyword(),
    {
        match self {
            DataType::Character(_) => Keyword::Character,
            DataType::Char(_) => Keyword::Char,
            DataType::CharacterVarying(_) => Keyword::CharacterVarying,
            DataType::CharVarying(_) => Keyword::CharVarying,
            DataType::Varchar(_) => Keyword::Varchar,
            DataType::CharacterLargeObject(_) => Keyword::CharacterLargeObject,
            DataType::CharLargeObject(_) => Keyword::CharLargeObject,
            DataType::Clob(_) => Keyword::Clob,
            DataType::Binary(_) => Keyword::Binary,
            DataType::BinaryVarying(_) => Keyword::BinaryVarying,
            DataType::Varbinary(_) => Keyword::Varbinary,
            DataType::BinaryLargeObject(_) => Keyword::BinaryLargeObject,
            DataType::Blob(_) => Keyword::Blob,
            DataType::Numeric(_) => Keyword::Numeric,
            DataType::Decimal(_) => Keyword::Decimal,
            DataType::Dec(_) => Keyword::Dec,
            DataType::Smallint => Keyword::Smallint,
            DataType::Integer => Keyword::Integer,
            DataType::Int => Keyword::Int,
            DataType::Bigint => Keyword::Bigint,
            DataType::Float => Keyword::Float,
            DataType::Real => Keyword::Real,
            DataType::DoublePrecision => Keyword::DoublePrecision,
            DataType::DecFloat(_) => Keyword::DecFloat,
            DataType::Boolean => Keyword::Boolean,
            DataType::Date => Keyword::Date,
            DataType::Time(_, _) => Keyword::Time,
            DataType::Timestamp(_, _) => Keyword::Timestamp,
        }
    }

    /// Appends the canonical text of the type to `out`.
    pub fn write_sql(&self, out: &mut Vec<u8>)
        ensures
            final(out)@ == old(out)@ + self.sql(),
    {
        push_keyword(out, self.type_keyword());
        let ghost mid = out@;
        match *self {
            DataType::Character(l) => write_opt_char_length(out, l),
            DataType::Char(l) => write_opt_char_length(out, l),
            DataType::CharacterVarying(l) => write_opt_char_length(out, l),
            DataType::CharVarying(l) => write_opt_char_length(out, l),
            DataType::Varchar(l) => write_opt_char_length(out, l),
            DataType::CharacterLargeObject(l) => write_opt_clob_length(out, l),
            DataType::CharLargeObject(l) => write_opt_clob_length(out, l),
            DataType::Clob(l) => write_opt_clob_length(out, l),
            DataType::Binary(n) => write_opt_u32(out, n),
            DataType::BinaryVarying(n) => write_opt_u32(out, n),
            DataType::Varbinary(n) => write_opt_u32(out, n),
            DataType::BinaryLargeObject(l) => write_opt_lob_length(out, l),
            DataType::Blob(l) => write_opt_lob_length(out, l),
            DataType::Numeric(i) => i.write_sql(out),
            DataType::Decimal(i) => i.write_sql(out),
            DataType::Dec(i) => i.write_sql(out),
            DataType::DecFloat(n) => write_opt_u32(out, n),
            DataType::Time(n, tz) => {
                write_opt_u32(out, n);
                tz.write_sql(out);
            },
            DataType::Timestamp(n, tz) => {
                write_opt_u32(out, n);
                tz.write_sql(out);
            },
            _ => {},
        }
        assert(out@ =~= old(out)@ + self.sql());
    }

    /// The canonical text of the type.
    pub fn to_sql(&self) -> (r: Vec<u8>)
        ensures
            r@ == self.sql(),
    {
        let mut out: Vec<u8> = Vec::new();
        self.write_sql(&mut out);
        assert(out@ =~= self.sql());
        out
    }

    /// The canonical text of the type as a string.
    pub fn to_string(&self) -> (r: String)
        ensures
            is_ascii_text(self.sql()) ==> r@ == ascii_chars(self.sql()),
    {
        text_of(self.to_sql())
    }
}

} // verus!
