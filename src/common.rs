//! Identifiers, parse errors and the lexical layer shared by the grammars.
pub mod parsers;
pub mod tokens;

use vstd::prelude::*;

use crate::common::tokens::push_all;

verus! {

/// SQL identifier: its unquoted value and the way it was quoted.
#[derive(Clone, Eq, PartialEq, Ord, PartialOrd, Hash, Debug)]
pub struct Ident {
    /// Identifier internal unquoted value.
    value: Vec<u8>,
    /// Identifier quote style.
    quote_style: QuoteStyle,
}

/// Possible quote styles for identifiers.
#[derive(Copy, Clone, Eq, PartialEq, Ord, PartialOrd, Hash, Debug, Structural)]
pub enum QuoteStyle {
    /// Nonexistent quote style.
    Unquoted,
    /// Double quote style (").
    DoubleQuote,
}

/// What an identifier is: its value and its quote style.
pub struct IdentModel {
    pub value: Seq<u8>,
    pub quote_style: QuoteStyle,
}

impl View for Ident {
    type V = IdentModel;

    closed spec fn view(&self) -> IdentModel {
        IdentModel { value: self.value@, quote_style: self.quote_style }
    }
}

impl IdentModel {
    /// Canonical text of the identifier: the value, between double quotes
    /// where it was quoted.
    pub open spec fn sql(self) -> Seq<u8> {
        match self.quote_style {
            QuoteStyle::Unquoted => self.value,
            QuoteStyle::DoubleQuote => seq![34u8] + self.value + seq![34u8],
        }
    }
}

impl Ident {
    /// An unquoted identifier.
    pub fn new(value: &[u8]) -> (r: Self)
        ensures
            r@ == (IdentModel { value: value@, quote_style: QuoteStyle::Unquoted }),
    {
        Self::new_quoted(value, QuoteStyle::Unquoted)
    }

    /// An identifier with the given quote style.
    pub fn new_quoted(value: &[u8], quote_style: QuoteStyle) -> (r: Self)
        ensures
            r@ == (IdentModel { value: value@, quote_style }),
    {
        let mut v: Vec<u8> = Vec::new();
        push_all(&mut v, value);
        Self { value: v, quote_style }
    }

    /// The unquoted value.
    pub fn value(&self) -> (r: &[u8])
        ensures
            r@ == self@.value,
    {
        self.value.as_slice()
    }

    /// The quote style.
    pub fn quote_style(&self) -> (r: &QuoteStyle)
        ensures
            *r == self@.quote_style,
    {
        &self.quote_style
    }

    /// A copy of this identifier.
    pub fn duplicate(&self) -> (r: Self)
        ensures
            r@ == self@,
    {
        Self::new_quoted(self.value.as_slice(), self.quote_style)
    }

    /// Appends the canonical text of the identifier to `out`.
    pub fn write_sql(&self, out: &mut Vec<u8>)
        ensures
            final(out)@ == old(out)@ + self@.sql(),
    {
        match self.quote_style {
            QuoteStyle::Unquoted => {
                push_all(out, self.value.as_slice());
            },
            QuoteStyle::DoubleQuote => {
                out.push(34u8);
                push_all(out, self.value.as_slice());
                out.push(34u8);
            },
        }
    }

    /// The canonical text of the identifier.
    pub fn to_sql(&self) -> (r: Vec<u8>)
        ensures
            r@ == self@.sql(),
    {
        let mut out: Vec<u8> = Vec::new();
        self.write_sql(&mut out);
        out
    }

    /// The canonical text of the identifier as a string.
    pub fn to_string(&self) -> (r: String)
        ensures
            is_ascii_text(self@.sql()) ==> r@ == ascii_chars(self@.sql()),
    {
        text_of(self.to_sql())
    }
}

/// Every byte is ASCII.
pub open spec fn is_ascii_text(b: Seq<u8>) -> bool {
    forall|i: int| 0 <= i < b.len() ==> b[i] < 128
}

/// The characters that ASCII bytes encode, one for each byte.
pub open spec fn ascii_chars(b: Seq<u8>) -> Seq<char> {
    b.map_values(|c: u8| c as char)
}

/// Relies on `String::from_utf8`: ASCII bytes are valid UTF-8, and each
/// decodes to the character with the same code.
#[verifier::external_body]
pub(crate) fn text_of(b: Vec<u8>) -> (r: String)
    ensures
        is_ascii_text(b@) ==> r@ == ascii_chars(b@),
{
    match String::from_utf8(b) {
        Ok(text) => text,
        Err(_) => String::new(),
    }
}

/// The kind of a parse failure.
#[derive(Copy, Clone, Eq, PartialEq, Hash, Debug, Structural)]
pub enum ErrorKind {
    /// A token (identifier, punctuation, keyword) did not match.
    LexicalMismatch,
    /// A rule matched its leading keywords but a required part failed.
    StructuralMismatch,
    /// A list that needs at least one element had none.
    EmptyListViolation,
    /// No alternative of a rule matched.
    ExhaustedAlternatives,
}

/// A recoverable parse failure: its kind and the offset into the input where
/// it was found.
#[derive(Copy, Clone, Eq, PartialEq, Hash, Debug, Structural)]
pub struct ParseError {
    pub kind: ErrorKind,
    pub offset: usize,
}

/// The items joined by `", "`.
pub open spec fn comma_separated(items: Seq<Seq<u8>>) -> Seq<u8>
    decreases items.len(),
{
    if items.len() == 0 {
        Seq::empty()
    } else if items.len() == 1 {
        items[0]
    } else {
        comma_separated(items.drop_last()) + seq![44u8, 32u8] + items.last()
    }
}

/// Joins the rendered items with `", "`.
pub fn display_comma_separated(list: &[Vec<u8>]) -> (r: Vec<u8>)
    ensures
        r@ == comma_separated(list@.map_values(|v: Vec<u8>| v@)),
{
    let ghost items = list@.map_values(|v: Vec<u8>| v@);
    let mut out: Vec<u8> = Vec::new();
    let mut i: usize = 0;
    while i < list.len()
        invariant
            0 <= i <= list@.len(),
            items == list@.map_values(|v: Vec<u8>| v@),
            out@ == comma_separated(items.subrange(0, i as int)),
        decreases list@.len() - i,
    {
        if i > 0 {
            out.push(44u8);
            out.push(32u8);
        }
        push_all(&mut out, list[i].as_slice());
        proof {
            let next = items.subrange(0, i + 1);
            assert(next.drop_last() =~= items.subrange(0, i as int));
            if i == 0 {
                assert(out@ =~= comma_separated(next));
            }
        }
        i = i + 1;
    }
    assert(items.subrange(0, list@.len() as int) =~= items);
    out
}

/// The text preceded by `preceded_by` where there is one, else nothing.
pub fn if_some_string_preceded_by(opt_item: Option<Vec<u8>>, preceded_by: &[u8]) -> (r: Vec<u8>)
    ensures
        r@ == match opt_item {
            Some(item) => preceded_by@ + item@,
            None => Seq::empty(),
        },
{
    match opt_item {
        Some(item) => {
            let mut out: Vec<u8> = Vec::new();
            push_all(&mut out, preceded_by);
            push_all(&mut out, item.as_slice());
            out
        },
        None => Vec::new(),
    }
}

} // verus!
