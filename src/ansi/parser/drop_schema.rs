//! Parser of the `DROP SCHEMA` statement.
use vstd::prelude::*;

use crate::ansi::ast::drop_schema::{DropSchema, DropSchemaModel};
use crate::ansi::parser::common::{
    drop_behavior_at, drop_behavior_spec, schema_name_at, schema_name_spec,
};
use crate::ansi::parser::{
    failure, lift_result, statement_result, to_statement_result, ws1_at, ws1_spec,
};
use crate::common::parsers::{terminator_at, terminator_spec};
use crate::common::tokens::{keyword_at_spec, match_keyword, Keyword};
use crate::common::{ErrorKind, ParseError};

verus! {

/// `DROP SCHEMA <schema name> <drop behavior>` and a statement terminator at
/// `p`. Committed once `DROP SCHEMA` has matched.
#[verifier::opaque]
pub open spec fn drop_schema_spec(s: Seq<u8>, p: int) -> Result<
    (int, DropSchemaModel),
    ParseError,
> {
    if !keyword_at_spec(s, p, Keyword::Drop) {
        failure(ErrorKind::LexicalMismatch, p)
    } else {
        let a = p + Keyword::Drop.text().len();
        match ws1_spec(s, a) {
            None => failure(ErrorKind::LexicalMismatch, a),
            Some(b) => if !keyword_at_spec(s, b, Keyword::Schema) {
                failure(ErrorKind::LexicalMismatch, b)
            } else {
                let c = b + Keyword::Schema.text().len();
                match ws1_spec(s, c) {
                    None => failure(ErrorKind::StructuralMismatch, c),
                    Some(d) => match schema_name_spec(s, d) {
                        None => failure(ErrorKind::StructuralMismatch, d),
                        Some((e, n)) => match ws1_spec(s, e) {
                            None => failure(ErrorKind::StructuralMismatch, e),
                            Some(f) => match drop_behavior_spec(s, f) {
                                None => failure(ErrorKind::StructuralMismatch, f),
                                Some((g, b)) => match terminator_spec(s, g) {
                                    None => failure(ErrorKind::StructuralMismatch, g),
                                    Some(h) => Ok(
                                        (h, DropSchemaModel { schema_name: n, drop_behavior: b }),
                                    ),
                                },
                            },
                        },
                    },
                }
            },
        }
    }
}

/// Parses a `DROP SCHEMA` statement at `p`.
pub fn drop_schema_at(s: &[u8], p: usize) -> (r: Result<(usize, DropSchema), ParseError>)
    requires
        p <= s@.len(),
    ensures
        lift_result(r) == drop_schema_spec(s@, p as int),
        r matches Ok((q, _)) ==> p < q <= s@.len(),
{
    proof {
        reveal(drop_schema_spec);
    }
    let a = match match_keyword(s, p, Keyword::Drop) {
        Some(a) => a,
        None => return Err(ParseError { kind: ErrorKind::LexicalMismatch, offset: p }),
    };
    let b = match ws1_at(s, a) {
        Some(b) => b,
        None => return Err(ParseError { kind: ErrorKind::LexicalMismatch, offset: a }),
    };
    let c = match match_keyword(s, b, Keyword::Schema) {
        Some(c) => c,
        None => return Err(ParseError { kind: ErrorKind::LexicalMismatch, offset: b }),
    };
    let d = match ws1_at(s, c) {
        Some(d) => d,
        None => return Err(ParseError { kind: ErrorKind::StructuralMismatch, offset: c }),
    };
    let (e, n) = match schema_name_at(s, d) {
        Some(x) => x,
        None => return Err(ParseError { kind: ErrorKind::StructuralMismatch, offset: d }),
    };
    let f = match ws1_at(s, e) {
        Some(f) => f,
        None => return Err(ParseError { kind: ErrorKind::StructuralMismatch, offset: e }),
    };
    let (g, behavior) = match drop_behavior_at(s, f) {
        Some(x) => x,
        None => return Err(ParseError { kind: ErrorKind::StructuralMismatch, offset: f }),
    };
    match terminator_at(s, g) {
        Some(h) => Ok((h, DropSchema::new(&n, behavior))),
        None => Err(ParseError { kind: ErrorKind::StructuralMismatch, offset: g }),
    }
}

/// Parses a `DROP SCHEMA <schema name> <drop behavior>` statement and its
/// terminator.
pub fn drop_schema(i: &[u8]) -> (r: Result<(&[u8], DropSchema), ParseError>)
    ensures
        statement_result(i@, r, drop_schema_spec(i@, 0)),
{
    let r = drop_schema_at(i, 0);
    to_statement_result(i, r)
}

} // verus!
