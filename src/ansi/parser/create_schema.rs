//! Parser of the `CREATE SCHEMA` statement.
use vstd::prelude::*;

use crate::ansi::ast::create_schema::{CreateSchema, SchemaNameClause, SchemaNameClauseModel};
use crate::ansi::parser::common::{schema_name_at, schema_name_spec};
use crate::ansi::parser::{
    failure, lift_result, statement_result, to_statement_result, ws1_at, ws1_spec,
};
use crate::common::parsers::{
    ident_at, ident_spec, lift, slice_result, terminator_at, terminator_spec, to_slice_result,
};
use crate::common::tokens::{keyword_at_spec, match_keyword, Keyword};
use crate::common::{ErrorKind, Ident, IdentModel, ParseError};

verus! {

/// `AUTHORIZATION`, at least one whitespace byte, and an identifier at `q`.
pub open spec fn authorization_spec(s: Seq<u8>, q: int) -> Option<(int, IdentModel)> {
    if keyword_at_spec(s, q, Keyword::Authorization) {
        match ws1_spec(s, q + Keyword::Authorization.text().len()) {
            Some(w) => ident_spec(s, w),
            None => None,
        }
    } else {
        None
    }
}

fn authorization_at(s: &[u8], q: usize) -> (r: Option<(usize, Ident)>)
    requires
        q <= s@.len(),
    ensures
        lift(r) == authorization_spec(s@, q as int),
        r matches Some((e, _)) ==> q < e <= s@.len(),
{
    let a = match match_keyword(s, q, Keyword::Authorization) {
        Some(a) => a,
        None => return None,
    };
    match ws1_at(s, a) {
        Some(w) => ident_at(s, w),
        None => None,
    }
}

/// A schema name clause at `p`, the most specific form first:
/// `<schema name> AUTHORIZATION <identifier>`, else
/// `AUTHORIZATION <identifier>`, else `<schema name>`.
pub open spec fn schema_name_clause_spec(s: Seq<u8>, p: int) -> Option<
    (int, SchemaNameClauseModel),
> {
    let named = match schema_name_spec(s, p) {
        Some((e, n)) => match ws1_spec(s, e) {
            Some(w) => match authorization_spec(s, w) {
                Some((f, a)) => Some((f, SchemaNameClauseModel::NamedAuthorization(n, a))),
                None => None,
            },
            None => None,
        },
        None => None,
    };
    match named {
        Some(x) => Some(x),
        None => match authorization_spec(s, p) {
            Some((f, a)) => Some((f, SchemaNameClauseModel::Authorization(a))),
            None => match schema_name_spec(s, p) {
                Some((e, n)) => Some((e, SchemaNameClauseModel::Simple(n))),
                None => None,
            },
        },
    }
}

fn named_authorization_at(s: &[u8], p: usize) -> (r: Option<(usize, SchemaNameClause)>)
    requires
        p <= s@.len(),
    ensures
        lift(r) == match schema_name_spec(s@, p as int) {
            Some((e, n)) => match ws1_spec(s@, e) {
                Some(w) => match authorization_spec(s@, w) {
                    Some((f, a)) => Some((f, SchemaNameClauseModel::NamedAuthorization(n, a))),
                    None => None,
                },
                None => None,
            },
            None => None,
        },
        r matches Some((e, _)) ==> p < e <= s@.len(),
{
    let (e, n) = match schema_name_at(s, p) {
        Some(x) => x,
        None => return None,
    };
    let w = match ws1_at(s, e) {
        Some(w) => w,
        None => return None,
    };
    match authorization_at(s, w) {
        Some((f, a)) => Some((f, SchemaNameClause::NamedAuthorization(n, a))),
        None => None,
    }
}

/// Parses a schema name clause at `p`.
pub fn schema_name_clause_at(s: &[u8], p: usize) -> (r: Option<(usize, SchemaNameClause)>)
    requires
        p <= s@.len(),
    ensures
        lift(r) == schema_name_clause_spec(s@, p as int),
        r matches Some((e, _)) ==> p < e <= s@.len(),
{
    if let Some(x) = named_authorization_at(s, p) {
        return Some(x);
    }
    if let Some((f, a)) = authorization_at(s, p) {
        return Some((f, SchemaNameClause::Authorization(a)));
    }
    match schema_name_at(s, p) {
        Some((e, n)) => Some((e, SchemaNameClause::Simple(n))),
        None => None,
    }
}

/// Parses a schema name clause:
/// `<schema name> | AUTHORIZATION <identifier> | <schema name> AUTHORIZATION <identifier>`.
pub fn schema_name_clause(i: &[u8]) -> (r: Result<(&[u8], SchemaNameClause), ParseError>)
    ensures
        slice_result(i@, r, schema_name_clause_spec(i@, 0)),
{
    let r = schema_name_clause_at(i, 0);
    to_slice_result(i, r)
}

/// `CREATE SCHEMA <schema name clause>` and a statement terminator at `p`.
/// Committed once `CREATE SCHEMA` has matched.
#[verifier::opaque]
pub open spec fn create_schema_spec(s: Seq<u8>, p: int) -> Result<
    (int, SchemaNameClauseModel),
    ParseError,
> {
    if !keyword_at_spec(s, p, Keyword::Create) {
        failure(ErrorKind::LexicalMismatch, p)
    } else {
        let a = p + Keyword::Create.text().len();
        match ws1_spec(s, a) {
            None => failure(ErrorKind::LexicalMismatch, a),
            Some(b) => if !keyword_at_spec(s, b, Keyword::Schema) {
                failure(ErrorKind::LexicalMismatch, b)
            } else {
                let c = b + Keyword::Schema.text().len();
                match ws1_spec(s, c) {
                    None => failure(ErrorKind::StructuralMismatch, c),
                    Some(d) => match schema_name_clause_spec(s, d) {
                        None => failure(ErrorKind::StructuralMismatch, d),
                        Some((e, cl)) => match terminator_spec(s, e) {
                            None => failure(ErrorKind::StructuralMismatch, e),
                            Some(f) => Ok((f, cl)),
                        },
                    },
                }
            },
        }
    }
}

/// Parses a `CREATE SCHEMA` statement at `p`.
pub fn create_schema_at(s: &[u8], p: usize) -> (r: Result<(usize, CreateSchema), ParseError>)
    requires
        p <= s@.len(),
    ensures
        lift_result(r) == create_schema_spec(s@, p as int),
        r matches Ok((q, _)) ==> p < q <= s@.len(),
{
    proof {
        reveal(create_schema_spec);
    }
    let a = match match_keyword(s, p, Keyword::Create) {
        Some(a) => a,
        None => return Err(ParseError { kind: ErrorKind::LexicalMismatch, offset: p }),
    };
    let b = match ws1_at(s, a) {
        Some(b) => b,
        None => return Err(ParseError { kind: ErrorKind::LexicalMismatch, offset: a }),
    };
    let c = match match_keyword(s, b, Keyword::Schema) {
        Some(c) => c,
        None => return Err(ParseError { kind: ErrorKind::LexicalMismatch, offset: b }),
    };
    let d = match ws1_at(s, c) {
        Some(d) => d,
        None => return Err(ParseError { kind: ErrorKind::StructuralMismatch, offset: c }),
    };
    let (e, cl) = match schema_name_clause_at(s, d) {
        Some(x) => x,
        None => return Err(ParseError { kind: ErrorKind::StructuralMismatch, offset: d }),
    };
    match terminator_at(s, e) {
        Some(f) => Ok((f, CreateSchema::new(cl))),
        None => Err(ParseError { kind: ErrorKind::StructuralMismatch, offset: e }),
    }
}

/// Parses a `CREATE SCHEMA <schema name clause>` statement and its
/// terminator.
pub fn create_schema(i: &[u8]) -> (r: Result<(&[u8], CreateSchema), ParseError>)
    ensures
        statement_result(i@, r, create_schema_spec(i@, 0)),
{
    let r = create_schema_at(i, 0);
    to_statement_result(i, r)
}

} // verus!
