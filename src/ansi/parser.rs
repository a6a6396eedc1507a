//! Parsers of the ANSI dialect.
//!
//! A statement parser reports a lexical mismatch while its leading keywords
//! (`CREATE SCHEMA`, `DROP SCHEMA`, `DROP TABLE`, `CREATE [<scope>] TABLE`) do
//! not match. Once they do, it is committed: a later failure is a structural
//! mismatch, or an empty list violation for an empty table element list.
pub mod common;
pub mod create_schema;
pub mod create_table;
pub mod data_types;
pub mod drop_schema;
pub mod drop_table;
pub mod round_trip;
pub mod statement_round_trip;

use vstd::prelude::*;

use crate::ansi::parser::create_schema::{create_schema_at, create_schema_spec};
use crate::ansi::parser::create_table::{create_table_at, create_table_spec};
use crate::ansi::parser::drop_schema::{drop_schema_at, drop_schema_spec};
use crate::ansi::parser::drop_table::{drop_table_at, drop_table_spec};
use crate::ansi::{Statement, StatementModel};
use crate::common::tokens::{skip_ws, ws_end};
use crate::common::{ErrorKind, ParseError};

verus! {

/// A failure of the given kind at `offset`.
pub open spec fn failure<T>(kind: ErrorKind, offset: int) -> Result<(int, T), ParseError> {
    Err(ParseError { kind, offset: offset as usize })
}

/// At least one whitespace byte at `q`, and where the run ends.
pub open spec fn ws1_spec(s: Seq<u8>, q: int) -> Option<int> {
    let w = ws_end(s, q);
    if w > q {
        Some(w)
    } else {
        None
    }
}

/// Skips at least one whitespace byte at `q`.
pub fn ws1_at(s: &[u8], q: usize) -> (r: Option<usize>)
    requires
        q <= s@.len(),
    ensures
        match r {
            Some(w) => ws1_spec(s@, q as int) == Some(w as int) && q < w <= s@.len(),
            None => ws1_spec(s@, q as int) is None,
        },
{
    let w = skip_ws(s, q);
    if w > q {
        Some(w)
    } else {
        None
    }
}

/// The result of a committing offset parser, seen through the views of its
/// value.
pub open spec fn lift_result<T: View>(r: Result<(usize, T), ParseError>) -> Result<
    (int, T::V),
    ParseError,
> {
    match r {
        Ok((q, v)) => Ok((q as int, v@)),
        Err(e) => Err(e),
    }
}

/// How a slice parser's result stands to the committing offset parser's
/// meaning `m` on input `i`: the same value or error, and on success the
/// remainder is the input from the end offset on.
pub open spec fn statement_result<T: View>(
    i: Seq<u8>,
    r: Result<(&[u8], T), ParseError>,
    m: Result<(int, T::V), ParseError>,
) -> bool {
    match r {
        Ok((rest, v)) => {
            &&& m == Ok::<(int, T::V), ParseError>((i.len() - rest@.len(), v@))
            &&& rest@ == i.subrange(i.len() - rest@.len(), i.len() as int)
        },
        Err(e) => m == Err::<(int, T::V), ParseError>(e),
    }
}

/// Turns the result of a committing offset parser started at 0 into a slice
/// result.
pub fn to_statement_result<'a, T: View>(i: &'a [u8], r: Result<(usize, T), ParseError>) -> (res:
    Result<(&'a [u8], T), ParseError>)
    requires
        r matches Ok((q, _)) ==> q <= i@.len(),
    ensures
        statement_result(i@, res, lift_result(r)),
{
    match r {
        Ok((q, v)) => Ok((&i[q..i.len()], v)),
        Err(e) => Err(e),
    }
}

/// Whether an alternative that failed with `e` had committed to its input.
pub open spec fn committed(e: ParseError) -> bool {
    e.kind != ErrorKind::LexicalMismatch
}

/// A statement at `p`: `CREATE SCHEMA`, `DROP SCHEMA`, `DROP TABLE` and
/// `CREATE TABLE` are tried in that order. The first that matches gives the
/// statement; the first that fails after committing gives the error; where
/// none of them commits, no alternative matched.
pub open spec fn statement_spec(s: Seq<u8>, p: int) -> Result<(int, StatementModel), ParseError> {
    match create_schema_spec(s, p) {
        Ok((q, c)) => Ok((q, StatementModel::CreateSchema(c))),
        Err(e) => if committed(e) {
            Err(e)
        } else {
            match drop_schema_spec(s, p) {
                Ok((q, d)) => Ok((q, StatementModel::DropSchema(d))),
                Err(e) => if committed(e) {
                    Err(e)
                } else {
                    match drop_table_spec(s, p) {
                        Ok((q, d)) => Ok((q, StatementModel::DropTable(d))),
                        Err(e) => if committed(e) {
                            Err(e)
                        } else {
                            match create_table_spec(s, p) {
                                Ok((q, c)) => Ok((q, StatementModel::CreateTable(c))),
                                Err(e) => if committed(e) {
                                    Err(e)
                                } else {
                                    failure(ErrorKind::ExhaustedAlternatives, p)
                                },
                            }
                        },
                    }
                },
            }
        },
    }
}

/// Parses a statement at `p`.
pub fn statement_at(s: &[u8], p: usize) -> (r: Result<(usize, Statement), ParseError>)
    requires
        p <= s@.len(),
    ensures
        lift_result(r) == statement_spec(s@, p as int),
        r matches Ok((q, _)) ==> p < q <= s@.len(),
{
    match create_schema_at(s, p) {
        Ok((q, c)) => return Ok((q, Statement::CreateSchema(c))),
        Err(e) => if e.kind != ErrorKind::LexicalMismatch {
            return Err(e);
        },
    }
    match drop_schema_at(s, p) {
        Ok((q, d)) => return Ok((q, Statement::DropSchema(d))),
        Err(e) => if e.kind != ErrorKind::LexicalMismatch {
            return Err(e);
        },
    }
    match drop_table_at(s, p) {
        Ok((q, d)) => return Ok((q, Statement::DropTable(d))),
        Err(e) => if e.kind != ErrorKind::LexicalMismatch {
            return Err(e);
        },
    }
    match create_table_at(s, p) {
        Ok((q, c)) => Ok((q, Statement::CreateTable(c))),
        Err(e) => if e.kind != ErrorKind::LexicalMismatch {
            Err(e)
        } else {
            Err(ParseError { kind: ErrorKind::ExhaustedAlternatives, offset: p })
        },
    }
}

/// Parses one statement from the start of the input, returning the statement
/// and the input that follows its terminator.
///
/// Fails with the error of the first statement form that committed to the
/// input, or, where none did, with `ExhaustedAlternatives` at offset 0.
pub fn parse_statement(i: &[u8]) -> (r: Result<(&[u8], Statement), ParseError>)
    ensures
        statement_result(i@, r, statement_spec(i@, 0)),
{
    let r = statement_at(i, 0);
    to_statement_result(i, r)
}

} // verus!
