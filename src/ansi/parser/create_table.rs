//! Parser of the `CREATE TABLE` statement.
use vstd::prelude::*;

use crate::ansi::ast::create_table::{
    CreateTable, CreateTableModel, TableContentsSource, TableContentsSourceModel, TableElement,
    TableElementList, TableElementModel, TableScope,
};
use crate::ansi::parser::common::{
    column_definition_at, column_definition_spec, table_name_at, table_name_spec,
};
use crate::ansi::parser::{
    failure, lift_result, statement_result, to_statement_result, ws1_at, ws1_spec,
};
use crate::common::parsers::{terminator_at, terminator_spec};
use crate::common::tokens::{keyword_at_spec, match_keyword, skip_ws, ws_end, Keyword};
use crate::common::{ErrorKind, ParseError};

verus! {

/// An optional table scope at `a`, after at least one whitespace byte.
pub open spec fn table_scope_spec(s: Seq<u8>, a: int) -> (int, Option<TableScope>) {
    let w = ws_end(s, a);
    if w > a && keyword_at_spec(s, w, Keyword::GlobalTemporary) {
        (w + Keyword::GlobalTemporary.text().len(), Some(TableScope::Global))
    } else if w > a && keyword_at_spec(s, w, Keyword::LocalTemporary) {
        (w + Keyword::LocalTemporary.text().len(), Some(TableScope::Local))
    } else {
        (a, None)
    }
}

fn table_scope_at(s: &[u8], a: usize) -> (r: (usize, Option<TableScope>))
    requires
        a <= s@.len(),
    ensures
        (r.0 as int, r.1) == table_scope_spec(s@, a as int),
        a <= r.0 <= s@.len(),
{
    let w = skip_ws(s, a);
    if w == a {
        return (a, None);
    }
    match match_keyword(s, w, Keyword::GlobalTemporary) {
        Some(e) => (e, Some(TableScope::Global)),
        None => match match_keyword(s, w, Keyword::LocalTemporary) {
            Some(e) => (e, Some(TableScope::Local)),
            None => (a, None),
        },
    }
}

/// After an element that ends at `i`: further elements, each after a comma,
/// then the closing parenthesis.
pub open spec fn elements_rest_spec(s: Seq<u8>, i: int) -> Result<
    (int, Seq<TableElementModel>),
    ParseError,
>
    decreases s.len() - i,
{
    let w = ws_end(s, i);
    if 0 <= w < s.len() && s[w] == 44 {
        let x = ws_end(s, w + 1);
        match column_definition_spec(s, x) {
            Some((y, c)) => if i < y <= s.len() {
                match elements_rest_spec(s, y) {
                    Ok((z, cs)) => Ok((z, seq![TableElementModel::ColumnDefinition(c)] + cs)),
                    Err(e) => Err(e),
                }
            } else {
                failure(ErrorKind::StructuralMismatch, x)
            },
            None => failure(ErrorKind::StructuralMismatch, x),
        }
    } else if 0 <= w < s.len() && s[w] == 41 {
        Ok((w + 1, Seq::empty()))
    } else {
        failure(ErrorKind::StructuralMismatch, w)
    }
}

/// A table element list at `g`: `(`, one or more elements separated by
/// commas, `)`. Where the parenthesis closes before any element, the list is
/// empty, which is an error of its own.
pub open spec fn element_list_spec(s: Seq<u8>, g: int) -> Result<
    (int, Seq<TableElementModel>),
    ParseError,
> {
    if !(0 <= g < s.len() && s[g] == 40) {
        failure(ErrorKind::StructuralMismatch, g)
    } else {
        let h = ws_end(s, g + 1);
        match column_definition_spec(s, h) {
            None => if 0 <= h < s.len() && s[h] == 41 {
                failure(ErrorKind::EmptyListViolation, h)
            } else {
                failure(ErrorKind::StructuralMismatch, h)
            },
            Some((i, c)) => match elements_rest_spec(s, i) {
                Ok((z, cs)) => Ok((z, seq![TableElementModel::ColumnDefinition(c)] + cs)),
                Err(e) => Err(e),
            },
        }
    }
}

fn element_list_at(s: &[u8], g: usize) -> (r: Result<(usize, TableElementList), ParseError>)
    requires
        g <= s@.len(),
    ensures
        lift_result(r) == element_list_spec(s@, g as int),
        r matches Ok((q, l)) ==> g < q <= s@.len() && l@.len() > 0,
{
    if !(g < s.len() && s[g] == 40) {
        return Err(ParseError { kind: ErrorKind::StructuralMismatch, offset: g });
    }
    let h = skip_ws(s, g + 1);
    let (i0, c0) = match column_definition_at(s, h) {
        Some(x) => x,
        None => {
            if h < s.len() && s[h] == 41 {
                return Err(ParseError { kind: ErrorKind::EmptyListViolation, offset: h });
            } else {
                return Err(ParseError { kind: ErrorKind::StructuralMismatch, offset: h });
            }
        },
    };
    let mut elements: Vec<TableElement> = Vec::new();
    elements.push(TableElement::ColumnDefinition(c0));
    assert(elements@.map_values(|e: TableElement| e@) =~= seq![
        TableElementModel::ColumnDefinition(c0@),
    ]);
    let mut i = i0;
    loop
        invariant
            g < i <= s@.len(),
            elements@.len() > 0,
            element_list_spec(s@, g as int) == match elements_rest_spec(s@, i as int) {
                Ok((z, cs)) => Ok((z, elements@.map_values(|e: TableElement| e@) + cs)),
                Err(e) => Err(e),
            },
        decreases s@.len() - i,
    {
        let w = skip_ws(s, i);
        if w < s.len() && s[w] == 44 {
            let x = skip_ws(s, w + 1);
            match column_definition_at(s, x) {
                Some((y, c)) => {
                    let ghost before = elements@.map_values(|e: TableElement| e@);
                    let ghost cm = TableElementModel::ColumnDefinition(c@);
                    elements.push(TableElement::ColumnDefinition(c));
                    proof {
                        let after = elements@.map_values(|e: TableElement| e@);
                        assert(after =~= before + seq![cm]);
                        match elements_rest_spec(s@, y as int) {
                            Ok((z, cs)) => {
                                assert(after + cs =~= before + (seq![cm] + cs));
                            },
                            Err(_) => {},
                        }
                    }
                    i = y;
                },
                None => {
                    return Err(ParseError { kind: ErrorKind::StructuralMismatch, offset: x });
                },
            }
        } else if w < s.len() && s[w] == 41 {
            let list = TableElementList::new(elements.as_slice());
            proof {
                let listed = elements@.map_values(|e: TableElement| e@);
                assert(listed + Seq::<TableElementModel>::empty() =~= listed);
            }
            return Ok((w + 1, list));
        } else {
            return Err(ParseError { kind: ErrorKind::StructuralMismatch, offset: w });
        }
    }
}

/// `CREATE [<table scope>] TABLE <table name> <table element list>` and a
/// statement terminator at `p`. Committed once `CREATE`, the optional scope
/// and `TABLE` have matched.
#[verifier::opaque]
pub open spec fn create_table_spec(s: Seq<u8>, p: int) -> Result<
    (int, CreateTableModel),
    ParseError,
> {
    if !keyword_at_spec(s, p, Keyword::Create) {
        failure(ErrorKind::LexicalMismatch, p)
    } else {
        let a = p + Keyword::Create.text().len();
        let (b, scope) = table_scope_spec(s, a);
        match ws1_spec(s, b) {
            None => failure(ErrorKind::LexicalMismatch, b),
            Some(c) => if !keyword_at_spec(s, c, Keyword::Table) {
                failure(ErrorKind::LexicalMismatch, c)
            } else {
                let d = c + Keyword::Table.text().len();
                match ws1_spec(s, d) {
                    None => failure(ErrorKind::StructuralMismatch, d),
                    Some(e) => match table_name_spec(s, e) {
                        None => failure(ErrorKind::StructuralMismatch, e),
                        Some((f, n)) => match ws1_spec(s, f) {
                            None => failure(ErrorKind::StructuralMismatch, f),
                            Some(g) => match element_list_spec(s, g) {
                                Err(x) => Err(x),
                                Ok((h, els)) => match terminator_spec(s, h) {
                                    None => failure(ErrorKind::StructuralMismatch, h),
                                    Some(k) => Ok(
                                        (
                                            k,
                                            CreateTableModel {
                                                table_scope: scope,
                                                table_name: n,
                                                source: TableContentsSourceModel::TableElementList(
                                                    els,
                                                ),
                                            },
                                        ),
                                    ),
                                },
                            },
                        },
                    },
                }
            },
        }
    }
}

/// Parses a `CREATE TABLE` statement at `p`.
pub fn create_table_at(s: &[u8], p: usize) -> (r: Result<(usize, CreateTable), ParseError>)
    requires
        p <= s@.len(),
    ensures
        lift_result(r) == create_table_spec(s@, p as int),
        r matches Ok((q, _)) ==> p < q <= s@.len(),
{
    proof {
        reveal(create_table_spec);
    }
    let a = match match_keyword(s, p, Keyword::Create) {
        Some(a) => a,
        None => return Err(ParseError { kind: ErrorKind::LexicalMismatch, offset: p }),
    };
    let (b, scope) = table_scope_at(s, a);
    let c = match ws1_at(s, b) {
        Some(c) => c,
        None => return Err(ParseError { kind: ErrorKind::LexicalMismatch, offset: b }),
    };
    let d = match match_keyword(s, c, Keyword::Table) {
        Some(d) => d,
        None => return Err(ParseError { kind: ErrorKind::LexicalMismatch, offset: c }),
    };
    let e = match ws1_at(s, d) {
        Some(e) => e,
        None => return Err(ParseError { kind: ErrorKind::StructuralMismatch, offset: d }),
    };
    let (f, n) = match table_name_at(s, e) {
        Some(x) => x,
        None => return Err(ParseError { kind: ErrorKind::StructuralMismatch, offset: e }),
    };
    let g = match ws1_at(s, f) {
        Some(g) => g,
        None => return Err(ParseError { kind: ErrorKind::StructuralMismatch, offset: f }),
    };
    let (h, list) = match element_list_at(s, g) {
        Ok(x) => x,
        Err(x) => return Err(x),
    };
    match terminator_at(s, h) {
        Some(k) => {
            let source = TableContentsSource::TableElementList(list);
            let table = CreateTable::new(&n, &source);
            let table = match scope {
                Some(t) => table.with_table_scope(t),
                None => table,
            };
            Ok((k, table))
        },
        None => Err(ParseError { kind: ErrorKind::StructuralMismatch, offset: h }),
    }
}

/// Parses a `CREATE [GLOBAL TEMPORARY | LOCAL TEMPORARY] TABLE <table name>
/// (<table element> [, <table element>]...)` statement and its terminator.
pub fn create_table(i: &[u8]) -> (r: Result<(&[u8], CreateTable), ParseError>)
    ensures
        statement_result(i@, r, create_table_spec(i@, 0)),
{
    let r = create_table_at(i, 0);
    to_statement_result(i, r)
}

} // verus!
