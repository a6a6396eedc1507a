//! Parsers of qualified names, column definitions and the keyword
//! enumerations shared by the ANSI statements.
//!
//! A dotted chain of identifiers is ambiguous between qualifiers followed by a
//! table name and a longer schema name. `schema_for_qualified_table_name`
//! settles it with bounded lookahead: it takes up to two identifiers as a
//! catalog and schema only where a further `.identifier` follows, which it
//! does not consume, so the chain always ends in the table identifier.
use vstd::prelude::*;

use crate::ansi::ast::common::{
    ColumnDefinition, ColumnDefinitionModel, ColumnNameList, DeleteRule, DropBehavior,
    LocalOrSchemaQualifier, LocalQualifier, MatchType, QualifierModel,
    ReferencedPeriodSpecification, ReferentialAction, ReferentialTriggeredAction, SchemaName,
    SchemaNameModel, TableName, TableNameModel, UpdateRule,
};
use crate::ansi::parser::data_types::{data_type_at, data_type_spec};
use crate::common::parsers::{ident_at, ident_spec, lift, slice_result, to_slice_result};
use crate::common::tokens::{keyword_at_spec, match_keyword, skip_ws, ws_end, Keyword};
use crate::common::{Ident, IdentModel, ParseError};

verus! {

/// `.` and an identifier at `q`.
pub open spec fn dot_ident_spec(s: Seq<u8>, q: int) -> Option<(int, IdentModel)> {
    if 0 <= q < s.len() && s[q] == 46 {
        ident_spec(s, q + 1)
    } else {
        None
    }
}

fn dot_ident_at(s: &[u8], q: usize) -> (r: Option<(usize, Ident)>)
    requires
        q <= s@.len(),
    ensures
        lift(r) == dot_ident_spec(s@, q as int),
        r matches Some((e, _)) ==> q < e <= s@.len(),
{
    if q < s.len() && s[q] == 46 {
        ident_at(s, q + 1)
    } else {
        None
    }
}

/// A schema name at `p`: `catalog.schema`, else `schema`.
pub open spec fn schema_name_spec(s: Seq<u8>, p: int) -> Option<(int, SchemaNameModel)> {
    match ident_spec(s, p) {
        None => None,
        Some((q, a)) => match dot_ident_spec(s, q) {
            Some((r, b)) => Some((r, SchemaNameModel { name: b, catalog: Some(a) })),
            None => Some((q, SchemaNameModel { name: a, catalog: None })),
        },
    }
}

/// Parses a schema name at `p`.
pub fn schema_name_at(s: &[u8], p: usize) -> (r: Option<(usize, SchemaName)>)
    requires
        p <= s@.len(),
    ensures
        lift(r) == schema_name_spec(s@, p as int),
        r matches Some((e, _)) ==> p < e <= s@.len(),
{
    let (q, a) = match ident_at(s, p) {
        Some(x) => x,
        None => return None,
    };
    match dot_ident_at(s, q) {
        Some((r, b)) => Some((r, SchemaName::new(Some(&a), &b))),
        None => Some((q, SchemaName::new(None, &a))),
    }
}

/// Parses a schema name: `[<catalog name>.]<schema name>`.
///
/// A longer dotted chain is not consumed past its second identifier; the
/// caller's next rule then fails on the rest.
pub fn schema_name(i: &[u8]) -> (r: Result<(&[u8], SchemaName), ParseError>)
    ensures
        slice_result(i@, r, schema_name_spec(i@, 0)),
{
    let r = schema_name_at(i, 0);
    to_slice_result(i, r)
}

/// A schema name at `p` that a table identifier follows: `catalog.schema`
/// where `.identifier` comes next, else `schema` where `.identifier` comes
/// next. The lookahead is not consumed.
pub open spec fn schema_for_table_spec(s: Seq<u8>, p: int) -> Option<(int, SchemaNameModel)> {
    match ident_spec(s, p) {
        None => None,
        Some((q, a)) => {
            let two = match dot_ident_spec(s, q) {
                Some((r, b)) => if dot_ident_spec(s, r) is Some {
                    Some((r, SchemaNameModel { name: b, catalog: Some(a) }))
                } else {
                    None
                },
                None => None,
            };
            match two {
                Some(x) => Some(x),
                None => if dot_ident_spec(s, q) is Some {
                    Some((q, SchemaNameModel { name: a, catalog: None }))
                } else {
                    None
                },
            }
        },
    }
}

fn schema_for_table_at(s: &[u8], p: usize) -> (r: Option<(usize, SchemaName)>)
    requires
        p <= s@.len(),
    ensures
        lift(r) == schema_for_table_spec(s@, p as int),
        r matches Some((e, _)) ==> p < e <= s@.len(),
{
    let (q, a) = match ident_at(s, p) {
        Some(x) => x,
        None => return None,
    };
    match dot_ident_at(s, q) {
        Some((r, b)) => {
            if dot_ident_at(s, r).is_some() {
                return Some((r, SchemaName::new(Some(&a), &b)));
            }
            Some((q, SchemaName::new(None, &a)))
        },
        None => None,
    }
}

/// Parses a schema name that qualifies a table name: the schema part of
/// `[catalog.]schema.table`, leaving `.table` unconsumed.
///
/// Of `name_1.name_2.name_3.name_4` it takes `name_1.name_2` and leaves
/// `.name_3.name_4`.
pub fn schema_for_qualified_table_name(i: &[u8]) -> (r: Result<(&[u8], SchemaName), ParseError>)
    ensures
        slice_result(i@, r, schema_for_table_spec(i@, 0)),
{
    let r = schema_for_table_at(i, 0);
    to_slice_result(i, r)
}

/// The local qualifier `MODULE` at `p`, in any case.
pub open spec fn local_qualifier_spec(s: Seq<u8>, p: int) -> Option<(int, LocalQualifier)> {
    if keyword_at_spec(s, p, Keyword::Module) {
        Some((p + Keyword::Module.text().len(), LocalQualifier::Module))
    } else {
        None
    }
}

fn local_qualifier_at(s: &[u8], p: usize) -> (r: Option<(usize, LocalQualifier)>)
    requires
        p <= s@.len(),
    ensures
        lift(r) == local_qualifier_spec(s@, p as int),
        r matches Some((e, _)) ==> p < e <= s@.len(),
{
    match match_keyword(s, p, Keyword::Module) {
        Some(e) => {
            assert(Keyword::Module.text().len() == 6);
            Some((e, LocalQualifier::Module))
        },
        None => None,
    }
}

/// Parses the local qualifier `MODULE`, in any case.
pub fn local_qualifier(i: &[u8]) -> (r: Result<(&[u8], LocalQualifier), ParseError>)
    ensures
        slice_result(i@, r, local_qualifier_spec(i@, 0)),
{
    let r = local_qualifier_at(i, 0);
    to_slice_result(i, r)
}

/// A local or schema qualifier at `p`: `MODULE`, else a schema name that a
/// table identifier follows.
pub open spec fn qualifier_spec(s: Seq<u8>, p: int) -> Option<(int, QualifierModel)> {
    match local_qualifier_spec(s, p) {
        Some((q, l)) => Some((q, QualifierModel::LocalQualifier(l))),
        None => match schema_for_table_spec(s, p) {
            Some((q, n)) => Some((q, QualifierModel::Schema(n))),
            None => None,
        },
    }
}

fn qualifier_at(s: &[u8], p: usize) -> (r: Option<(usize, LocalOrSchemaQualifier)>)
    requires
        p <= s@.len(),
    ensures
        lift(r) == qualifier_spec(s@, p as int),
        r matches Some((e, _)) ==> p < e <= s@.len(),
{
    match local_qualifier_at(s, p) {
        Some((q, l)) => Some((q, LocalOrSchemaQualifier::LocalQualifier(l))),
        None => match schema_for_table_at(s, p) {
            Some((q, n)) => Some((q, LocalOrSchemaQualifier::Schema(n))),
            None => None,
        },
    }
}

/// Parses a local or schema qualifier: `MODULE`, or the schema part of a
/// qualified table name.
pub fn local_or_schema_qualifier(i: &[u8]) -> (r: Result<
    (&[u8], LocalOrSchemaQualifier),
    ParseError,
>)
    ensures
        slice_result(i@, r, qualifier_spec(i@, 0)),
{
    let r = qualifier_at(i, 0);
    to_slice_result(i, r)
}

/// A table name at `p`: a qualifier and `.` where they stand there, then the
/// table identifier.
pub open spec fn table_name_spec(s: Seq<u8>, p: int) -> Option<(int, TableNameModel)> {
    let qualified = match qualifier_spec(s, p) {
        Some((q, m)) => if 0 <= q < s.len() && s[q] == 46 {
            Some((q + 1, m))
        } else {
            None
        },
        None => None,
    };
    match qualified {
        Some((q, m)) => match ident_spec(s, q) {
            Some((r, n)) => Some((r, TableNameModel { name: n, qualifier: Some(m) })),
            None => None,
        },
        None => match ident_spec(s, p) {
            Some((r, n)) => Some((r, TableNameModel { name: n, qualifier: None })),
            None => None,
        },
    }
}

/// Parses a table name at `p`.
pub fn table_name_at(s: &[u8], p: usize) -> (r: Option<(usize, TableName)>)
    requires
        p <= s@.len(),
    ensures
        lift(r) == table_name_spec(s@, p as int),
        r matches Some((e, _)) ==> p < e <= s@.len(),
{
    let qualified = match qualifier_at(s, p) {
        Some((q, m)) => if q < s.len() && s[q] == 46 {
            Some((q + 1, m))
        } else {
            None
        },
        None => None,
    };
    match qualified {
        Some((q, m)) => match ident_at(s, q) {
            Some((r, n)) => Some((r, TableName::new(&n).with_local_or_schema(m))),
            None => None,
        },
        None => match ident_at(s, p) {
            Some((r, n)) => Some((r, TableName::new(&n))),
            None => None,
        },
    }
}

/// Parses a table name: `[<local or schema qualifier>.]<identifier>`.
pub fn table_name(i: &[u8]) -> (r: Result<(&[u8], TableName), ParseError>)
    ensures
        slice_result(i@, r, table_name_spec(i@, 0)),
{
    let r = table_name_at(i, 0);
    to_slice_result(i, r)
}

/// A column definition at `p`: an identifier, then a data type after at
/// least one whitespace byte, where one stands there.
pub open spec fn column_definition_spec(s: Seq<u8>, p: int) -> Option<
    (int, ColumnDefinitionModel),
> {
    match ident_spec(s, p) {
        None => None,
        Some((q, n)) => {
            let w = ws_end(s, q);
            match if w > q {
                data_type_spec(s, w)
            } else {
                None
            } {
                Some((r, t)) => Some(
                    (r, ColumnDefinitionModel { column_name: n, data_type: Some(t) }),
                ),
                None => Some((q, ColumnDefinitionModel { column_name: n, data_type: None })),
            }
        },
    }
}

/// Parses a column definition at `p`.
pub fn column_definition_at(s: &[u8], p: usize) -> (r: Option<(usize, ColumnDefinition)>)
    requires
        p <= s@.len(),
    ensures
        lift(r) == column_definition_spec(s@, p as int),
        r matches Some((e, _)) ==> p < e <= s@.len(),
{
    let (q, n) = match ident_at(s, p) {
        Some(x) => x,
        None => return None,
    };
    let w = skip_ws(s, q);
    let t = if w > q {
        data_type_at(s, w)
    } else {
        None
    };
    match t {
        Some((r, t)) => Some((r, ColumnDefinition::new(&n).with_data_type(t))),
        None => Some((q, ColumnDefinition::new(&n))),
    }
}

/// Parses a column definition: `<column name> [<data type>]`.
pub fn column_definition(i: &[u8]) -> (r: Result<(&[u8], ColumnDefinition), ParseError>)
    ensures
        slice_result(i@, r, column_definition_spec(i@, 0)),
{
    let r = column_definition_at(i, 0);
    to_slice_result(i, r)
}

/// The drop behaviour at `p`: `CASCADE` or `RESTRICT`, in any case.
pub open spec fn drop_behavior_spec(s: Seq<u8>, p: int) -> Option<(int, DropBehavior)> {
    if keyword_at_spec(s, p, Keyword::Cascade) {
        Some((p + Keyword::Cascade.text().len(), DropBehavior::Cascade))
    } else if keyword_at_spec(s, p, Keyword::Restrict) {
        Some((p + Keyword::Restrict.text().len(), DropBehavior::Restrict))
    } else {
        None
    }
}

/// Parses a drop behaviour at `p`.
pub fn drop_behavior_at(s: &[u8], p: usize) -> (r: Option<(usize, DropBehavior)>)
    requires
        p <= s@.len(),
    ensures
        lift(r) == drop_behavior_spec(s@, p as int),
        r matches Some((e, _)) ==> p < e <= s@.len(),
{
    assert(Keyword::Cascade.text().len() > 0 && Keyword::Restrict.text().len() > 0);
    match match_keyword(s, p, Keyword::Cascade) {
        Some(e) => Some((e, DropBehavior::Cascade)),
        None => match match_keyword(s, p, Keyword::Restrict) {
            Some(e) => Some((e, DropBehavior::Restrict)),
            None => None,
        },
    }
}

/// Parses a drop behaviour: `CASCADE` or `RESTRICT`, in any case.
pub fn drop_behavior(i: &[u8]) -> (r: Result<(&[u8], DropBehavior), ParseError>)
    ensures
        slice_result(i@, r, drop_behavior_spec(i@, 0)),
{
    let r = drop_behavior_at(i, 0);
    to_slice_result(i, r)
}

/// A referential action at `p`, tried in the order `CASCADE`, `SET NULL`,
/// `SET DEFAULT`, `RESTRICT`, `NO ACTION`.
pub open spec fn referential_action_spec(s: Seq<u8>, p: int) -> Option<(int, ReferentialAction)> {
    if keyword_at_spec(s, p, Keyword::Cascade) {
        Some((p + Keyword::Cascade.text().len(), ReferentialAction::Cascade))
    } else if keyword_at_spec(s, p, Keyword::SetNull) {
        Some((p + Keyword::SetNull.text().len(), ReferentialAction::SetNull))
    } else if keyword_at_spec(s, p, Keyword::SetDefault) {
        Some((p + Keyword::SetDefault.text().len(), ReferentialAction::SetDefault))
    } else if keyword_at_spec(s, p, Keyword::Restrict) {
        Some((p + Keyword::Restrict.text().len(), ReferentialAction::Restrict))
    } else if keyword_at_spec(s, p, Keyword::NoAction) {
        Some((p + Keyword::NoAction.text().len(), ReferentialAction::NoAction))
    } else {
        None
    }
}

fn referential_action_at(s: &[u8], p: usize) -> (r: Option<(usize, ReferentialAction)>)
    requires
        p <= s@.len(),
    ensures
        lift(r) == referential_action_spec(s@, p as int),
        r matches Some((e, _)) ==> p <= e <= s@.len(),
{
    if let Some(e) = match_keyword(s, p, Keyword::Cascade) {
        return Some((e, ReferentialAction::Cascade));
    }
    if let Some(e) = match_keyword(s, p, Keyword::SetNull) {
        return Some((e, ReferentialAction::SetNull));
    }
    if let Some(e) = match_keyword(s, p, Keyword::SetDefault) {
        return Some((e, ReferentialAction::SetDefault));
    }
    if let Some(e) = match_keyword(s, p, Keyword::Restrict) {
        return Some((e, ReferentialAction::Restrict));
    }
    if let Some(e) = match_keyword(s, p, Keyword::NoAction) {
        return Some((e, ReferentialAction::NoAction));
    }
    None
}

/// Parses a referential action: `CASCADE | SET NULL | SET DEFAULT | RESTRICT
/// | NO ACTION`, in any case.
pub fn referential_action(i: &[u8]) -> (r: Result<(&[u8], ReferentialAction), ParseError>)
    ensures
        slice_result(i@, r, referential_action_spec(i@, 0)),
{
    let r = referential_action_at(i, 0);
    to_slice_result(i, r)
}

/// The phrase `k`, at least one whitespace byte, and a referential action at
/// `p`.
pub open spec fn rule_spec(s: Seq<u8>, p: int, k: Keyword) -> Option<(int, ReferentialAction)> {
    if keyword_at_spec(s, p, k) {
        let a = p + k.text().len();
        let w = ws_end(s, a);
        if w > a {
            referential_action_spec(s, w)
        } else {
            None
        }
    } else {
        None
    }
}

fn rule_at(s: &[u8], p: usize, k: Keyword) -> (r: Option<(usize, ReferentialAction)>)
    requires
        p <= s@.len(),
    ensures
        lift(r) == rule_spec(s@, p as int, k),
        r matches Some((e, _)) ==> p < e <= s@.len(),
{
    let a = match match_keyword(s, p, k) {
        Some(a) => a,
        None => return None,
    };
    let w = skip_ws(s, a);
    if w > a {
        referential_action_at(s, w)
    } else {
        None
    }
}

/// A delete rule at `p`: `ON DELETE <referential action>`.
pub open spec fn delete_rule_spec(s: Seq<u8>, p: int) -> Option<(int, DeleteRule)> {
    match rule_spec(s, p, Keyword::OnDelete) {
        Some((e, a)) => Some((e, DeleteRule::new_spec(a))),
        None => None,
    }
}

/// An update rule at `p`: `ON UPDATE <referential action>`.
pub open spec fn update_rule_spec(s: Seq<u8>, p: int) -> Option<(int, UpdateRule)> {
    match rule_spec(s, p, Keyword::OnUpdate) {
        Some((e, a)) => Some((e, UpdateRule::new_spec(a))),
        None => None,
    }
}

fn delete_rule_at(s: &[u8], p: usize) -> (r: Option<(usize, DeleteRule)>)
    requires
        p <= s@.len(),
    ensures
        lift(r) == delete_rule_spec(s@, p as int),
        r matches Some((e, _)) ==> p < e <= s@.len(),
{
    match rule_at(s, p, Keyword::OnDelete) {
        Some((e, a)) => Some((e, DeleteRule::new(a))),
        None => None,
    }
}

fn update_rule_at(s: &[u8], p: usize) -> (r: Option<(usize, UpdateRule)>)
    requires
        p <= s@.len(),
    ensures
        lift(r) == update_rule_spec(s@, p as int),
        r matches Some((e, _)) ==> p < e <= s@.len(),
{
    match rule_at(s, p, Keyword::OnUpdate) {
        Some((e, a)) => Some((e, UpdateRule::new(a))),
        None => None,
    }
}

/// Parses a delete rule: `ON DELETE <referential action>`.
pub fn delete_rule(i: &[u8]) -> (r: Result<(&[u8], DeleteRule), ParseError>)
    ensures
        slice_result(i@, r, delete_rule_spec(i@, 0)),
{
    let r = delete_rule_at(i, 0);
    to_slice_result(i, r)
}

/// Parses an update rule: `ON UPDATE <referential action>`.
pub fn update_rule(i: &[u8]) -> (r: Result<(&[u8], UpdateRule), ParseError>)
    ensures
        slice_result(i@, r, update_rule_spec(i@, 0)),
{
    let r = update_rule_at(i, 0);
    to_slice_result(i, r)
}

/// A referential triggered action at `p`: an update rule, then a delete rule
/// after whitespace where one follows; else a delete rule, then an update rule
/// after whitespace where one follows.
pub open spec fn referential_triggered_action_spec(s: Seq<u8>, p: int) -> Option<
    (int, ReferentialTriggeredAction),
> {
    match update_rule_spec(s, p) {
        Some((q, u)) => {
            let w = ws_end(s, q);
            match if w > q {
                delete_rule_spec(s, w)
            } else {
                None
            } {
                Some((e, d)) => Some((e, ReferentialTriggeredAction::UpdateFirst(u, Some(d)))),
                None => Some((q, ReferentialTriggeredAction::UpdateFirst(u, None))),
            }
        },
        None => match delete_rule_spec(s, p) {
            Some((q, d)) => {
                let w = ws_end(s, q);
                match if w > q {
                    update_rule_spec(s, w)
                } else {
                    None
                } {
                    Some((e, u)) => Some((e, ReferentialTriggeredAction::DeleteFirst(d, Some(u)))),
                    None => Some((q, ReferentialTriggeredAction::DeleteFirst(d, None))),
                }
            },
            None => None,
        },
    }
}

fn referential_triggered_action_at(s: &[u8], p: usize) -> (r: Option<
    (usize, ReferentialTriggeredAction),
>)
    requires
        p <= s@.len(),
    ensures
        lift(r) == referential_triggered_action_spec(s@, p as int),
        r matches Some((e, _)) ==> p < e <= s@.len(),
{
    if let Some((q, u)) = update_rule_at(s, p) {
        let w = skip_ws(s, q);
        let d = if w > q {
            delete_rule_at(s, w)
        } else {
            None
        };
        return match d {
            Some((e, d)) => Some((e, ReferentialTriggeredAction::UpdateFirst(u, Some(d)))),
            None => Some((q, ReferentialTriggeredAction::UpdateFirst(u, None))),
        };
    }
    match delete_rule_at(s, p) {
        Some((q, d)) => {
            let w = skip_ws(s, q);
            let u = if w > q {
                update_rule_at(s, w)
            } else {
                None
            };
            match u {
                Some((e, u)) => Some((e, ReferentialTriggeredAction::DeleteFirst(d, Some(u)))),
                None => Some((q, ReferentialTriggeredAction::DeleteFirst(d, None))),
            }
        },
        None => None,
    }
}

/// Parses a referential triggered action:
/// `<update rule> [<delete rule>] | <delete rule> [<update rule>]`.
pub fn referential_triggered_action(i: &[u8]) -> (r: Result<
    (&[u8], ReferentialTriggeredAction),
    ParseError,
>)
    ensures
        slice_result(i@, r, referential_triggered_action_spec(i@, 0)),
{
    let r = referential_triggered_action_at(i, 0);
    to_slice_result(i, r)
}

/// A match type at `p`: `FULL`, `PARTIAL` or `SIMPLE`, in any case.
pub open spec fn match_type_spec(s: Seq<u8>, p: int) -> Option<(int, MatchType)> {
    if keyword_at_spec(s, p, Keyword::Full) {
        Some((p + Keyword::Full.text().len(), MatchType::Full))
    } else if keyword_at_spec(s, p, Keyword::Partial) {
        Some((p + Keyword::Partial.text().len(), MatchType::Partial))
    } else if keyword_at_spec(s, p, Keyword::Simple) {
        Some((p + Keyword::Simple.text().len(), MatchType::Simple))
    } else {
        None
    }
}

/// Parses a match type: `FULL | PARTIAL | SIMPLE`, in any case.
pub fn match_type(i: &[u8]) -> (r: Result<(&[u8], MatchType), ParseError>)
    ensures
        slice_result(i@, r, match_type_spec(i@, 0)),
{
    let r = if let Some(e) = match_keyword(i, 0, Keyword::Full) {
        Some((e, MatchType::Full))
    } else if let Some(e) = match_keyword(i, 0, Keyword::Partial) {
        Some((e, MatchType::Partial))
    } else if let Some(e) = match_keyword(i, 0, Keyword::Simple) {
        Some((e, MatchType::Simple))
    } else {
        None
    };
    to_slice_result(i, r)
}

/// After a name that ends at `q`: further names, each after a comma. A comma
/// that no identifier follows is left unconsumed.
pub open spec fn names_rest_spec(s: Seq<u8>, q: int) -> (int, Seq<IdentModel>)
    decreases s.len() - q,
{
    let w = ws_end(s, q);
    if 0 <= w < s.len() && s[w] == 44 {
        match ident_spec(s, w + 1) {
            Some((r, n)) => if q < r <= s.len() {
                let (e, ns) = names_rest_spec(s, r);
                (e, seq![n] + ns)
            } else {
                (q, Seq::empty())
            },
            None => (q, Seq::empty()),
        }
    } else {
        (q, Seq::empty())
    }
}

/// A column name list at `p`: one or more identifiers separated by commas.
pub open spec fn column_name_list_spec(s: Seq<u8>, p: int) -> Option<(int, Seq<IdentModel>)> {
    match ident_spec(s, p) {
        Some((q, n)) => {
            let (e, ns) = names_rest_spec(s, q);
            Some((e, seq![n] + ns))
        },
        None => None,
    }
}

fn column_name_list_at(s: &[u8], p: usize) -> (r: Option<(usize, ColumnNameList)>)
    requires
        p <= s@.len(),
    ensures
        lift(r) == column_name_list_spec(s@, p as int),
        r matches Some((e, _)) ==> p < e <= s@.len(),
{
    let (q0, n0) = match ident_at(s, p) {
        Some(x) => x,
        None => return None,
    };
    let mut names: Vec<Ident> = Vec::new();
    names.push(n0);
    assert(names@.map_values(|i: Ident| i@) =~= seq![n0@]);
    let mut q = q0;
    loop
        invariant
            p < q <= s@.len(),
            ({
                let (e, ns) = names_rest_spec(s@, q as int);
                column_name_list_spec(s@, p as int) == Some(
                    (e, names@.map_values(|i: Ident| i@) + ns),
                )
            }),
        decreases s@.len() - q,
    {
        let w = skip_ws(s, q);
        if w < s.len() && s[w] == 44 {
            match ident_at(s, w + 1) {
                Some((r, n)) => {
                    let ghost before = names@.map_values(|i: Ident| i@);
                    let ghost nm = n@;
                    names.push(n);
                    proof {
                        let after = names@.map_values(|i: Ident| i@);
                        assert(after =~= before + seq![nm]);
                        let (e, ns) = names_rest_spec(s@, r as int);
                        assert(after + ns =~= before + (seq![nm] + ns));
                    }
                    q = r;
                },
                None => {
                    assert(names@.map_values(|i: Ident| i@) + Seq::<IdentModel>::empty()
                        =~= names@.map_values(|i: Ident| i@));
                    let list = ColumnNameList::new(names.as_slice());
                    return Some((q, list));
                },
            }
        } else {
            let ghost listed = names@.map_values(|i: Ident| i@);
            assert(listed + Seq::<IdentModel>::empty() =~= listed);
            let list = ColumnNameList::new(names.as_slice());
            return Some((q, list));
        }
    }
}

/// Parses a column name list: `<column name> [{, <column name>}...]`. Fails
/// where not even one name stands at the start.
pub fn column_name_list(i: &[u8]) -> (r: Result<(&[u8], ColumnNameList), ParseError>)
    ensures
        slice_result(i@, r, column_name_list_spec(i@, 0)),
{
    let r = column_name_list_at(i, 0);
    to_slice_result(i, r)
}

/// A referenced period specification at `p`: `PERIOD`, at least one
/// whitespace byte, and the period name.
pub open spec fn referenced_period_specification_spec(s: Seq<u8>, p: int) -> Option<
    (int, IdentModel),
> {
    if keyword_at_spec(s, p, Keyword::Period) {
        let a = p + Keyword::Period.text().len();
        let w = ws_end(s, a);
        if w > a {
            ident_spec(s, w)
        } else {
            None
        }
    } else {
        None
    }
}

/// Parses a referenced period specification: `PERIOD <period name>`.
pub fn referenced_period_specification(i: &[u8]) -> (r: Result<
    (&[u8], ReferencedPeriodSpecification),
    ParseError,
>)
    ensures
        slice_result(i@, r, referenced_period_specification_spec(i@, 0)),
{
    let r = match match_keyword(i, 0, Keyword::Period) {
        Some(a) => {
            let w = skip_ws(i, a);
            if w > a {
                match ident_at(i, w) {
                    Some((e, n)) => Some((e, ReferencedPeriodSpecification::new(&n))),
                    None => None,
                }
            } else {
                None
            }
        },
        None => None,
    };
    to_slice_result(i, r)
}

} // verus!
