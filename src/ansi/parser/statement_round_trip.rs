//! Round trip of statements: the canonical text of a well-formed statement
//! parses back to that statement, and every statement that parses is
//! well-formed, so rendering a parsed statement and parsing the text again
//! gives the same statement.
use vstd::prelude::*;

use crate::ansi::ast::common::{
    ColumnDefinitionModel, DropBehavior, QualifierModel, SchemaNameModel, TableNameModel,
};
use crate::ansi::ast::create_table::{
    element_list_sql, CreateTableModel, TableContentsSourceModel, TableElementModel, TableScope,
};
use crate::ansi::ast::create_schema::{create_schema_sql, SchemaNameClauseModel};
use crate::ansi::ast::drop_schema::DropSchemaModel;
use crate::ansi::ast::drop_table::DropTableModel;
use crate::ansi::parser::{committed, statement_spec};
use crate::ansi::StatementModel;
use crate::ansi::parser::create_schema::{
    authorization_spec, create_schema_spec, schema_name_clause_spec,
};
use crate::ansi::parser::drop_schema::drop_schema_spec;
use crate::ansi::parser::drop_table::drop_table_spec;
use crate::ansi::ast::data_types::DataType;
use crate::ansi::parser::create_table::{
    create_table_spec, element_list_spec, elements_rest_spec, table_scope_spec,
};
use crate::ansi::parser::common::{
    column_definition_spec, dot_ident_spec, local_qualifier_spec, qualifier_spec,
    schema_for_table_spec,
    schema_name_spec, table_name_spec,
};
use crate::ansi::parser::round_trip::{
    ends_data_type, lemma_data_type_in_text, lemma_occurs_index, lemma_occurs_keyword,
    lemma_occurs_split, lemma_tag_index, lemma_ws_one, occurs_at,
};
use crate::common::parsers::{ident_spec, terminator_spec};
use crate::common::tokens::{
    ident_end, is_alpha, is_ident_byte, is_ws, keyword_at_spec, lower, tag_at, ws_end, Keyword,
};
use crate::common::{comma_separated, IdentModel, ParseError, QuoteStyle};

verus! {

/// A well-formed identifier: one or more identifier bytes, and an unquoted
/// one starts with a letter.
pub open spec fn ident_wf(i: IdentModel) -> bool {
    &&& i.value.len() >= 1
    &&& forall|j: int| 0 <= j < i.value.len() ==> is_ident_byte(#[trigger] i.value[j])
    &&& (i.quote_style == QuoteStyle::Unquoted ==> is_alpha(i.value[0]))
}

/// What may follow a name in a statement: the end of the text, or a byte that
/// is neither an identifier byte nor `.`.
pub open spec fn ends_name(s: Seq<u8>, e: int) -> bool {
    e == s.len() || (0 <= e < s.len() && !is_ident_byte(s[e]) && s[e] != 46)
}

proof fn lemma_ident_run(s: Seq<u8>, p: int, e: int)
    requires
        0 <= p <= e <= s.len(),
        forall|i: int| p <= i < e ==> is_ident_byte(#[trigger] s[i]),
        e == s.len() || !is_ident_byte(s[e]),
    ensures
        ident_end(s, p) == e,
    decreases e - p,
{
    if p < e {
        lemma_ident_run(s, p + 1, e);
    }
}

/// The canonical text of a well-formed identifier, where no identifier byte
/// follows it, parses back to it.
pub proof fn lemma_ident_in_text(s: Seq<u8>, p: int, i: IdentModel)
    requires
        ident_wf(i),
        occurs_at(s, p, i.sql()),
        ends_name(s, p + i.sql().len()) || (p + i.sql().len() < s.len() && s[p + i.sql().len()]
            == 46),
    ensures
        ident_spec(s, p) == Some((p + i.sql().len(), i)),
{
    let v = i.value;
    match i.quote_style {
        QuoteStyle::Unquoted => {
            lemma_occurs_index(s, p, v, 0);
            let e = p + v.len();
            assert forall|j: int| p <= j < e implies is_ident_byte(#[trigger] s[j]) by {
                lemma_occurs_index(s, p, v, j - p);
            }
            lemma_ident_run(s, p, e);
            assert forall|j: int| 0 <= j < v.len() implies #[trigger] s.subrange(p, e)[j]
                == v[j] by {
                lemma_occurs_index(s, p, v, j);
            }
            assert(s.subrange(p, e) =~= v);
        },
        QuoteStyle::DoubleQuote => {
            lemma_occurs_split(s, p, seq![34u8] + v, seq![34u8]);
            lemma_occurs_split(s, p, seq![34u8], v);
            lemma_occurs_index(s, p, seq![34u8], 0);
            let e = p + 1 + v.len();
            lemma_occurs_index(s, e, seq![34u8], 0);
            assert forall|j: int| p + 1 <= j < e implies is_ident_byte(#[trigger] s[j]) by {
                lemma_occurs_index(s, p + 1, v, j - p - 1);
            }
            lemma_ident_run(s, p + 1, e);
            assert forall|j: int| 0 <= j < v.len() implies #[trigger] s.subrange(p + 1, e)[j]
                == v[j] by {
                lemma_occurs_index(s, p + 1, v, j);
            }
            assert(s.subrange(p + 1, e) =~= v);
        },
    }
}

/// A well-formed schema name: its identifiers are well-formed.
pub open spec fn schema_name_wf(n: SchemaNameModel) -> bool {
    &&& ident_wf(n.name)
    &&& (n.catalog matches Some(c) ==> ident_wf(c))
}

/// The canonical text of a well-formed schema name, followed by what may
/// follow a name, parses back to it.
pub proof fn lemma_schema_name_in_text(s: Seq<u8>, p: int, n: SchemaNameModel)
    requires
        schema_name_wf(n),
        occurs_at(s, p, n.sql()),
        ends_name(s, p + n.sql().len()),
    ensures
        schema_name_spec(s, p) == Some((p + n.sql().len(), n)),
{
    match n.catalog {
        Some(c) => {
            lemma_occurs_split(s, p, c.sql() + seq![46u8], n.name.sql());
            lemma_occurs_split(s, p, c.sql(), seq![46u8]);
            let e = p + c.sql().len();
            lemma_occurs_index(s, e, seq![46u8], 0);
            lemma_ident_in_text(s, p, c);
            lemma_ident_in_text(s, e + 1, n.name);
        },
        None => {
            lemma_ident_in_text(s, p, n.name);
        },
    }
}

/// The identifier that a schema name starts with.
pub open spec fn first_ident(n: SchemaNameModel) -> IdentModel {
    match n.catalog {
        Some(c) => c,
        None => n.name,
    }
}

/// A qualifier that the local qualifier does not shadow: `MODULE`, or a
/// well-formed schema name whose text does not start with `MODULE` in any
/// case (such text is read as the local qualifier).
pub open spec fn qualifier_wf(q: QualifierModel) -> bool {
    match q {
        QualifierModel::LocalQualifier(_) => true,
        QualifierModel::Schema(n) => schema_name_wf(n) && !tag_at(
            first_ident(n).sql(),
            0,
            Keyword::Module.text(),
        ),
    }
}

/// A well-formed table name: a well-formed identifier and qualifier.
pub open spec fn table_name_wf(t: TableNameModel) -> bool {
    &&& ident_wf(t.name)
    &&& (t.qualifier matches Some(q) ==> qualifier_wf(q))
}

proof fn lemma_ident_sql_bytes(i: IdentModel)
    requires
        ident_wf(i),
    ensures
        i.sql().len() >= 1,
        forall|j: int|
            0 <= j < i.sql().len() ==> (is_ident_byte(#[trigger] i.sql()[j]) || i.sql()[j] == 34),
        i.quote_style == QuoteStyle::Unquoted ==> is_alpha(i.sql()[0]),
{
    if i.quote_style == QuoteStyle::DoubleQuote {
        assert forall|j: int| 0 <= j < i.sql().len() implies (is_ident_byte(#[trigger] i.sql()[j])
            || i.sql()[j] == 34) by {
            if 1 <= j < i.sql().len() - 1 {
                assert(i.sql()[j] == i.value[j - 1]);
            }
        }
    }
}

/// `MODULE` does not stand at `p` where the first identifier of a well-formed
/// qualifier's schema name does, followed by `.`.
proof fn lemma_no_module_prefix(s: Seq<u8>, p: int, i: IdentModel)
    requires
        ident_wf(i),
        !tag_at(i.sql(), 0, Keyword::Module.text()),
        occurs_at(s, p, i.sql()),
        p + i.sql().len() < s.len(),
        s[p + i.sql().len()] == 46,
    ensures
        !tag_at(s, p, Keyword::Module.text()),
{
    let m = Keyword::Module.text();
    let t = i.sql();
    if tag_at(s, p, m) {
        if t.len() >= m.len() {
            assert forall|j: int| 0 <= j < m.len() implies lower(#[trigger] t[0 + j]) == lower(
                m[j],
            ) by {
                lemma_occurs_index(s, p, t, j);
                lemma_tag_index(s, p, m, j);
            }
        } else {
            lemma_tag_index(s, p, m, t.len() as int);
            assert(m =~= seq![77u8, 79u8, 68u8, 85u8, 76u8, 69u8]);
        }
    }
}

proof fn lemma_unqualified_table_name(s: Seq<u8>, p: int, t: TableNameModel)
    requires
        table_name_wf(t),
        t.qualifier is None,
        occurs_at(s, p, t.sql()),
        ends_name(s, p + t.sql().len()),
    ensures
        table_name_spec(s, p) == Some((p + t.sql().len(), t)),
{
    let m = Keyword::Module.text();
    assert(m =~= seq![77u8, 79u8, 68u8, 85u8, 76u8, 69u8]);
    let v = t.name.sql();
    lemma_ident_sql_bytes(t.name);
    lemma_ident_in_text(s, p, t.name);
    if tag_at(s, p, m) {
        let q = p + 6;
        if q < p + v.len() {
            lemma_occurs_index(s, p, v, 6);
        } else if q > p + v.len() {
            lemma_tag_index(s, p, m, v.len() as int);
        }
    }
    let e = p + v.len();
    assert(dot_ident_spec(s, e) is None);
    assert(schema_for_table_spec(s, p) is None);
}

proof fn lemma_module_table_name(s: Seq<u8>, p: int, t: TableNameModel)
    requires
        table_name_wf(t),
        t.qualifier matches Some(QualifierModel::LocalQualifier(_)),
        occurs_at(s, p, t.sql()),
        ends_name(s, p + t.sql().len()),
    ensures
        table_name_spec(s, p) == Some((p + t.sql().len(), t)),
{
    let m = Keyword::Module.text();
    lemma_occurs_split(s, p, m + seq![46u8], t.name.sql());
    lemma_occurs_split(s, p, m, seq![46u8]);
    lemma_occurs_index(s, p + 6, seq![46u8], 0);
    lemma_occurs_keyword(s, p, Keyword::Module);
    lemma_ident_in_text(s, p + 7, t.name);
}

proof fn lemma_schema_qualifier(s: Seq<u8>, p: int, n: SchemaNameModel, r: int)
    requires
        qualifier_wf(QualifierModel::Schema(n)),
        occurs_at(s, p, n.sql()),
        p + n.sql().len() + 1 < r <= s.len(),
        s[p + n.sql().len()] == 46,
        ident_spec(s, p + n.sql().len() + 1) matches Some((e, _)) && e == r,
        ends_name(s, r),
    ensures
        qualifier_spec(s, p) == Some((p + n.sql().len(), QualifierModel::Schema(n))),
{
    let e = p + n.sql().len();
    match n.catalog {
        Some(c) => {
            lemma_occurs_split(s, p, c.sql() + seq![46u8], n.name.sql());
            lemma_occurs_split(s, p, c.sql(), seq![46u8]);
            let e1 = p + c.sql().len();
            lemma_occurs_index(s, e1, seq![46u8], 0);
            lemma_ident_in_text(s, p, c);
            lemma_ident_in_text(s, e1 + 1, n.name);
            lemma_no_module_prefix(s, p, c);
        },
        None => {
            lemma_ident_in_text(s, p, n.name);
            lemma_no_module_prefix(s, p, n.name);
            assert(dot_ident_spec(s, r) is None);
        },
    }
    assert(local_qualifier_spec(s, p) is None);
}

/// The canonical text of a well-formed table name, followed by what may
/// follow a name, parses back to it.
pub proof fn lemma_table_name_in_text(s: Seq<u8>, p: int, t: TableNameModel)
    requires
        table_name_wf(t),
        occurs_at(s, p, t.sql()),
        ends_name(s, p + t.sql().len()),
    ensures
        table_name_spec(s, p) == Some((p + t.sql().len(), t)),
{
    match t.qualifier {
        None => lemma_unqualified_table_name(s, p, t),
        Some(QualifierModel::LocalQualifier(_)) => lemma_module_table_name(s, p, t),
        Some(QualifierModel::Schema(n)) => {
            let a = n.sql();
            lemma_occurs_split(s, p, a + seq![46u8], t.name.sql());
            lemma_occurs_split(s, p, a, seq![46u8]);
            let e = p + a.len();
            lemma_occurs_index(s, e, seq![46u8], 0);
            lemma_ident_in_text(s, e + 1, t.name);
            lemma_ident_sql_bytes(t.name);
            lemma_schema_qualifier(s, p, n, e + 1 + t.name.sql().len());
        },
    }
}

/// A well-formed column definition: its name is well-formed.
pub open spec fn column_wf(c: ColumnDefinitionModel) -> bool {
    ident_wf(c.column_name)
}

proof fn lemma_type_text_starts_with_letter(d: DataType)
    ensures
        d.sql().len() >= 1,
        is_alpha(d.sql()[0]),
{
    lemma_keyword_starts_with_letter(d.keyword());
    assert(d.sql()[0] == d.keyword().text()[0]);
}

/// The canonical text of a well-formed column definition, followed by `,`,
/// `)` or the end of the text, parses back to it.
pub proof fn lemma_column_in_text(s: Seq<u8>, p: int, c: ColumnDefinitionModel)
    requires
        column_wf(c),
        occurs_at(s, p, c.sql()),
        ends_data_type(s, p + c.sql().len()),
    ensures
        column_definition_spec(s, p) == Some((p + c.sql().len(), c)),
{
    let n = c.column_name.sql();
    match c.data_type {
        None => {
            lemma_ident_in_text(s, p, c.column_name);
        },
        Some(t) => {
            lemma_occurs_split(s, p, n + seq![32u8], t.sql());
            lemma_occurs_split(s, p, n, seq![32u8]);
            let q = p + n.len();
            lemma_occurs_index(s, q, seq![32u8], 0);
            lemma_type_text_starts_with_letter(t);
            lemma_occurs_index(s, q + 1, t.sql(), 0);
            lemma_ident_in_text(s, p, c.column_name);
            lemma_ws_one(s, q);
            lemma_data_type_in_text(s, q + 1, t);
        },
    }
}

/// The elements after the first: each after `", "`.
pub open spec fn tail_sql(es: Seq<TableElementModel>) -> Seq<u8>
    decreases es.len(),
{
    if es.len() == 0 {
        Seq::empty()
    } else {
        seq![44u8, 32u8] + es[0].sql() + tail_sql(es.drop_first())
    }
}

/// Every element is well-formed.
pub open spec fn elements_wf(es: Seq<TableElementModel>) -> bool {
    forall|i: int|
        0 <= i < es.len() ==> match #[trigger] es[i] {
            TableElementModel::ColumnDefinition(c) => column_wf(c),
        }
}

proof fn lemma_tail_push(xs: Seq<TableElementModel>, x: TableElementModel)
    ensures
        tail_sql(xs.push(x)) == tail_sql(xs) + seq![44u8, 32u8] + x.sql(),
    decreases xs.len(),
{
    if xs.len() == 0 {
        assert(xs.push(x).drop_first() =~= Seq::<TableElementModel>::empty());
        assert(xs.push(x)[0] == x);
        assert(tail_sql(Seq::<TableElementModel>::empty()) == Seq::<u8>::empty());
        assert(tail_sql(xs.push(x)) == seq![44u8, 32u8] + x.sql() + tail_sql(
            Seq::<TableElementModel>::empty(),
        ));
        assert(tail_sql(xs.push(x)) =~= tail_sql(xs) + seq![44u8, 32u8] + x.sql());
    } else {
        lemma_tail_push(xs.drop_first(), x);
        assert(xs.push(x).drop_first() =~= xs.drop_first().push(x));
        assert(xs.push(x)[0] == xs[0]);
        assert(tail_sql(xs.push(x)) == seq![44u8, 32u8] + xs[0].sql() + tail_sql(
            xs.drop_first().push(x),
        ));
        assert(tail_sql(xs) == seq![44u8, 32u8] + xs[0].sql() + tail_sql(xs.drop_first()));
        assert(tail_sql(xs.push(x)) =~= tail_sql(xs) + seq![44u8, 32u8] + x.sql());
    }
}

proof fn lemma_comma_separated_front(es: Seq<TableElementModel>)
    requires
        es.len() >= 1,
    ensures
        comma_separated(es.map_values(|e: TableElementModel| e.sql())) == es[0].sql() + tail_sql(
            es.drop_first(),
        ),
    decreases es.len(),
{
    let texts = es.map_values(|e: TableElementModel| e.sql());
    if es.len() == 1 {
        assert(es.drop_first() =~= Seq::<TableElementModel>::empty());
        assert(es[0].sql() + tail_sql(es.drop_first()) =~= es[0].sql());
    } else {
        let init = es.drop_last();
        lemma_comma_separated_front(init);
        assert(texts.drop_last() =~= init.map_values(|e: TableElementModel| e.sql()));
        assert(init.drop_first().push(es.last()) =~= es.drop_first());
        lemma_tail_push(init.drop_first(), es.last());
        assert(init[0] == es[0]);
        assert(comma_separated(texts) =~= es[0].sql() + tail_sql(es.drop_first()));
    }
}

proof fn lemma_rest_in_text(s: Seq<u8>, i: int, es: Seq<TableElementModel>)
    requires
        elements_wf(es),
        occurs_at(s, i, tail_sql(es) + seq![41u8]),
    ensures
        elements_rest_spec(s, i) == Ok::<(int, Seq<TableElementModel>), ParseError>(
            (i + tail_sql(es).len() + 1, es),
        ),
    decreases es.len(),
{
    let t = tail_sql(es);
    lemma_occurs_split(s, i, t, seq![41u8]);
    lemma_occurs_index(s, i + t.len(), seq![41u8], 0);
    if es.len() == 0 {
        assert(es =~= Seq::<TableElementModel>::empty());
    } else {
        let TableElementModel::ColumnDefinition(c) = es[0];
        assert(column_wf(c));
        let rest = es.drop_first();
        assert(t == seq![44u8, 32u8] + c.sql() + tail_sql(rest));
        assert(elements_wf(rest)) by {
            assert forall|j: int| 0 <= j < rest.len() implies match #[trigger] rest[j] {
                TableElementModel::ColumnDefinition(c) => column_wf(c),
            } by {
                assert(rest[j] == es[j + 1]);
            }
        }
        lemma_occurs_split(s, i, seq![44u8, 32u8] + c.sql(), tail_sql(rest));
        lemma_occurs_split(s, i, seq![44u8, 32u8], c.sql());
        lemma_occurs_index(s, i, seq![44u8, 32u8], 0);
        lemma_occurs_index(s, i, seq![44u8, 32u8], 1);
        lemma_ident_sql_bytes(c.column_name);
        lemma_occurs_index(s, i + 2, c.sql(), 0);
        assert(c.sql()[0] == c.column_name.sql()[0]);
        lemma_ws_one(s, i + 1);
        let y = i + 2 + c.sql().len();
        let rt = tail_sql(rest);
        assert(occurs_at(s, y, rt + seq![41u8])) by {
            assert forall|j: int| 0 <= j < (rt + seq![41u8]).len() implies #[trigger] s[y + j]
                == (rt + seq![41u8])[j] by {
                if j < rt.len() {
                    lemma_occurs_index(s, y, rt, j);
                } else {
                    lemma_occurs_index(s, i + t.len(), seq![41u8], 0);
                }
            }
        }
        if rest.len() > 0 {
            lemma_occurs_index(s, y, rt, 0);
        } else {
            lemma_occurs_index(s, y, rt + seq![41u8], 0);
        }
        lemma_column_in_text(s, i + 2, c);
        lemma_rest_in_text(s, y, rest);
        assert(seq![es[0]] + rest =~= es);
    }
}

/// The canonical text of a non-empty list of well-formed elements parses
/// back to that list.
pub proof fn lemma_element_list_in_text(s: Seq<u8>, g: int, es: Seq<TableElementModel>)
    requires
        es.len() >= 1,
        elements_wf(es),
        occurs_at(s, g, element_list_sql(es)),
    ensures
        element_list_spec(s, g) == Ok::<(int, Seq<TableElementModel>), ParseError>(
            (g + element_list_sql(es).len(), es),
        ),
{
    lemma_comma_separated_front(es);
    let TableElementModel::ColumnDefinition(c) = es[0];
    assert(column_wf(c));
    let rest = es.drop_first();
    let x = c.sql() + tail_sql(rest);
    assert(element_list_sql(es) =~= seq![40u8] + c.sql() + (tail_sql(rest) + seq![41u8]));
    lemma_occurs_split(s, g, seq![40u8] + c.sql(), tail_sql(rest) + seq![41u8]);
    lemma_occurs_split(s, g, seq![40u8], c.sql());
    lemma_occurs_index(s, g, seq![40u8], 0);
    lemma_ident_sql_bytes(c.column_name);
    lemma_occurs_index(s, g + 1, c.sql(), 0);
    assert(c.sql()[0] == c.column_name.sql()[0]);
    let y = g + 1 + c.sql().len();
    lemma_occurs_index(s, y, tail_sql(rest) + seq![41u8], 0);
    if rest.len() > 0 {
        assert((tail_sql(rest) + seq![41u8])[0] == 44);
    }
    assert(elements_wf(rest)) by {
        assert forall|j: int| 0 <= j < rest.len() implies match #[trigger] rest[j] {
            TableElementModel::ColumnDefinition(c) => column_wf(c),
        } by {
            assert(rest[j] == es[j + 1]);
        }
    }
    lemma_column_in_text(s, g + 1, c);
    lemma_rest_in_text(s, y, rest);
    assert(seq![es[0]] + rest =~= es);
}

proof fn lemma_ident_text_no_ws(i: IdentModel)
    requires
        ident_wf(i),
    ensures
        i.sql().len() >= 1,
        forall|j: int| 0 <= j < i.sql().len() ==> !is_ws(#[trigger] i.sql()[j]),
        !is_ws(i.sql()[0]),
{
    lemma_ident_sql_bytes(i);
}

proof fn lemma_schema_text_no_ws(n: SchemaNameModel)
    requires
        schema_name_wf(n),
    ensures
        n.sql().len() >= 1,
        forall|j: int| 0 <= j < n.sql().len() ==> !is_ws(#[trigger] n.sql()[j]),
        !is_ws(n.sql()[0]),
{
    lemma_ident_text_no_ws(n.name);
    if let Some(c) = n.catalog {
        lemma_ident_text_no_ws(c);
        let t = n.sql();
        assert forall|j: int| 0 <= j < t.len() implies !is_ws(#[trigger] t[j]) by {
            if j < c.sql().len() {
                assert(t[j] == c.sql()[j]);
            } else if j > c.sql().len() {
                assert(t[j] == n.name.sql()[j - c.sql().len() - 1]);
            }
        }
        assert(t[0] == c.sql()[0]);
    }
}

proof fn lemma_table_text_start(t: TableNameModel)
    requires
        table_name_wf(t),
    ensures
        t.sql().len() >= 1,
        !is_ws(t.sql()[0]),
{
    lemma_ident_text_no_ws(t.name);
    match t.qualifier {
        Some(QualifierModel::Schema(n)) => {
            lemma_schema_text_no_ws(n);
            assert(t.sql()[0] == n.sql()[0]);
        },
        Some(QualifierModel::LocalQualifier(_)) => {
            assert(t.sql()[0] == Keyword::Module.text()[0]);
        },
        None => {},
    }
}

/// A well-formed `CREATE TABLE` statement: a well-formed table name and a
/// non-empty list of well-formed elements.
pub open spec fn create_table_wf(m: CreateTableModel) -> bool {
    &&& table_name_wf(m.table_name)
    &&& match m.source {
        TableContentsSourceModel::TableElementList(es) => es.len() >= 1 && elements_wf(es),
    }
}

/// Splits the occurrence of `a + b` at `p` and returns where `b` starts.
proof fn lemma_then(s: Seq<u8>, p: int, a: Seq<u8>, b: Seq<u8>) -> (q: int)
    requires
        occurs_at(s, p, a + b),
    ensures
        q == p + a.len(),
        occurs_at(s, p, a),
        occurs_at(s, q, b),
{
    lemma_occurs_split(s, p, a, b);
    p + a.len()
}

/// The canonical text of a well-formed `CREATE TABLE` statement parses back
/// to it.
#[verifier::spinoff_prover]
#[verifier::rlimit(100)]
pub proof fn lemma_create_table_round_trip(m: CreateTableModel)
    requires
        create_table_wf(m),
    ensures
        create_table_spec(m.sql(), 0) == Ok::<(int, CreateTableModel), ParseError>(
            (m.sql().len() as int, m),
        ),
{
    reveal(create_table_spec);
    let s = m.sql();
    let scope = match m.table_scope {
        Some(t) => seq![32u8] + t.sql(),
        None => Seq::<u8>::empty(),
    };
    let create = Keyword::Create.text();
    let table = Keyword::Table.text();
    let name = m.table_name.sql();
    let source = m.source.sql();
    assert forall|i: int| 0 <= i < s.len() implies #[trigger] s[0 + i] == s[i] by {}
    let head = create + scope + seq![32u8] + table + seq![32u8] + name + seq![32u8];
    let p7 = lemma_then(s, 0, head, source);
    let p6 = lemma_then(s, 0, create + scope + seq![32u8] + table + seq![32u8] + name, seq![32u8]);
    let p5 = lemma_then(s, 0, create + scope + seq![32u8] + table + seq![32u8], name);
    let p4 = lemma_then(s, 0, create + scope + seq![32u8] + table, seq![32u8]);
    let p3 = lemma_then(s, 0, create + scope + seq![32u8], table);
    let p2 = lemma_then(s, 0, create + scope, seq![32u8]);
    let p1 = lemma_then(s, 0, create, scope);
    lemma_occurs_keyword(s, 0, Keyword::Create);
    lemma_occurs_keyword(s, p3, Keyword::Table);
    lemma_occurs_index(s, p2, seq![32u8], 0);
    lemma_occurs_index(s, p3, table, 0);
    lemma_occurs_index(s, p4, seq![32u8], 0);
    lemma_occurs_index(s, p6, seq![32u8], 0);
    lemma_table_text_start(m.table_name);
    lemma_occurs_index(s, p5, name, 0);
    let TableContentsSourceModel::TableElementList(es) = m.source;
    assert(source == element_list_sql(es));
    lemma_occurs_index(s, p7, source, 0);
    match m.table_scope {
        Some(t) => {
            let k = t.keyword();
            let q = lemma_then(s, p1, seq![32u8], t.sql());
            lemma_occurs_index(s, p1, seq![32u8], 0);
            lemma_occurs_index(s, q, k.text(), 0);
            lemma_ws_one(s, p1);
            lemma_occurs_keyword(s, q, k);
            if t == TableScope::Local {
                if keyword_at_spec(s, q, Keyword::GlobalTemporary) {
                    lemma_tag_index(s, q, Keyword::GlobalTemporary.text(), 0);
                }
            }
            assert(table_scope_spec(s, p1) == (p2, Some(t)));
        },
        None => {
            lemma_ws_one(s, p2);
            if keyword_at_spec(s, p3, Keyword::GlobalTemporary) {
                lemma_tag_index(s, p3, Keyword::GlobalTemporary.text(), 0);
            }
            if keyword_at_spec(s, p3, Keyword::LocalTemporary) {
                lemma_tag_index(s, p3, Keyword::LocalTemporary.text(), 0);
            }
            assert(table_scope_spec(s, p1) == (p1, None::<TableScope>));
        },
    }
    lemma_ws_one(s, p2);
    lemma_ws_one(s, p4);
    lemma_ws_one(s, p6);
    lemma_table_name_in_text(s, p5, m.table_name);
    lemma_element_list_in_text(s, p7, es);
}

/// The canonical text of a well-formed `DROP TABLE` statement parses back to
/// it.
#[verifier::spinoff_prover]
#[verifier::rlimit(100)]
pub proof fn lemma_drop_table_round_trip(m: DropTableModel)
    requires
        table_name_wf(m.table_name),
    ensures
        drop_table_spec(m.sql(), 0) == Ok::<(int, DropTableModel), ParseError>(
            (m.sql().len() as int, m),
        ),
{
    reveal(drop_table_spec);
    let s = m.sql();
    let drop = Keyword::Drop.text();
    let table = Keyword::Table.text();
    let name = m.table_name.sql();
    let behavior = m.drop_behavior.sql();
    assert forall|i: int| 0 <= i < s.len() implies #[trigger] s[0 + i] == s[i] by {}
    let p6 = lemma_then(s, 0, drop + seq![32u8] + table + seq![32u8] + name + seq![32u8], behavior);
    let p5 = lemma_then(s, 0, drop + seq![32u8] + table + seq![32u8] + name, seq![32u8]);
    let p4 = lemma_then(s, 0, drop + seq![32u8] + table + seq![32u8], name);
    let p3 = lemma_then(s, 0, drop + seq![32u8] + table, seq![32u8]);
    let p2 = lemma_then(s, 0, drop + seq![32u8], table);
    let p1 = lemma_then(s, 0, drop, seq![32u8]);
    lemma_occurs_keyword(s, 0, Keyword::Drop);
    lemma_occurs_keyword(s, p2, Keyword::Table);
    lemma_occurs_keyword(s, p6, m.drop_behavior.keyword());
    lemma_occurs_index(s, p1, seq![32u8], 0);
    lemma_occurs_index(s, p2, table, 0);
    lemma_occurs_index(s, p3, seq![32u8], 0);
    lemma_occurs_index(s, p5, seq![32u8], 0);
    lemma_occurs_index(s, p6, behavior, 0);
    lemma_table_text_start(m.table_name);
    lemma_occurs_index(s, p4, name, 0);
    lemma_ws_one(s, p1);
    lemma_ws_one(s, p3);
    lemma_ws_one(s, p5);
    lemma_table_name_in_text(s, p4, m.table_name);
    if m.drop_behavior == DropBehavior::Restrict {
        if keyword_at_spec(s, p6, Keyword::Cascade) {
            lemma_tag_index(s, p6, Keyword::Cascade.text(), 0);
        }
    }
}

/// The canonical text of a well-formed `DROP SCHEMA` statement parses back
/// to it.
#[verifier::spinoff_prover]
#[verifier::rlimit(100)]
pub proof fn lemma_drop_schema_round_trip(m: DropSchemaModel)
    requires
        schema_name_wf(m.schema_name),
    ensures
        drop_schema_spec(m.sql(), 0) == Ok::<(int, DropSchemaModel), ParseError>(
            (m.sql().len() as int, m),
        ),
{
    reveal(drop_schema_spec);
    let s = m.sql();
    let drop = Keyword::Drop.text();
    let schema = Keyword::Schema.text();
    let name = m.schema_name.sql();
    let behavior = m.drop_behavior.sql();
    assert forall|i: int| 0 <= i < s.len() implies #[trigger] s[0 + i] == s[i] by {}
    let p7 = lemma_then(
        s,
        0,
        drop + seq![32u8] + schema + seq![32u8] + name + seq![32u8] + behavior,
        seq![59u8],
    );
    let head = drop + seq![32u8] + schema + seq![32u8] + name + seq![32u8];
    let p6 = lemma_then(s, 0, head, behavior);
    let p5 = lemma_then(s, 0, drop + seq![32u8] + schema + seq![32u8] + name, seq![32u8]);
    let p4 = lemma_then(s, 0, drop + seq![32u8] + schema + seq![32u8], name);
    let p3 = lemma_then(s, 0, drop + seq![32u8] + schema, seq![32u8]);
    let p2 = lemma_then(s, 0, drop + seq![32u8], schema);
    let p1 = lemma_then(s, 0, drop, seq![32u8]);
    lemma_occurs_keyword(s, 0, Keyword::Drop);
    lemma_occurs_keyword(s, p2, Keyword::Schema);
    lemma_occurs_keyword(s, p6, m.drop_behavior.keyword());
    lemma_occurs_index(s, p1, seq![32u8], 0);
    lemma_occurs_index(s, p2, schema, 0);
    lemma_occurs_index(s, p3, seq![32u8], 0);
    lemma_occurs_index(s, p5, seq![32u8], 0);
    lemma_occurs_index(s, p6, behavior, 0);
    lemma_occurs_index(s, p7, seq![59u8], 0);
    lemma_schema_text_no_ws(m.schema_name);
    lemma_occurs_index(s, p4, name, 0);
    lemma_ws_one(s, p1);
    lemma_ws_one(s, p3);
    lemma_ws_one(s, p5);
    lemma_schema_name_in_text(s, p4, m.schema_name);
    if m.drop_behavior == DropBehavior::Restrict {
        if keyword_at_spec(s, p6, Keyword::Cascade) {
            lemma_tag_index(s, p6, Keyword::Cascade.text(), 0);
        }
    }
    assert(terminator_spec(s, p7) == Some(s.len() as int));
}

/// A well-formed schema name clause: its names are well-formed.
pub open spec fn clause_wf(c: SchemaNameClauseModel) -> bool {
    match c {
        SchemaNameClauseModel::Simple(n) => schema_name_wf(n),
        SchemaNameClauseModel::Authorization(a) => ident_wf(a),
        SchemaNameClauseModel::NamedAuthorization(n, a) => schema_name_wf(n) && ident_wf(a),
    }
}

/// `AUTHORIZATION` and an identifier do not stand at `q` where a token
/// without whitespace stands, followed by `;`.
proof fn lemma_no_authorization(s: Seq<u8>, q: int, t: Seq<u8>)
    requires
        occurs_at(s, q, t),
        forall|j: int| 0 <= j < t.len() ==> !is_ws(#[trigger] t[j]),
        q + t.len() < s.len(),
        s[q + t.len()] == 59,
    ensures
        authorization_spec(s, q) is None,
{
    let k = Keyword::Authorization.text();
    assert(k =~= seq![
        65u8, 85u8, 84u8, 72u8, 79u8, 82u8, 73u8, 90u8, 65u8, 84u8, 73u8, 79u8, 78u8,
    ]);
    if keyword_at_spec(s, q, Keyword::Authorization) {
        if t.len() > 13 {
            lemma_occurs_index(s, q, t, 13);
        } else if t.len() < 13 {
            lemma_tag_index(s, q, k, t.len() as int);
        }
        assert(ws_end(s, q + 13) == q + 13);
    }
}

/// The identifier `AUTHORIZATION`.
pub open spec fn authorization_ident() -> IdentModel {
    IdentModel { value: Keyword::Authorization.text(), quote_style: QuoteStyle::Unquoted }
}

proof fn lemma_authorization_ident_wf()
    ensures
        ident_wf(authorization_ident()),
{
    let k = Keyword::Authorization.text();
    assert(k =~= seq![
        65u8, 85u8, 84u8, 72u8, 79u8, 82u8, 73u8, 90u8, 65u8, 84u8, 73u8, 79u8, 78u8,
    ]);
}

/// The canonical text of a well-formed schema name clause, followed by `;`,
/// parses back to it.
#[verifier::spinoff_prover]
#[verifier::rlimit(100)]
pub proof fn lemma_clause_in_text(s: Seq<u8>, d: int, c: SchemaNameClauseModel)
    requires
        clause_wf(c),
        occurs_at(s, d, c.sql()),
        d + c.sql().len() < s.len(),
        s[d + c.sql().len()] == 59,
    ensures
        schema_name_clause_spec(s, d) == Some((d + c.sql().len(), c)),
{
    let auth = Keyword::Authorization.text();
    match c {
        SchemaNameClauseModel::Simple(n) => {
            lemma_schema_text_no_ws(n);
            lemma_schema_name_in_text(s, d, n);
            lemma_no_authorization(s, d, n.sql());
        },
        SchemaNameClauseModel::Authorization(a) => {
            let e = lemma_then(s, d, auth + seq![32u8], a.sql());
            lemma_then(s, d, auth, seq![32u8]);
            lemma_occurs_index(s, d + 13, seq![32u8], 0);
            lemma_ident_text_no_ws(a);
            lemma_occurs_index(s, e, a.sql(), 0);
            lemma_authorization_ident_wf();
            assert(authorization_ident().sql() == auth);
            lemma_schema_name_in_text(
                s,
                d,
                SchemaNameModel { name: authorization_ident(), catalog: None },
            );
            lemma_ws_one(s, d + 13);
            lemma_no_authorization(s, e, a.sql());
            lemma_occurs_keyword(s, d, Keyword::Authorization);
            lemma_ident_in_text(s, e, a);
        },
        SchemaNameClauseModel::NamedAuthorization(n, a) => {
            let t = n.sql();
            let e3 = lemma_then(s, d, t + seq![32u8] + auth + seq![32u8], a.sql());
            let e2 = lemma_then(s, d, t + seq![32u8] + auth, seq![32u8]);
            let e1 = lemma_then(s, d, t + seq![32u8], auth);
            let e0 = lemma_then(s, d, t, seq![32u8]);
            lemma_occurs_index(s, e0, seq![32u8], 0);
            lemma_occurs_index(s, e2, seq![32u8], 0);
            lemma_occurs_index(s, e1, auth, 0);
            lemma_ident_text_no_ws(a);
            lemma_occurs_index(s, e3, a.sql(), 0);
            lemma_schema_name_in_text(s, d, n);
            lemma_ws_one(s, e0);
            lemma_ws_one(s, e2);
            lemma_occurs_keyword(s, e1, Keyword::Authorization);
            lemma_ident_in_text(s, e3, a);
        },
    }
}

/// The canonical text of a well-formed `CREATE SCHEMA` statement parses back
/// to it.
#[verifier::spinoff_prover]
#[verifier::rlimit(100)]
pub proof fn lemma_create_schema_round_trip(c: SchemaNameClauseModel)
    requires
        clause_wf(c),
    ensures
        create_schema_spec(create_schema_sql(c), 0) == Ok::<
            (int, SchemaNameClauseModel),
            ParseError,
        >((create_schema_sql(c).len() as int, c)),
{
    reveal(create_schema_spec);
    let s = create_schema_sql(c);
    let create = Keyword::Create.text();
    let schema = Keyword::Schema.text();
    assert forall|i: int| 0 <= i < s.len() implies #[trigger] s[0 + i] == s[i] by {}
    let p5 = lemma_then(s, 0, create + seq![32u8] + schema + seq![32u8] + c.sql(), seq![59u8]);
    let p4 = lemma_then(s, 0, create + seq![32u8] + schema + seq![32u8], c.sql());
    let p3 = lemma_then(s, 0, create + seq![32u8] + schema, seq![32u8]);
    let p2 = lemma_then(s, 0, create + seq![32u8], schema);
    let p1 = lemma_then(s, 0, create, seq![32u8]);
    lemma_occurs_keyword(s, 0, Keyword::Create);
    lemma_occurs_keyword(s, p2, Keyword::Schema);
    lemma_occurs_index(s, p1, seq![32u8], 0);
    lemma_occurs_index(s, p2, schema, 0);
    lemma_occurs_index(s, p3, seq![32u8], 0);
    lemma_occurs_index(s, p5, seq![59u8], 0);
    lemma_occurs_index(s, p4, c.sql(), 0);
    match c {
        SchemaNameClauseModel::Simple(n) => {
            lemma_schema_text_no_ws(n);
            assert(c.sql()[0] == n.sql()[0]);
        },
        SchemaNameClauseModel::Authorization(a) => {
            assert(c.sql()[0] == Keyword::Authorization.text()[0]);
        },
        SchemaNameClauseModel::NamedAuthorization(n, a) => {
            lemma_schema_text_no_ws(n);
            assert(c.sql()[0] == n.sql()[0]);
        },
    }
    lemma_ws_one(s, p1);
    lemma_ws_one(s, p3);
    lemma_clause_in_text(s, p4, c);
    assert(terminator_spec(s, p5) == Some(s.len() as int));
}

/// A well-formed statement: its names are well-formed, and a table element
/// list is not empty.
pub open spec fn statement_wf(m: StatementModel) -> bool {
    match m {
        StatementModel::CreateSchema(c) => clause_wf(c),
        StatementModel::DropSchema(d) => schema_name_wf(d.schema_name),
        StatementModel::DropTable(d) => table_name_wf(d.table_name),
        StatementModel::CreateTable(c) => create_table_wf(c),
    }
}

proof fn lemma_keyword_ruled_out(s: Seq<u8>, p: int, k: Keyword, i: int)
    requires
        0 <= i < k.text().len(),
        p + i < s.len(),
        0 <= p,
        lower(s[p + i]) != lower(k.text()[i]),
    ensures
        !keyword_at_spec(s, p, k),
{
    if keyword_at_spec(s, p, k) {
        lemma_tag_index(s, p, k.text(), i);
    }
}

proof fn lemma_keyword_starts_with_letter(k: Keyword)
    ensures
        k.text().len() >= 1,
        is_alpha(k.text()[0]),
{
    match k {
        Keyword::CharacterLargeObject => {},
        Keyword::CharLargeObject => {},
        Keyword::Clob => {},
        Keyword::CharacterVarying => {},
        Keyword::CharVarying => {},
        Keyword::Character => {},
        Keyword::Varchar => {},
        Keyword::Char => {},
        Keyword::BinaryLargeObject => {},
        Keyword::Blob => {},
        Keyword::Varbinary => {},
        Keyword::BinaryVarying => {},
        Keyword::Binary => {},
        Keyword::DecFloat => {},
        Keyword::Decimal => {},
        Keyword::Numeric => {},
        Keyword::Dec => {},
        Keyword::Smallint => {},
        Keyword::Integer => {},
        Keyword::Bigint => {},
        Keyword::Int => {},
        Keyword::Float => {},
        Keyword::Real => {},
        Keyword::DoublePrecision => {},
        Keyword::Boolean => {},
        Keyword::Date => {},
        Keyword::Timestamp => {},
        Keyword::Time => {},
        Keyword::Octets => {},
        Keyword::Characters => {},
        Keyword::WithoutTimeZone => {},
        Keyword::WithTimeZone => {},
        Keyword::Create => {},
        Keyword::Schema => {},
        Keyword::Authorization => {},
        Keyword::Drop => {},
        Keyword::Table => {},
        Keyword::GlobalTemporary => {},
        Keyword::LocalTemporary => {},
        Keyword::Cascade => {},
        Keyword::Restrict => {},
        Keyword::Module => {},
        Keyword::SetNull => {},
        Keyword::SetDefault => {},
        Keyword::NoAction => {},
        Keyword::OnDelete => {},
        Keyword::OnUpdate => {},
        Keyword::Full => {},
        Keyword::Partial => {},
        Keyword::Simple => {},
        Keyword::Period => {},
    }
}

/// Text that starts with `DROP` is no `CREATE SCHEMA` statement, and the
/// parser has not committed to it.
proof fn lemma_not_create_schema_drop(s: Seq<u8>)
    requires
        occurs_at(s, 0, Keyword::Drop.text()),
    ensures
        create_schema_spec(s, 0) matches Err(e) && !committed(e),
{
    reveal(create_schema_spec);
    lemma_occurs_index(s, 0, Keyword::Drop.text(), 0);
    lemma_keyword_ruled_out(s, 0, Keyword::Create, 0);
}

/// Text that starts with `CREATE` is no `DROP` statement, and the parsers
/// have not committed to it.
proof fn lemma_not_drop(s: Seq<u8>)
    requires
        occurs_at(s, 0, Keyword::Create.text()),
    ensures
        drop_schema_spec(s, 0) matches Err(e) && !committed(e),
        drop_table_spec(s, 0) matches Err(e) && !committed(e),
{
    reveal(drop_schema_spec);
    reveal(drop_table_spec);
    lemma_occurs_index(s, 0, Keyword::Create.text(), 0);
    lemma_keyword_ruled_out(s, 0, Keyword::Drop, 0);
}

/// `DROP` and whitespace followed by a byte other than `s` or `S` is no
/// `DROP SCHEMA` statement, and the parser has not committed to it.
proof fn lemma_not_drop_schema(s: Seq<u8>)
    requires
        occurs_at(s, 0, Keyword::Drop.text()),
        s.len() > 5,
        s[4] == 32,
        !is_ws(s[5]),
        lower(s[5]) != lower(Keyword::Schema.text()[0]),
    ensures
        drop_schema_spec(s, 0) matches Err(e) && !committed(e),
{
    reveal(drop_schema_spec);
    lemma_occurs_keyword(s, 0, Keyword::Drop);
    lemma_ws_one(s, 4);
    lemma_keyword_ruled_out(s, 5, Keyword::Schema, 0);
}

/// `CREATE` and whitespace followed by a byte other than `s` or `S` is no
/// `CREATE SCHEMA` statement, and the parser has not committed to it.
proof fn lemma_not_create_schema(s: Seq<u8>)
    requires
        occurs_at(s, 0, Keyword::Create.text()),
        s.len() > 7,
        s[6] == 32,
        !is_ws(s[7]),
        lower(s[7]) != lower(Keyword::Schema.text()[0]),
    ensures
        create_schema_spec(s, 0) matches Err(e) && !committed(e),
{
    reveal(create_schema_spec);
    lemma_occurs_keyword(s, 0, Keyword::Create);
    lemma_ws_one(s, 6);
    lemma_keyword_ruled_out(s, 7, Keyword::Schema, 0);
}

/// Round trip of statements: the canonical text of every well-formed
/// statement parses back to that statement, consuming the whole text.
pub proof fn lemma_statement_round_trip(m: StatementModel)
    requires
        statement_wf(m),
    ensures
        statement_spec(m.sql(), 0) == Ok::<(int, StatementModel), ParseError>(
            (m.sql().len() as int, m),
        ),
{
    let s = m.sql();
    assert forall|i: int| 0 <= i < s.len() implies #[trigger] s[0 + i] == s[i] by {}
    match m {
        StatementModel::CreateSchema(c) => {
            lemma_create_schema_round_trip(c);
        },
        StatementModel::DropSchema(d) => {
            lemma_drop_schema_round_trip(d);
            let drop = Keyword::Drop.text();
            let rest = seq![32u8] + Keyword::Schema.text() + seq![32u8] + d.schema_name.sql()
                + seq![32u8] + d.drop_behavior.sql() + seq![59u8];
            assert(s =~= drop + rest);
            lemma_then(s, 0, drop, rest);
            lemma_not_create_schema_drop(s);
        },
        StatementModel::DropTable(d) => {
            lemma_drop_table_round_trip(d);
            let drop = Keyword::Drop.text();
            let rest = seq![32u8] + Keyword::Table.text() + seq![32u8] + d.table_name.sql() + seq![
                32u8,
            ] + d.drop_behavior.sql();
            assert(s =~= drop + rest);
            let p1 = lemma_then(s, 0, drop, rest);
            lemma_occurs_index(s, p1, rest, 0);
            lemma_occurs_index(s, p1, rest, 1);
            assert(rest[1] == Keyword::Table.text()[0]);
            lemma_not_create_schema_drop(s);
            lemma_not_drop_schema(s);
        },
        StatementModel::CreateTable(c) => {
            lemma_create_table_round_trip(c);
            let create = Keyword::Create.text();
            let scope = match c.table_scope {
                Some(t) => seq![32u8] + t.sql(),
                None => Seq::<u8>::empty(),
            };
            let rest = seq![32u8] + Keyword::Table.text() + seq![32u8] + c.table_name.sql()
                + seq![32u8] + c.source.sql();
            assert(s =~= create + scope + rest);
            let p2 = lemma_then(s, 0, create + scope, rest);
            let p1 = lemma_then(s, 0, create, scope);
            lemma_occurs_index(s, p2, rest, 0);
            lemma_occurs_index(s, p2, rest, 1);
            assert(rest[1] == Keyword::Table.text()[0]);
            match c.table_scope {
                Some(t) => {
                    lemma_occurs_index(s, p1, scope, 0);
                    lemma_occurs_index(s, p1, scope, 1);
                    assert(scope[1] == t.keyword().text()[0]);
                    assert(lower(s[7]) != lower(Keyword::Schema.text()[0]));
                },
                None => {},
            }
            lemma_not_create_schema(s);
            lemma_not_drop(s);
        },
    }
}

proof fn lemma_ident_end_bytes(s: Seq<u8>, p: int)
    requires
        0 <= p <= s.len(),
    ensures
        p <= ident_end(s, p) <= s.len(),
        forall|j: int| p <= j < ident_end(s, p) ==> is_ident_byte(#[trigger] s[j]),
    decreases s.len() - p,
{
    if p < s.len() && is_ident_byte(s[p]) {
        lemma_ident_end_bytes(s, p + 1);
    }
}

proof fn lemma_ws_end_stops(s: Seq<u8>, p: int)
    requires
        0 <= p <= s.len(),
    ensures
        p <= ws_end(s, p) <= s.len(),
        ws_end(s, p) < s.len() ==> !is_ws(s[ws_end(s, p)]),
        ws_end(s, ws_end(s, p)) == ws_end(s, p),
    decreases s.len() - p,
{
    if p < s.len() && is_ws(s[p]) {
        lemma_ws_end_stops(s, p + 1);
    }
}

/// An identifier that parses is well-formed, and its canonical text is the
/// text it was parsed from, after the whitespace before it.
proof fn lemma_parsed_ident(s: Seq<u8>, p: int)
    requires
        0 <= p <= s.len(),
        ident_spec(s, p) is Some,
    ensures
        ({
            let (e, i) = ident_spec(s, p)->Some_0;
            &&& ident_wf(i)
            &&& occurs_at(s, ws_end(s, p), i.sql())
            &&& e == ws_end(s, p) + i.sql().len()
        }),
{
    lemma_ws_end_stops(s, p);
    let q = ws_end(s, p);
    let (e, i) = ident_spec(s, p)->Some_0;
    if q < s.len() && s[q] == 34 {
        lemma_ident_end_bytes(s, q + 1);
        let v = s.subrange(q + 1, e - 1);
        assert(i.value == v);
        assert forall|j: int| 0 <= j < v.len() implies is_ident_byte(#[trigger] v[j]) by {
            assert(v[j] == s[q + 1 + j]);
        }
        assert(i.sql() =~= seq![34u8] + v + seq![34u8]);
        assert forall|j: int| 0 <= j < i.sql().len() implies #[trigger] s[q + j] == i.sql()[j] by {
            if j == 0 {
            } else if j < i.sql().len() - 1 {
                assert(i.sql()[j] == v[j - 1]);
            }
        }
    } else {
        lemma_ident_end_bytes(s, q);
        lemma_ident_end_bytes(s, q + 1);
        let v = s.subrange(q, e);
        assert(i.value == v);
        assert forall|j: int| 0 <= j < v.len() implies is_ident_byte(#[trigger] v[j]) by {
            assert(v[j] == s[q + j]);
        }
        assert(v[0] == s[q]);
        assert forall|j: int| 0 <= j < i.sql().len() implies #[trigger] s[q + j] == i.sql()[j] by {}
    }
}

proof fn lemma_parsed_schema_name(s: Seq<u8>, p: int)
    requires
        0 <= p <= s.len(),
        schema_name_spec(s, p) is Some,
    ensures
        schema_name_wf(schema_name_spec(s, p)->Some_0.1),
{
    lemma_parsed_ident(s, p);
    let (q, a) = ident_spec(s, p)->Some_0;
    lemma_ws_end_stops(s, p);
    if dot_ident_spec(s, q) is Some {
        lemma_parsed_ident(s, q + 1);
    }
}

/// A table name that parses where no whitespace precedes it is well-formed.
proof fn lemma_parsed_table_name(s: Seq<u8>, p: int)
    requires
        0 <= p < s.len(),
        !is_ws(s[p]),
        table_name_spec(s, p) is Some,
    ensures
        table_name_wf(table_name_spec(s, p)->Some_0.1),
{
    let m = Keyword::Module.text();
    assert(ws_end(s, p) == p);
    match qualifier_spec(s, p) {
        Some((q, QualifierModel::Schema(n))) => {
            lemma_parsed_ident(s, p);
            let (e1, a) = ident_spec(s, p)->Some_0;
            assert(local_qualifier_spec(s, p) is None);
            if dot_ident_spec(s, e1) is Some {
                lemma_parsed_ident(s, e1 + 1);
            }
            assert(first_ident(n) == a);
            if tag_at(a.sql(), 0, m) {
                assert forall|j: int| 0 <= j < m.len() implies lower(#[trigger] s[p + j]) == lower(
                    m[j],
                ) by {
                    lemma_occurs_index(s, p, a.sql(), j);
                    assert(lower(a.sql()[0 + j]) == lower(m[j]));
                }
                assert(keyword_at_spec(s, p, Keyword::Module));
            }
            if q < s.len() && s[q] == 46 {
                lemma_parsed_ident(s, q + 1);
            } else {
                lemma_parsed_ident(s, p);
            }
        },
        Some((q, QualifierModel::LocalQualifier(_))) => {
            if q < s.len() && s[q] == 46 {
                lemma_parsed_ident(s, q + 1);
            } else {
                lemma_parsed_ident(s, p);
            }
        },
        None => {
            lemma_parsed_ident(s, p);
        },
    }
}

proof fn lemma_parsed_rest(s: Seq<u8>, i: int)
    requires
        elements_rest_spec(s, i) is Ok,
    ensures
        elements_wf(elements_rest_spec(s, i)->Ok_0.1),
    decreases s.len() - i,
{
    let w = ws_end(s, i);
    assert(0 <= i < s.len());
    lemma_ws_end_stops(s, i);
    if 0 <= w < s.len() && s[w] == 44 {
        let x = ws_end(s, w + 1);
        lemma_ws_end_stops(s, w + 1);
        let (y, c) = column_definition_spec(s, x)->Some_0;
        lemma_parsed_ident(s, x);
        lemma_parsed_rest(s, y);
        let cs = elements_rest_spec(s, y)->Ok_0.1;
        let all = seq![TableElementModel::ColumnDefinition(c)] + cs;
        assert forall|j: int| 0 <= j < all.len() implies match #[trigger] all[j] {
            TableElementModel::ColumnDefinition(c) => column_wf(c),
        } by {
            if j > 0 {
                assert(all[j] == cs[j - 1]);
            }
        }
    } else {
        let e = Seq::<TableElementModel>::empty();
        assert(elements_wf(e));
    }
}

proof fn lemma_parsed_element_list(s: Seq<u8>, g: int)
    requires
        0 <= g <= s.len(),
        element_list_spec(s, g) is Ok,
    ensures
        ({
            let es = element_list_spec(s, g)->Ok_0.1;
            es.len() >= 1 && elements_wf(es)
        }),
{
    let h = ws_end(s, g + 1);
    lemma_ws_end_stops(s, g + 1);
    let (i, c) = column_definition_spec(s, h)->Some_0;
    lemma_parsed_ident(s, h);
    lemma_parsed_rest(s, i);
    let cs = elements_rest_spec(s, i)->Ok_0.1;
    let all = seq![TableElementModel::ColumnDefinition(c)] + cs;
    assert forall|j: int| 0 <= j < all.len() implies match #[trigger] all[j] {
        TableElementModel::ColumnDefinition(c) => column_wf(c),
    } by {
        if j > 0 {
            assert(all[j] == cs[j - 1]);
        }
    }
}

proof fn lemma_parsed_authorization(s: Seq<u8>, q: int)
    requires
        0 <= q <= s.len(),
        authorization_spec(s, q) is Some,
    ensures
        ident_wf(authorization_spec(s, q)->Some_0.1),
{
    let a = q + Keyword::Authorization.text().len();
    lemma_ws_end_stops(s, a);
    lemma_parsed_ident(s, ws_end(s, a));
}

proof fn lemma_parsed_clause(s: Seq<u8>, d: int)
    requires
        0 <= d <= s.len(),
        schema_name_clause_spec(s, d) is Some,
    ensures
        clause_wf(schema_name_clause_spec(s, d)->Some_0.1),
{
    if let Some((e, n)) = schema_name_spec(s, d) {
        lemma_parsed_schema_name(s, d);
        lemma_parsed_ident(s, d);
        lemma_ws_end_stops(s, d);
        let (q, a) = ident_spec(s, d)->Some_0;
        lemma_parsed_ident(s, d);
        if dot_ident_spec(s, q) is Some {
            lemma_parsed_ident(s, q + 1);
        }
        assert(0 <= e <= s.len());
        lemma_ws_end_stops(s, e);
        let w = ws_end(s, e);
        if w > e && authorization_spec(s, w) is Some {
            lemma_parsed_authorization(s, w);
        }
    }
    if authorization_spec(s, d) is Some {
        lemma_parsed_authorization(s, d);
    }
}

proof fn lemma_parsed_create_schema(s: Seq<u8>, p: int)
    requires
        0 <= p <= s.len(),
        create_schema_spec(s, p) is Ok,
    ensures
        clause_wf(create_schema_spec(s, p)->Ok_0.1),
{
    reveal(create_schema_spec);
    let b = ws_end(s, p + Keyword::Create.text().len());
    lemma_ws_end_stops(s, p + Keyword::Create.text().len());
    let c = b + Keyword::Schema.text().len();
    lemma_ws_end_stops(s, c);
    lemma_parsed_clause(s, ws_end(s, c));
}

proof fn lemma_parsed_drop_schema(s: Seq<u8>, p: int)
    requires
        0 <= p <= s.len(),
        drop_schema_spec(s, p) is Ok,
    ensures
        schema_name_wf(drop_schema_spec(s, p)->Ok_0.1.schema_name),
{
    reveal(drop_schema_spec);
    let b = ws_end(s, p + Keyword::Drop.text().len());
    lemma_ws_end_stops(s, p + Keyword::Drop.text().len());
    let c = b + Keyword::Schema.text().len();
    lemma_ws_end_stops(s, c);
    lemma_parsed_schema_name(s, ws_end(s, c));
}

proof fn lemma_parsed_drop_table(s: Seq<u8>, p: int)
    requires
        0 <= p <= s.len(),
        drop_table_spec(s, p) is Ok,
    ensures
        table_name_wf(drop_table_spec(s, p)->Ok_0.1.table_name),
{
    reveal(drop_table_spec);
    let b = ws_end(s, p + Keyword::Drop.text().len());
    lemma_ws_end_stops(s, p + Keyword::Drop.text().len());
    let c = b + Keyword::Table.text().len();
    lemma_ws_end_stops(s, c);
    let e = ws_end(s, c);
    lemma_parsed_table_name(s, e);
}

proof fn lemma_parsed_create_table(s: Seq<u8>, p: int)
    requires
        0 <= p <= s.len(),
        create_table_spec(s, p) is Ok,
    ensures
        create_table_wf(create_table_spec(s, p)->Ok_0.1),
{
    reveal(create_table_spec);
    let a = p + Keyword::Create.text().len();
    lemma_ws_end_stops(s, a);
    let (b, scope) = table_scope_spec(s, a);
    lemma_ws_end_stops(s, b);
    let c = ws_end(s, b);
    let d = c + Keyword::Table.text().len();
    lemma_ws_end_stops(s, d);
    let e = ws_end(s, d);
    lemma_parsed_table_name(s, e);
    let (f, n) = table_name_spec(s, e)->Some_0;
    assert(0 <= f <= s.len()) by {
        match qualifier_spec(s, e) {
            Some((q, _)) => {
                if 0 <= q < s.len() && s[q] == 46 {
                    lemma_parsed_ident(s, q + 1);
                } else {
                    lemma_parsed_ident(s, e);
                }
            },
            None => {
                lemma_parsed_ident(s, e);
            },
        }
    }
    lemma_ws_end_stops(s, f);
    lemma_parsed_element_list(s, ws_end(s, f));
}

/// Every statement that parses is well-formed.
pub proof fn lemma_parsed_statement_wf(s: Seq<u8>, p: int)
    requires
        0 <= p <= s.len(),
        statement_spec(s, p) is Ok,
    ensures
        statement_wf(statement_spec(s, p)->Ok_0.1),
{
    if create_schema_spec(s, p) is Ok {
        lemma_parsed_create_schema(s, p);
    } else if drop_schema_spec(s, p) is Ok {
        lemma_parsed_drop_schema(s, p);
    } else if drop_table_spec(s, p) is Ok {
        lemma_parsed_drop_table(s, p);
    } else {
        lemma_parsed_create_table(s, p);
    }
}

/// Idempotence of parse and render for statements: where a statement parses
/// from any text, rendering it and parsing the rendering gives the same
/// statement again, consuming the whole rendering.
pub proof fn lemma_statement_idempotent(s: Seq<u8>, p: int)
    requires
        0 <= p <= s.len(),
        statement_spec(s, p) is Ok,
    ensures
        ({
            let m = statement_spec(s, p)->Ok_0.1;
            statement_spec(m.sql(), 0) == Ok::<(int, StatementModel), ParseError>(
                (m.sql().len() as int, m),
            )
        }),
{
    lemma_parsed_statement_wf(s, p);
    lemma_statement_round_trip(statement_spec(s, p)->Ok_0.1);
}

} // verus!
