//! `CREATE SCHEMA` statement.
use vstd::prelude::*;

use crate::ansi::ast::common::{SchemaName, SchemaNameModel};
use crate::common::tokens::{push_keyword, Keyword};
use crate::common::{Ident, IdentModel};

verus! {

/// `CREATE SCHEMA <schema name clause>` statement.
#[derive(Clone, Eq, PartialEq, Ord, PartialOrd, Hash, Debug)]
pub struct CreateSchema {
    /// `<schema name clause>`
    schema_name_clause: SchemaNameClause,
}

/// Schema name clause:
/// `<schema name> | AUTHORIZATION <identifier> | <schema name> AUTHORIZATION <identifier>`.
#[derive(Clone, Eq, PartialEq, Ord, PartialOrd, Hash, Debug)]
pub enum SchemaNameClause {
    /// `<schema name>`
    Simple(SchemaName),
    /// `AUTHORIZATION <schema authorization identifier>`
    Authorization(Ident),
    /// `<schema name> AUTHORIZATION <schema authorization identifier>`
    NamedAuthorization(SchemaName, Ident),
}

/// What a schema name clause is.
pub enum SchemaNameClauseModel {
    Simple(SchemaNameModel),
    Authorization(IdentModel),
    NamedAuthorization(SchemaNameModel, IdentModel),
}

impl View for SchemaNameClause {
    type V = SchemaNameClauseModel;

    open spec fn view(&self) -> SchemaNameClauseModel {
        match self {
            SchemaNameClause::Simple(s) => SchemaNameClauseModel::Simple(s@),
            SchemaNameClause::Authorization(a) => SchemaNameClauseModel::Authorization(a@),
            SchemaNameClause::NamedAuthorization(s, a) => SchemaNameClauseModel::NamedAuthorization(
                s@,
                a@,
            ),
        }
    }
}

impl SchemaNameClauseModel {
    /// Canonical text of the clause.
    pub open spec fn sql(self) -> Seq<u8> {
        match self {
            SchemaNameClauseModel::Simple(s) => s.sql(),
            SchemaNameClauseModel::Authorization(a) => Keyword::Authorization.text() + seq![32u8]
                + a.sql(),
            SchemaNameClauseModel::NamedAuthorization(s, a) => s.sql() + seq![32u8]
                + Keyword::Authorization.text() + seq![32u8] + a.sql(),
        }
    }
}

impl SchemaNameClause {
    /// Appends the canonical text to `out`.
    pub fn write_sql(&self, out: &mut Vec<u8>)
        ensures
            final(out)@ == old(out)@ + self@.sql(),
    {
        match self {
            SchemaNameClause::Simple(s) => s.write_sql(out),
            SchemaNameClause::Authorization(a) => {
                push_keyword(out, Keyword::Authorization);
                out.push(32u8);
                a.write_sql(out);
            },
            SchemaNameClause::NamedAuthorization(s, a) => {
                s.write_sql(out);
                out.push(32u8);
                push_keyword(out, Keyword::Authorization);
                out.push(32u8);
                a.write_sql(out);
            },
        }
        assert(out@ =~= old(out)@ + self@.sql());
    }
}

impl View for CreateSchema {
    type V = SchemaNameClauseModel;

    closed spec fn view(&self) -> SchemaNameClauseModel {
        self.schema_name_clause@
    }
}

/// Canonical text of a `CREATE SCHEMA` statement with the given clause.
pub open spec fn create_schema_sql(c: SchemaNameClauseModel) -> Seq<u8> {
    Keyword::Create.text() + seq![32u8] + Keyword::Schema.text() + seq![32u8] + c.sql() + seq![
        59u8,
    ]
}

impl CreateSchema {
    /// A `CREATE SCHEMA` statement with the given clause.
    pub fn new(schema_name_clause: SchemaNameClause) -> (r: Self)
        ensures
            r@ == schema_name_clause@,
    {
        Self { schema_name_clause }
    }

    /// The schema name clause.
    pub fn schema_name_clause(&self) -> (r: &SchemaNameClause)
        ensures
            r@ == self@,
    {
        &self.schema_name_clause
    }

    /// Appends the canonical text to `out`:
    /// `CREATE SCHEMA <schema name clause>;`.
    pub fn write_sql(&self, out: &mut Vec<u8>)
        ensures
            final(out)@ == old(out)@ + create_schema_sql(self@),
    {
        push_keyword(out, Keyword::Create);
        out.push(32u8);
        push_keyword(out, Keyword::Schema);
        out.push(32u8);
        self.schema_name_clause.write_sql(out);
        out.push(59u8);
        assert(out@ =~= old(out)@ + create_schema_sql(self@));
    }
}

} // verus!
