//! The ANSI dialect: its syntax tree and its parsers.
pub mod ast;
pub mod parser;

use vstd::prelude::*;

use crate::ansi::ast::create_schema::{create_schema_sql, CreateSchema, SchemaNameClauseModel};
use crate::ansi::ast::create_table::{CreateTable, CreateTableModel};
use crate::ansi::ast::drop_schema::{DropSchema, DropSchemaModel};
use crate::ansi::ast::drop_table::{DropTable, DropTableModel};
use crate::common::{ascii_chars, is_ascii_text, text_of};

verus! {

/// An `ANSI` statement.
#[derive(Clone, Eq, PartialEq, Ord, PartialOrd, Hash, Debug)]
pub enum Statement {
    /// `CREATE SCHEMA` statement.
    CreateSchema(CreateSchema),
    /// `DROP SCHEMA` statement.
    DropSchema(DropSchema),
    /// `DROP TABLE` statement.
    DropTable(DropTable),
    /// `CREATE TABLE` statement.
    CreateTable(CreateTable),
}

/// What a statement is.
pub enum StatementModel {
    CreateSchema(SchemaNameClauseModel),
    DropSchema(DropSchemaModel),
    DropTable(DropTableModel),
    CreateTable(CreateTableModel),
}

impl View for Statement {
    type V = StatementModel;

    open spec fn view(&self) -> StatementModel {
        match self {
            Statement::CreateSchema(s) => StatementModel::CreateSchema(s@),
            Statement::DropSchema(s) => StatementModel::DropSchema(s@),
            Statement::DropTable(s) => StatementModel::DropTable(s@),
            Statement::CreateTable(s) => StatementModel::CreateTable(s@),
        }
    }
}

impl StatementModel {
    /// Canonical text of the statement.
    pub open spec fn sql(self) -> Seq<u8> {
        match self {
            StatementModel::CreateSchema(c) => create_schema_sql(c),
            StatementModel::DropSchema(d) => d.sql(),
            StatementModel::DropTable(d) => d.sql(),
            StatementModel::CreateTable(c) => c.sql(),
        }
    }
}

impl Statement {
    /// Appends the canonical text of the statement to `out`.
    pub fn write_sql(&self, out: &mut Vec<u8>)
        ensures
            final(out)@ == old(out)@ + self@.sql(),
    {
        match self {
            Statement::CreateSchema(s) => s.write_sql(out),
            Statement::DropSchema(s) => s.write_sql(out),
            Statement::DropTable(s) => s.write_sql(out),
            Statement::CreateTable(s) => s.write_sql(out),
        }
    }

    /// The canonical text of the statement.
    pub fn to_sql(&self) -> (r: Vec<u8>)
        ensures
            r@ == self@.sql(),
    {
        let mut out: Vec<u8> = Vec::new();
        self.write_sql(&mut out);
        assert(out@ =~= self@.sql());
        out
    }

    /// The canonical text of the statement as a string.
    pub fn to_string(&self) -> (r: String)
        ensures
            is_ascii_text(self@.sql()) ==> r@ == ascii_chars(self@.sql()),
    {
        text_of(self.to_sql())
    }
}

} // verus!
