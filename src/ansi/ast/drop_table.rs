//! `DROP TABLE` statement.
use vstd::prelude::*;

use crate::ansi::ast::common::{DropBehavior, TableName, TableNameModel};
use crate::common::tokens::{push_keyword, Keyword};

verus! {

/// `DROP TABLE <table name> <drop behavior>` statement.
#[derive(Clone, Eq, PartialEq, Ord, PartialOrd, Hash, Debug)]
pub struct DropTable {
    /// `<table name>`
    table_name: TableName,
    /// `<drop behavior>`
    drop_behavior: DropBehavior,
}

/// What a `DROP TABLE` statement is.
pub struct DropTableModel {
    pub table_name: TableNameModel,
    pub drop_behavior: DropBehavior,
}

impl View for DropTable {
    type V = DropTableModel;

    closed spec fn view(&self) -> DropTableModel {
        DropTableModel { table_name: self.table_name@, drop_behavior: self.drop_behavior }
    }
}

impl DropTableModel {
    /// Canonical text: `DROP TABLE <table name> <drop behavior>`.
    pub open spec fn sql(self) -> Seq<u8> {
        Keyword::Drop.text() + seq![32u8] + Keyword::Table.text() + seq![32u8]
            + self.table_name.sql() + seq![32u8] + self.drop_behavior.sql()
    }
}

impl DropTable {
    /// A `DROP TABLE` statement.
    pub fn new(table_name: &TableName, drop_behavior: DropBehavior) -> (r: Self)
        ensures
            r@ == (DropTableModel { table_name: table_name@, drop_behavior }),
    {
        Self { table_name: table_name.duplicate(), drop_behavior }
    }

    /// The table name.
    pub fn table_name(&self) -> (r: &TableName)
        ensures
            r@ == self@.table_name,
    {
        &self.table_name
    }

    /// The drop behaviour.
    pub fn drop_behavior(&self) -> (r: DropBehavior)
        ensures
            r == self@.drop_behavior,
    {
        self.drop_behavior
    }

    /// Appends the canonical text to `out`.
    pub fn write_sql(&self, out: &mut Vec<u8>)
        ensures
            final(out)@ == old(out)@ + self@.sql(),
    {
        push_keyword(out, Keyword::Drop);
        out.push(32u8);
        push_keyword(out, Keyword::Table);
        out.push(32u8);
        self.table_name.write_sql(out);
        out.push(32u8);
        self.drop_behavior.write_sql(out);
        assert(out@ =~= old(out)@ + self@.sql());
    }
}

} // verus!
