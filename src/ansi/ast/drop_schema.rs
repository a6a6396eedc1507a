//! `DROP SCHEMA` statement.
use vstd::prelude::*;

use crate::ansi::ast::common::{DropBehavior, SchemaName, SchemaNameModel};
use crate::common::tokens::{push_keyword, Keyword};

verus! {

/// `DROP SCHEMA <schema name> <drop behavior>` statement.
#[derive(Clone, Eq, PartialEq, Ord, PartialOrd, Hash, Debug)]
pub struct DropSchema {
    /// `<schema name>`
    schema_name: SchemaName,
    /// `<drop behavior>`
    drop_behavior: DropBehavior,
}

/// What a `DROP SCHEMA` statement is.
pub struct DropSchemaModel {
    pub schema_name: SchemaNameModel,
    pub drop_behavior: DropBehavior,
}

impl View for DropSchema {
    type V = DropSchemaModel;

    closed spec fn view(&self) -> DropSchemaModel {
        DropSchemaModel { schema_name: self.schema_name@, drop_behavior: self.drop_behavior }
    }
}

impl DropSchemaModel {
    /// Canonical text: `DROP SCHEMA <schema name> <drop behavior>;`.
    pub open spec fn sql(self) -> Seq<u8> {
        Keyword::Drop.text() + seq![32u8] + Keyword::Schema.text() + seq![32u8]
            + self.schema_name.sql() + seq![32u8] + self.drop_behavior.sql() + seq![59u8]
    }
}

impl DropSchema {
    /// A `DROP SCHEMA` statement.
    pub fn new(schema_name: &SchemaName, drop_behavior: DropBehavior) -> (r: Self)
        ensures
            r@ == (DropSchemaModel { schema_name: schema_name@, drop_behavior }),
    {
        Self { schema_name: schema_name.duplicate(), drop_behavior }
    }

    /// The schema name.
    pub fn schema_name(&self) -> (r: &SchemaName)
        ensures
            r@ == self@.schema_name,
    {
        &self.schema_name
    }

    /// The drop behaviour.
    pub fn drop_behavior(&self) -> (r: DropBehavior)
        ensures
            r == self@.drop_behavior,
    {
        self.drop_behavior
    }

    /// Appends the canonical text to `out`.
    pub fn write_sql(&self, out: &mut Vec<u8>)
        ensures
            final(out)@ == old(out)@ + self@.sql(),
    {
        push_keyword(out, Keyword::Drop);
        out.push(32u8);
        push_keyword(out, Keyword::Schema);
        out.push(32u8);
        self.schema_name.write_sql(out);
        out.push(32u8);
        self.drop_behavior.write_sql(out);
        out.push(59u8);
        assert(out@ =~= old(out)@ + self@.sql());
    }
}

} // verus!
