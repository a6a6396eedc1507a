//! Qualified names, column definitions and the keyword enumerations shared
//! by the ANSI statements.
use vstd::prelude::*;

use crate::ansi::ast::data_types::DataType;
use crate::common::tokens::{push_keyword, Keyword};
use crate::common::{Ident, IdentModel};

verus! {

/// Qualified or unqualified identifier representing a schema:
/// `[<catalog name>.]<unqualified schema name>`.
#[derive(Clone, Eq, PartialEq, Ord, PartialOrd, Hash, Debug)]
pub struct SchemaName {
    /// Schema unqualified name.
    name: Ident,
    /// Optional catalog qualifier.
    opt_catalog_name: Option<Ident>,
}

/// What a schema name is.
pub struct SchemaNameModel {
    pub name: IdentModel,
    pub catalog: Option<IdentModel>,
}

/// Table name with possibly local or schema qualification:
/// `[<local or schema qualifier>.]<identifier>`.
#[derive(Clone, Eq, PartialEq, Ord, PartialOrd, Hash, Debug)]
pub struct TableName {
    name: Ident,
    opt_local_or_schema: Option<LocalOrSchemaQualifier>,
}

/// What a table name is.
pub struct TableNameModel {
    pub name: IdentModel,
    pub qualifier: Option<QualifierModel>,
}

/// Schema name or local qualifier: `<schema name> | <local qualifier>`.
#[derive(Clone, Eq, PartialEq, Ord, PartialOrd, Hash, Debug)]
pub enum LocalOrSchemaQualifier {
    Schema(SchemaName),
    LocalQualifier(LocalQualifier),
}

/// What a local or schema qualifier is.
pub enum QualifierModel {
    Schema(SchemaNameModel),
    LocalQualifier(LocalQualifier),
}

/// Local qualifier: `MODULE`.
#[derive(Clone, Copy, Eq, PartialEq, Ord, PartialOrd, Hash, Debug, Structural)]
pub enum LocalQualifier {
    /// `MODULE`
    Module,
}

/// Column definition: `<column name> [<data type>]`.
#[derive(Clone, Eq, PartialEq, Ord, PartialOrd, Hash, Debug)]
pub struct ColumnDefinition {
    /// `<column name>`
    column_name: Ident,
    /// `[<data type>]`
    opt_data_type: Option<DataType>,
}

/// What a column definition is.
pub struct ColumnDefinitionModel {
    pub column_name: IdentModel,
    pub data_type: Option<DataType>,
}

/// Possible behaviours when dropping a structure.
#[derive(Copy, Clone, Eq, PartialEq, Ord, PartialOrd, Hash, Debug, Structural)]
pub enum DropBehavior {
    /// `CASCADE`: all dependencies are dropped.
    Cascade,
    /// `RESTRICT`: the drop is restricted to the specific structure.
    Restrict,
}

/// Referential action: `CASCADE | SET NULL | SET DEFAULT | RESTRICT | NO ACTION`.
#[derive(Copy, Clone, Eq, PartialEq, Ord, PartialOrd, Hash, Debug, Structural)]
pub enum ReferentialAction {
    /// `CASCADE`.
    Cascade,
    /// `SET NULL`.
    SetNull,
    /// `SET DEFAULT`.
    SetDefault,
    /// `RESTRICT`.
    Restrict,
    /// `NO ACTION`.
    NoAction,
}

/// Delete rule: `ON DELETE <referential action>`.
#[derive(Copy, Clone, Eq, PartialEq, Ord, PartialOrd, Hash, Debug, Structural)]
pub struct DeleteRule {
    referential_action: ReferentialAction,
}

/// Update rule: `ON UPDATE <referential action>`.
#[derive(Copy, Clone, Eq, PartialEq, Ord, PartialOrd, Hash, Debug, Structural)]
pub struct UpdateRule {
    referential_action: ReferentialAction,
}

/// Referential triggered action:
/// `<update rule> [<delete rule>] | <delete rule> [<update rule>]`.
#[derive(Copy, Clone, Eq, PartialEq, Ord, PartialOrd, Hash, Debug, Structural)]
pub enum ReferentialTriggeredAction {
    /// `<update rule> [<delete rule>]`.
    UpdateFirst(UpdateRule, Option<DeleteRule>),
    /// `<delete rule> [<update rule>]`.
    DeleteFirst(DeleteRule, Option<UpdateRule>),
}

/// Referential match type: `FULL | PARTIAL | SIMPLE`.
#[derive(Copy, Clone, Eq, PartialEq, Ord, PartialOrd, Hash, Debug, Structural)]
pub enum MatchType {
    /// `FULL`.
    Full,
    /// `PARTIAL`.
    Partial,
    /// `SIMPLE`.
    Simple,
}

/// Column name list: `<column name> [{, <column name>}...]`.
#[derive(Clone, Eq, PartialEq, Ord, PartialOrd, Hash, Debug)]
pub struct ColumnNameList {
    names: Vec<Ident>,
}

/// Referenced period specification: `PERIOD <period name>`.
#[derive(Clone, Eq, PartialEq, Ord, PartialOrd, Hash, Debug)]
pub struct ReferencedPeriodSpecification {
    period_name: Ident,
}

impl View for LocalQualifier {
    type V = LocalQualifier;

    open spec fn view(&self) -> LocalQualifier {
        *self
    }
}

impl View for DropBehavior {
    type V = DropBehavior;

    open spec fn view(&self) -> DropBehavior {
        *self
    }
}

impl View for ReferentialAction {
    type V = ReferentialAction;

    open spec fn view(&self) -> ReferentialAction {
        *self
    }
}

impl View for DeleteRule {
    type V = DeleteRule;

    open spec fn view(&self) -> DeleteRule {
        *self
    }
}

impl View for UpdateRule {
    type V = UpdateRule;

    open spec fn view(&self) -> UpdateRule {
        *self
    }
}

impl View for ReferentialTriggeredAction {
    type V = ReferentialTriggeredAction;

    open spec fn view(&self) -> ReferentialTriggeredAction {
        *self
    }
}

impl View for MatchType {
    type V = MatchType;

    open spec fn view(&self) -> MatchType {
        *self
    }
}

impl View for SchemaName {
    type V = SchemaNameModel;

    closed spec fn view(&self) -> SchemaNameModel {
        SchemaNameModel {
            name: self.name@,
            catalog: match self.opt_catalog_name {
                Some(c) => Some(c@),
                None => None,
            },
        }
    }
}

impl SchemaNameModel {
    /// Canonical text: `[catalog.]name`.
    pub open spec fn sql(self) -> Seq<u8> {
        match self.catalog {
            Some(c) => c.sql() + seq![46u8] + self.name.sql(),
            None => self.name.sql(),
        }
    }
}

impl SchemaName {
    /// A schema name, qualified by a catalog where one is given.
    pub fn new(opt_catalog_name: Option<&Ident>, name: &Ident) -> (r: Self)
        ensures
            r@ == (SchemaNameModel {
                name: name@,
                catalog: match opt_catalog_name {
                    Some(c) => Some(c@),
                    None => None,
                },
            }),
    {
        let opt_catalog_name = match opt_catalog_name {
            Some(c) => Some(c.duplicate()),
            None => None,
        };
        Self { name: name.duplicate(), opt_catalog_name }
    }

    /// The schema identifier.
    pub fn name(&self) -> (r: &Ident)
        ensures
            r@ == self@.name,
    {
        &self.name
    }

    /// The catalog identifier, if the name is qualified.
    pub fn opt_catalog_name(&self) -> (r: Option<&Ident>)
        ensures
            match r {
                Some(c) => self@.catalog == Some(c@),
                None => self@.catalog is None,
            },
    {
        match &self.opt_catalog_name {
            Some(c) => Some(c),
            None => None,
        }
    }

    /// A copy of this name.
    pub fn duplicate(&self) -> (r: Self)
        ensures
            r@ == self@,
    {
        Self::new(self.opt_catalog_name(), &self.name)
    }

    /// Appends the canonical text to `out`.
    pub fn write_sql(&self, out: &mut Vec<u8>)
        ensures
            final(out)@ == old(out)@ + self@.sql(),
    {
        if let Some(c) = &self.opt_catalog_name {
            c.write_sql(out);
            out.push(46u8);
        }
        self.name.write_sql(out);
        assert(out@ =~= old(out)@ + self@.sql());
    }
}

impl View for LocalOrSchemaQualifier {
    type V = QualifierModel;

    open spec fn view(&self) -> QualifierModel {
        match self {
            LocalOrSchemaQualifier::Schema(s) => QualifierModel::Schema(s@),
            LocalOrSchemaQualifier::LocalQualifier(l) => QualifierModel::LocalQualifier(*l),
        }
    }
}

impl QualifierModel {
    /// Canonical text: the schema name, or `MODULE`.
    pub open spec fn sql(self) -> Seq<u8> {
        match self {
            QualifierModel::Schema(s) => s.sql(),
            QualifierModel::LocalQualifier(_) => Keyword::Module.text(),
        }
    }
}

impl LocalOrSchemaQualifier {
    /// A copy of this qualifier.
    pub fn duplicate(&self) -> (r: Self)
        ensures
            r@ == self@,
    {
        match self {
            LocalOrSchemaQualifier::Schema(s) => LocalOrSchemaQualifier::Schema(s.duplicate()),
            LocalOrSchemaQualifier::LocalQualifier(l) => LocalOrSchemaQualifier::LocalQualifier(
                *l,
            ),
        }
    }

    /// Appends the canonical text to `out`.
    pub fn write_sql(&self, out: &mut Vec<u8>)
        ensures
            final(out)@ == old(out)@ + self@.sql(),
    {
        match self {
            LocalOrSchemaQualifier::Schema(s) => s.write_sql(out),
            LocalOrSchemaQualifier::LocalQualifier(_) => push_keyword(out, Keyword::Module),
        }
    }
}

impl View for TableName {
    type V = TableNameModel;

    closed spec fn view(&self) -> TableNameModel {
        TableNameModel {
            name: self.name@,
            qualifier: match self.opt_local_or_schema {
                Some(q) => Some(q@),
                None => None,
            },
        }
    }
}

impl TableNameModel {
    /// Canonical text: `[qualifier.]name`.
    pub open spec fn sql(self) -> Seq<u8> {
        match self.qualifier {
            Some(q) => q.sql() + seq![46u8] + self.name.sql(),
            None => self.name.sql(),
        }
    }
}

impl TableName {
    /// An unqualified table name.
    pub fn new(name: &Ident) -> (r: Self)
        ensures
            r@ == (TableNameModel { name: name@, qualifier: None }),
    {
        Self { name: name.duplicate(), opt_local_or_schema: None }
    }

    /// The same name, qualified by `local_or_schema`.
    pub fn with_local_or_schema(self, local_or_schema: LocalOrSchemaQualifier) -> (r: Self)
        ensures
            r@ == (TableNameModel { qualifier: Some(local_or_schema@), ..self@ }),
    {
        Self { opt_local_or_schema: Some(local_or_schema), ..self }
    }

    /// The table identifier.
    pub fn name(&self) -> (r: &Ident)
        ensures
            r@ == self@.name,
    {
        &self.name
    }

    /// The qualifier, if any.
    pub fn opt_local_or_schema(&self) -> (r: Option<&LocalOrSchemaQualifier>)
        ensures
            match r {
                Some(q) => self@.qualifier == Some(q@),
                None => self@.qualifier is None,
            },
    {
        match &self.opt_local_or_schema {
            Some(q) => Some(q),
            None => None,
        }
    }

    /// A copy of this name.
    pub fn duplicate(&self) -> (r: Self)
        ensures
            r@ == self@,
    {
        let opt_local_or_schema = match &self.opt_local_or_schema {
            Some(q) => Some(q.duplicate()),
            None => None,
        };
        Self { name: self.name.duplicate(), opt_local_or_schema }
    }

    /// Appends the canonical text to `out`.
    pub fn write_sql(&self, out: &mut Vec<u8>)
        ensures
            final(out)@ == old(out)@ + self@.sql(),
    {
        if let Some(q) = &self.opt_local_or_schema {
            q.write_sql(out);
            out.push(46u8);
        }
        self.name.write_sql(out);
        assert(out@ =~= old(out)@ + self@.sql());
    }
}

impl View for ColumnDefinition {
    type V = ColumnDefinitionModel;

    closed spec fn view(&self) -> ColumnDefinitionModel {
        ColumnDefinitionModel { column_name: self.column_name@, data_type: self.opt_data_type }
    }
}

impl ColumnDefinitionModel {
    /// Canonical text: the column name, then the data type after a space.
    pub open spec fn sql(self) -> Seq<u8> {
        match self.data_type {
            Some(t) => self.column_name.sql() + seq![32u8] + t.sql(),
            None => self.column_name.sql(),
        }
    }
}

impl ColumnDefinition {
    /// A column without data type.
    pub fn new(column_name: &Ident) -> (r: Self)
        ensures
            r@ == (ColumnDefinitionModel { column_name: column_name@, data_type: None }),
    {
        Self { column_name: column_name.duplicate(), opt_data_type: None }
    }

    /// The same column with the given data type.
    pub fn with_data_type(self, data_type: DataType) -> (r: Self)
        ensures
            r@ == (ColumnDefinitionModel { data_type: Some(data_type), ..self@ }),
    {
        Self { opt_data_type: Some(data_type), ..self }
    }

    /// The column name.
    pub fn column_name(&self) -> (r: &Ident)
        ensures
            r@ == self@.column_name,
    {
        &self.column_name
    }

    /// The data type, if given.
    pub fn opt_data_type(&self) -> (r: Option<DataType>)
        ensures
            r == self@.data_type,
    {
        self.opt_data_type
    }

    /// A copy of this column definition.
    pub fn duplicate(&self) -> (r: Self)
        ensures
            r@ == self@,
    {
        Self { column_name: self.column_name.duplicate(), opt_data_type: self.opt_data_type }
    }

    /// Appends the canonical text to `out`.
    pub fn write_sql(&self, out: &mut Vec<u8>)
        ensures
            final(out)@ == old(out)@ + self@.sql(),
    {
        self.column_name.write_sql(out);
        if let Some(t) = self.opt_data_type {
            out.push(32u8);
            t.write_sql(out);
        }
        assert(out@ =~= old(out)@ + self@.sql());
    }

    /// The canonical text.
    pub fn to_sql(&self) -> (r: Vec<u8>)
        ensures
            r@ == self@.sql(),
    {
        let mut out: Vec<u8> = Vec::new();
        self.write_sql(&mut out);
        assert(out@ =~= self@.sql());
        out
    }
}

impl DropBehavior {
    /// The keyword of the behaviour.
    pub open spec fn keyword(self) -> Keyword {
        match self {
            DropBehavior::Cascade => Keyword::Cascade,
            DropBehavior::Restrict => Keyword::Restrict,
        }
    }

    /// Canonical text of the behaviour.
    pub open spec fn sql(self) -> Seq<u8> {
        self.keyword().text()
    }

    /// Appends the canonical text to `out`.
    pub fn write_sql(self, out: &mut Vec<u8>)
        ensures
            final(out)@ == old(out)@ + self.sql(),
    {
        match self {
            DropBehavior::Cascade => push_keyword(out, Keyword::Cascade),
            DropBehavior::Restrict => push_keyword(out, Keyword::Restrict),
        }
    }
}

impl ReferentialAction {
    /// The keyword of the action.
    pub open spec fn keyword(self) -> Keyword {
        match self {
            ReferentialAction::Cascade => Keyword::Cascade,
            ReferentialAction::SetNull => Keyword::SetNull,
            ReferentialAction::SetDefault => Keyword::SetDefault,
            ReferentialAction::Restrict => Keyword::Restrict,
            ReferentialAction::NoAction => Keyword::NoAction,
        }
    }

    /// Canonical text of the action.
    pub open spec fn sql(self) -> Seq<u8> {
        self.keyword().text()
    }

    /// Appends the canonical text to `out`.
    pub fn write_sql(self, out: &mut Vec<u8>)
        ensures
            final(out)@ == old(out)@ + self.sql(),
    {
        match self {
            ReferentialAction::Cascade => push_keyword(out, Keyword::Cascade),
            ReferentialAction::SetNull => push_keyword(out, Keyword::SetNull),
            ReferentialAction::SetDefault => push_keyword(out, Keyword::SetDefault),
            ReferentialAction::Restrict => push_keyword(out, Keyword::Restrict),
            ReferentialAction::NoAction => push_keyword(out, Keyword::NoAction),
        }
    }
}

impl DeleteRule {
    /// The rule with the given action.
    pub closed spec fn new_spec(referential_action: ReferentialAction) -> DeleteRule {
        DeleteRule { referential_action }
    }

    /// `ON DELETE` with the given action.
    pub fn new(referential_action: ReferentialAction) -> (r: Self)
        ensures
            r.action() == referential_action,
            r == Self::new_spec(referential_action),
    {
        Self { referential_action }
    }

    /// The action of the rule.
    pub closed spec fn action(self) -> ReferentialAction {
        self.referential_action
    }

    /// The action of the rule.
    pub fn referential_action(&self) -> (r: ReferentialAction)
        ensures
            r == self.action(),
    {
        self.referential_action
    }

    /// Canonical text: `ON DELETE <action>`.
    pub open spec fn sql(self) -> Seq<u8> {
        Keyword::OnDelete.text() + seq![32u8] + self.action().sql()
    }

    /// Appends the canonical text to `out`.
    pub fn write_sql(self, out: &mut Vec<u8>)
        ensures
            final(out)@ == old(out)@ + self.sql(),
    {
        push_keyword(out, Keyword::OnDelete);
        out.push(32u8);
        self.referential_action.write_sql(out);
        assert(out@ =~= old(out)@ + self.sql());
    }
}

impl UpdateRule {
    /// The rule with the given action.
    pub closed spec fn new_spec(referential_action: ReferentialAction) -> UpdateRule {
        UpdateRule { referential_action }
    }

    /// `ON UPDATE` with the given action.
    pub fn new(referential_action: ReferentialAction) -> (r: Self)
        ensures
            r.action() == referential_action,
            r == Self::new_spec(referential_action),
    {
        Self { referential_action }
    }

    /// The action of the rule.
    pub closed spec fn action(self) -> ReferentialAction {
        self.referential_action
    }

    /// The action of the rule.
    pub fn referential_action(&self) -> (r: ReferentialAction)
        ensures
            r == self.action(),
    {
        self.referential_action
    }

    /// Canonical text: `ON UPDATE <action>`.
    pub open spec fn sql(self) -> Seq<u8> {
        Keyword::OnUpdate.text() + seq![32u8] + self.action().sql()
    }

    /// Appends the canonical text to `out`.
    pub fn write_sql(self, out: &mut Vec<u8>)
        ensures
            final(out)@ == old(out)@ + self.sql(),
    {
        push_keyword(out, Keyword::OnUpdate);
        out.push(32u8);
        self.referential_action.write_sql(out);
        assert(out@ =~= old(out)@ + self.sql());
    }
}

impl ReferentialTriggeredAction {
    /// Canonical text: the first rule, then the second after a space.
    pub open spec fn sql(self) -> Seq<u8> {
        match self {
            ReferentialTriggeredAction::UpdateFirst(u, d) => u.sql() + match d {
                Some(d) => seq![32u8] + d.sql(),
                None => Seq::empty(),
            },
            ReferentialTriggeredAction::DeleteFirst(d, u) => d.sql() + match u {
                Some(u) => seq![32u8] + u.sql(),
                None => Seq::empty(),
            },
        }
    }

    /// Appends the canonical text to `out`.
    pub fn write_sql(self, out: &mut Vec<u8>)
        ensures
            final(out)@ == old(out)@ + self.sql(),
    {
        match self {
            ReferentialTriggeredAction::UpdateFirst(u, d) => {
                u.write_sql(out);
                if let Some(d) = d {
                    out.push(32u8);
                    d.write_sql(out);
                }
            },
            ReferentialTriggeredAction::DeleteFirst(d, u) => {
                d.write_sql(out);
                if let Some(u) = u {
                    out.push(32u8);
                    u.write_sql(out);
                }
            },
        }
        assert(out@ =~= old(out)@ + self.sql());
    }
}

impl MatchType {
    /// The keyword of the match type.
    pub open spec fn keyword(self) -> Keyword {
        match self {
            MatchType::Full => Keyword::Full,
            MatchType::Partial => Keyword::Partial,
            MatchType::Simple => Keyword::Simple,
        }
    }

    /// Canonical text of the match type.
    pub open spec fn sql(self) -> Seq<u8> {
        self.keyword().text()
    }

    /// Appends the canonical text to `out`.
    pub fn write_sql(self, out: &mut Vec<u8>)
        ensures
            final(out)@ == old(out)@ + self.sql(),
    {
        match self {
            MatchType::Full => push_keyword(out, Keyword::Full),
            MatchType::Partial => push_keyword(out, Keyword::Partial),
            MatchType::Simple => push_keyword(out, Keyword::Simple),
        }
    }
}

/// The identifiers joined by `", "`.
pub open spec fn names_sql(names: Seq<IdentModel>) -> Seq<u8>
    decreases names.len(),
{
    if names.len() == 0 {
        Seq::empty()
    } else if names.len() == 1 {
        names[0].sql()
    } else {
        names_sql(names.drop_last()) + seq![44u8, 32u8] + names.last().sql()
    }
}

impl View for ColumnNameList {
    type V = Seq<IdentModel>;

    closed spec fn view(&self) -> Seq<IdentModel> {
        self.names@.map_values(|i: Ident| i@)
    }
}

impl ColumnNameList {
    /// A list of the given names, in order.
    pub fn new(list: &[Ident]) -> (r: Self)
        ensures
            r@ == list@.map_values(|i: Ident| i@),
    {
        let mut names: Vec<Ident> = Vec::new();
        let mut i: usize = 0;
        while i < list.len()
            invariant
                0 <= i <= list@.len(),
                names@.len() == i,
                forall|j: int| 0 <= j < i ==> (#[trigger] names@[j])@ == list@[j]@,
            decreases list@.len() - i,
        {
            names.push(list[i].duplicate());
            i = i + 1;
        }
        assert(names@.map_values(|x: Ident| x@) =~= list@.map_values(|x: Ident| x@));
        Self { names }
    }

    /// The names, in order.
    pub fn names(&self) -> (r: &[Ident])
        ensures
            r@.map_values(|i: Ident| i@) == self@,
    {
        self.names.as_slice()
    }

    /// Appends the canonical text to `out`: the names joined by `", "`.
    pub fn write_sql(&self, out: &mut Vec<u8>)
        ensures
            final(out)@ == old(out)@ + names_sql(self@),
    {
        let ghost start = out@;
        let mut i: usize = 0;
        while i < self.names.len()
            invariant
                0 <= i <= self.names@.len(),
                start == old(out)@,
                out@ == start + names_sql(self@.subrange(0, i as int)),
            decreases self.names@.len() - i,
        {
            if i > 0 {
                out.push(44u8);
                out.push(32u8);
            }
            self.names[i].write_sql(out);
            proof {
                let next = self@.subrange(0, i + 1);
                assert(next.drop_last() =~= self@.subrange(0, i as int));
                assert(next.last() == self.names@[i as int]@);
                if i == 0 {
                    assert(out@ =~= start + names_sql(next));
                } else {
                    assert(out@ =~= start + names_sql(next));
                }
            }
            i = i + 1;
        }
        assert(self@.subrange(0, self.names@.len() as int) =~= self@);
    }
}

impl View for ReferencedPeriodSpecification {
    type V = IdentModel;

    closed spec fn view(&self) -> IdentModel {
        self.period_name@
    }
}

impl ReferencedPeriodSpecification {
    /// `PERIOD` with the given period name.
    pub fn new(period_name: &Ident) -> (r: Self)
        ensures
            r@ == period_name@,
    {
        Self { period_name: period_name.duplicate() }
    }

    /// The period name.
    pub fn period_name(&self) -> (r: &Ident)
        ensures
            r@ == self@,
    {
        &self.period_name
    }

    /// Appends the canonical text to `out`: `PERIOD <name>`.
    pub fn write_sql(&self, out: &mut Vec<u8>)
        ensures
            final(out)@ == old(out)@ + Keyword::Period.text() + seq![32u8] + self@.sql(),
    {
        push_keyword(out, Keyword::Period);
        out.push(32u8);
        self.period_name.write_sql(out);
        assert(out@ =~= old(out)@ + Keyword::Period.text() + seq![32u8] + self@.sql());
    }
}

} // verus!
