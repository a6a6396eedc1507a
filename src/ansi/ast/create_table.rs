//! `CREATE TABLE` statement.
use vstd::prelude::*;

use crate::ansi::ast::common::{
    ColumnDefinition, ColumnDefinitionModel, TableName, TableNameModel,
};
use crate::common::tokens::{push_all, push_keyword, Keyword};
use crate::common::{comma_separated, display_comma_separated, if_some_string_preceded_by};

verus! {

/// `CREATE [<table scope>] TABLE <table name> <table contents source>`.
#[derive(Clone, Eq, PartialEq, Ord, PartialOrd, Hash, Debug)]
pub struct CreateTable {
    /// `[<table scope>]`.
    opt_table_scope: Option<TableScope>,
    /// `<table name>`.
    table_name: TableName,
    /// `<table contents source>`
    table_contents_source: TableContentsSource,
}

/// Table scope: `GLOBAL TEMPORARY | LOCAL TEMPORARY`.
#[derive(Clone, Copy, Eq, PartialEq, Ord, PartialOrd, Hash, Debug, Structural)]
pub enum TableScope {
    /// `GLOBAL TEMPORARY`.
    Global,
    /// `LOCAL TEMPORARY`.
    Local,
}

/// Table contents source: `<table element list>`.
#[derive(Clone, Eq, PartialEq, Ord, PartialOrd, Hash, Debug)]
pub enum TableContentsSource {
    /// `<table element list>`.
    TableElementList(TableElementList),
}

/// Table element list: `(<table element> [{, <table element>}...])`, never empty.
#[derive(Clone, Eq, PartialEq, Ord, PartialOrd, Hash, Debug)]
pub struct TableElementList {
    /// Element list.
    element_list: Vec<TableElement>,
}

/// Table element. Column definitions are the one kind so far; constraints
/// would be further variants.
#[derive(Clone, Eq, PartialEq, Ord, PartialOrd, Hash, Debug)]
pub enum TableElement {
    /// `<column definition>`.
    ColumnDefinition(ColumnDefinition),
}

/// What a table element is.
pub enum TableElementModel {
    ColumnDefinition(ColumnDefinitionModel),
}

/// What a table contents source is.
pub enum TableContentsSourceModel {
    TableElementList(Seq<TableElementModel>),
}

/// What a `CREATE TABLE` statement is.
pub struct CreateTableModel {
    pub table_scope: Option<TableScope>,
    pub table_name: TableNameModel,
    pub source: TableContentsSourceModel,
}

impl TableScope {
    /// The keyword phrase of the scope.
    pub open spec fn keyword(self) -> Keyword {
        match self {
            TableScope::Global => Keyword::GlobalTemporary,
            TableScope::Local => Keyword::LocalTemporary,
        }
    }

    /// Canonical text of the scope.
    pub open spec fn sql(self) -> Seq<u8> {
        self.keyword().text()
    }

    /// The canonical text of the scope.
    pub fn to_sql(self) -> (r: Vec<u8>)
        ensures
            r@ == self.sql(),
    {
        match self {
            TableScope::Global => Keyword::GlobalTemporary.bytes(),
            TableScope::Local => Keyword::LocalTemporary.bytes(),
        }
    }
}

impl View for TableElement {
    type V = TableElementModel;

    open spec fn view(&self) -> TableElementModel {
        match self {
            TableElement::ColumnDefinition(c) => TableElementModel::ColumnDefinition(c@),
        }
    }
}

impl TableElementModel {
    /// Canonical text of the element.
    pub open spec fn sql(self) -> Seq<u8> {
        match self {
            TableElementModel::ColumnDefinition(c) => c.sql(),
        }
    }
}

impl TableElement {
    /// A copy of this element.
    pub fn duplicate(&self) -> (r: Self)
        ensures
            r@ == self@,
    {
        match self {
            TableElement::ColumnDefinition(c) => TableElement::ColumnDefinition(c.duplicate()),
        }
    }

    /// The canonical text of the element.
    pub fn to_sql(&self) -> (r: Vec<u8>)
        ensures
            r@ == self@.sql(),
    {
        match self {
            TableElement::ColumnDefinition(c) => c.to_sql(),
        }
    }
}

/// Canonical text of an element list: the elements joined by `", "`, in
/// parentheses.
pub open spec fn element_list_sql(elements: Seq<TableElementModel>) -> Seq<u8> {
    seq![40u8] + comma_separated(elements.map_values(|e: TableElementModel| e.sql())) + seq![41u8]
}

impl View for TableElementList {
    type V = Seq<TableElementModel>;

    closed spec fn view(&self) -> Seq<TableElementModel> {
        self.element_list@.map_values(|e: TableElement| e@)
    }
}

impl TableElementList {
    /// A list of the given elements, in order. The list must not be empty.
    pub fn new(element_list: &[TableElement]) -> (r: Self)
        requires
            element_list@.len() > 0,
        ensures
            r@ == element_list@.map_values(|e: TableElement| e@),
            r@.len() > 0,
    {
        let mut elements: Vec<TableElement> = Vec::new();
        let mut i: usize = 0;
        while i < element_list.len()
            invariant
                0 <= i <= element_list@.len(),
                elements@.len() == i,
                forall|j: int| 0 <= j < i ==> (#[trigger] elements@[j])@ == element_list@[j]@,
            decreases element_list@.len() - i,
        {
            elements.push(element_list[i].duplicate());
            i = i + 1;
        }
        assert(elements@.map_values(|e: TableElement| e@) =~= element_list@.map_values(
            |e: TableElement| e@,
        ));
        Self { element_list: elements }
    }

    /// The elements, in order.
    pub fn element_list(&self) -> (r: &[TableElement])
        ensures
            r@.map_values(|e: TableElement| e@) == self@,
    {
        self.element_list.as_slice()
    }

    /// A copy of this list.
    pub fn duplicate(&self) -> (r: Self)
        ensures
            r@ == self@,
    {
        let mut elements: Vec<TableElement> = Vec::new();
        let mut i: usize = 0;
        while i < self.element_list.len()
            invariant
                0 <= i <= self.element_list@.len(),
                elements@.len() == i,
                forall|j: int| 0 <= j < i ==> (#[trigger] elements@[j])@ == self.element_list@[j]@,
            decreases self.element_list@.len() - i,
        {
            elements.push(self.element_list[i].duplicate());
            i = i + 1;
        }
        assert(elements@.map_values(|e: TableElement| e@) =~= self@);
        Self { element_list: elements }
    }

    /// Appends the canonical text to `out`: the elements joined by `", "`,
    /// in parentheses.
    pub fn write_sql(&self, out: &mut Vec<u8>)
        ensures
            final(out)@ == old(out)@ + element_list_sql(self@),
    {
        let mut parts: Vec<Vec<u8>> = Vec::new();
        let mut i: usize = 0;
        while i < self.element_list.len()
            invariant
                0 <= i <= self.element_list@.len(),
                parts@.len() == i,
                forall|j: int|
                    0 <= j < i ==> (#[trigger] parts@[j])@ == self.element_list@[j]@.sql(),
            decreases self.element_list@.len() - i,
        {
            parts.push(self.element_list[i].to_sql());
            i = i + 1;
        }
        let ghost texts = self@.map_values(|e: TableElementModel| e.sql());
        assert(parts@.map_values(|v: Vec<u8>| v@) =~= texts);
        let joined = display_comma_separated(parts.as_slice());
        out.push(40u8);
        push_all(out, joined.as_slice());
        out.push(41u8);
        assert(out@ =~= old(out)@ + element_list_sql(self@));
    }
}

impl View for TableContentsSource {
    type V = TableContentsSourceModel;

    open spec fn view(&self) -> TableContentsSourceModel {
        match self {
            TableContentsSource::TableElementList(l) => TableContentsSourceModel::TableElementList(
                l@,
            ),
        }
    }
}

impl TableContentsSourceModel {
    /// Canonical text of the source.
    pub open spec fn sql(self) -> Seq<u8> {
        match self {
            TableContentsSourceModel::TableElementList(l) => element_list_sql(l),
        }
    }
}

impl TableContentsSource {
    /// A copy of this source.
    pub fn duplicate(&self) -> (r: Self)
        ensures
            r@ == self@,
    {
        match self {
            TableContentsSource::TableElementList(l) => TableContentsSource::TableElementList(
                l.duplicate(),
            ),
        }
    }

    /// Appends the canonical text to `out`.
    pub fn write_sql(&self, out: &mut Vec<u8>)
        ensures
            final(out)@ == old(out)@ + self@.sql(),
    {
        match self {
            TableContentsSource::TableElementList(l) => l.write_sql(out),
        }
    }
}

impl View for CreateTable {
    type V = CreateTableModel;

    closed spec fn view(&self) -> CreateTableModel {
        CreateTableModel {
            table_scope: self.opt_table_scope,
            table_name: self.table_name@,
            source: self.table_contents_source@,
        }
    }
}

impl CreateTableModel {
    /// Canonical text:
    /// `CREATE[ <table scope>] TABLE <table name> <table contents source>`.
    pub open spec fn sql(self) -> Seq<u8> {
        Keyword::Create.text() + match self.table_scope {
            Some(t) => seq![32u8] + t.sql(),
            None => Seq::empty(),
        } + seq![32u8] + Keyword::Table.text() + seq![32u8] + self.table_name.sql() + seq![32u8]
            + self.source.sql()
    }
}

impl CreateTable {
    /// A `CREATE TABLE` statement without table scope.
    pub fn new(table_name: &TableName, table_contents_source: &TableContentsSource) -> (r: Self)
        ensures
            r@ == (CreateTableModel {
                table_scope: None,
                table_name: table_name@,
                source: table_contents_source@,
            }),
    {
        Self {
            opt_table_scope: None,
            table_name: table_name.duplicate(),
            table_contents_source: table_contents_source.duplicate(),
        }
    }

    /// The same statement with the given table scope.
    pub fn with_table_scope(self, table_scope: TableScope) -> (r: Self)
        ensures
            r@ == (CreateTableModel { table_scope: Some(table_scope), ..self@ }),
    {
        Self { opt_table_scope: Some(table_scope), ..self }
    }

    /// The table scope, if given.
    pub fn opt_table_scope(&self) -> (r: Option<TableScope>)
        ensures
            r == self@.table_scope,
    {
        self.opt_table_scope
    }

    /// The table name.
    pub fn table_name(&self) -> (r: &TableName)
        ensures
            r@ == self@.table_name,
    {
        &self.table_name
    }

    /// The table contents source.
    pub fn table_contents_source(&self) -> (r: &TableContentsSource)
        ensures
            r@ == self@.source,
    {
        &self.table_contents_source
    }

    /// Appends the canonical text to `out`.
    pub fn write_sql(&self, out: &mut Vec<u8>)
        ensures
            final(out)@ == old(out)@ + self@.sql(),
    {
        let scope = match self.opt_table_scope {
            Some(t) => Some(t.to_sql()),
            None => None,
        };
        let space: [u8; 1] = [32u8];
        let scope_text = if_some_string_preceded_by(scope, &space);
        push_keyword(out, Keyword::Create);
        push_all(out, scope_text.as_slice());
        out.push(32u8);
        push_keyword(out, Keyword::Table);
        out.push(32u8);
        self.table_name.write_sql(out);
        out.push(32u8);
        self.table_contents_source.write_sql(out);
        assert(out@ =~= old(out)@ + self@.sql());
    }
}

} // verus!
