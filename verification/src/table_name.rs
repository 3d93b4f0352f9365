use vstd::prelude::*;

use crate::backend::TableId;

verus! {

/// The three parts of a table's name, as text.
pub struct QualifiedName {
    pub catalog: Seq<char>,
    pub schema: Seq<char>,
    pub table: Seq<char>,
}

impl QualifiedName {
    /// The parts in order, with a dot between them.
    pub open spec fn full_name(self) -> Seq<char> {
        self.catalog + seq!['.'] + self.schema + seq!['.'] + self.table
    }
}

/// A borrowed table name.
#[derive(Clone, Copy, Debug)]
pub struct TableReference<'a> {
    pub catalog: &'a str,
    pub schema: &'a str,
    pub table: &'a str,
}

impl<'a> View for TableReference<'a> {
    type V = QualifiedName;

    open spec fn view(&self) -> QualifiedName {
        QualifiedName { catalog: self.catalog@, schema: self.schema@, table: self.table@ }
    }
}

impl<'a> TableReference<'a> {
    /// The full name of the table.
    pub fn to_string(&self) -> (full_name: String)
        ensures
            full_name@ == self@.full_name(),
            full_name@ == self.catalog@ + seq!['.'] + self.schema@ + seq!['.'] + self.table@,
    {
        proof {
            reveal_strlit(".");
        }
        assert("."@ =~= seq!['.']);
        self.catalog.to_owned().concat(".").concat(self.schema).concat(".").concat(self.table)
    }
}

/// The key under which the metadata store keeps the id of a named table.
#[derive(Clone, Debug, PartialEq, Eq, Hash)]
pub struct TableNameKey {
    pub catalog: String,
    pub schema: String,
    pub table: String,
}

impl View for TableNameKey {
    type V = QualifiedName;

    open spec fn view(&self) -> QualifiedName {
        QualifiedName { catalog: self.catalog@, schema: self.schema@, table: self.table@ }
    }
}

impl TableNameKey {
    /// The key of the table with these name parts.
    pub fn new(catalog: &str, schema: &str, table: &str) -> (key: Self)
        ensures
            key@ == (QualifiedName { catalog: catalog@, schema: schema@, table: table@ }),
            key.catalog@ == catalog@,
            key.schema@ == schema@,
            key.table@ == table@,
    {
        TableNameKey {
            catalog: catalog.to_owned(),
            schema: schema.to_owned(),
            table: table.to_owned(),
        }
    }
}

/// What the metadata store keeps under a [`TableNameKey`].
#[derive(Clone, Copy, Debug, PartialEq, Eq, Structural)]
pub struct TableNameValue {
    pub table_id: TableId,
}

impl TableNameValue {
    /// The id of the named table.
    pub fn table_id(&self) -> (table_id: TableId)
        ensures
            table_id == self.table_id,
    {
        self.table_id
    }
}

} // verus!
