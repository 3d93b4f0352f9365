use vstd::prelude::*;

use crate::backend::{Backend, TableId};
use crate::table_name::{QualifiedName, TableReference};

verus! {

/// Truncate a table.
#[derive(Clone, Debug)]
pub struct TruncateTableTask {
    pub catalog: String,
    pub schema: String,
    pub table: String,
    pub table_id: TableId,
}

impl TruncateTableTask {
    /// The name of the table, as text.
    pub open spec fn name(self) -> QualifiedName {
        QualifiedName { catalog: self.catalog@, schema: self.schema@, table: self.table@ }
    }

    /// The name of the table.
    pub fn table_ref(&self) -> (table_ref: TableReference<'_>)
        ensures
            table_ref@ == self.name(),
            table_ref.catalog@ == self.catalog@,
            table_ref.schema@ == self.schema@,
            table_ref.table@ == self.table@,
    {
        TableReference {
            catalog: self.catalog.as_str(),
            schema: self.schema.as_str(),
            table: self.table.as_str(),
        }
    }
}

/// Drop a table.
#[derive(Clone, Debug)]
pub struct DropTableTask {
    pub catalog: String,
    pub schema: String,
    pub table: String,
    pub table_id: TableId,
}

impl DropTableTask {
    /// The name of the table, as text.
    pub open spec fn name(self) -> QualifiedName {
        QualifiedName { catalog: self.catalog@, schema: self.schema@, table: self.table@ }
    }

    /// The name of the table.
    pub fn table_ref(&self) -> (table_ref: TableReference<'_>)
        ensures
            table_ref@ == self.name(),
            table_ref.catalog@ == self.catalog@,
            table_ref.schema@ == self.schema@,
            table_ref.table@ == self.table@,
    {
        TableReference {
            catalog: self.catalog.as_str(),
            schema: self.schema.as_str(),
            table: self.table.as_str(),
        }
    }
}

/// An alter statement.
pub struct AlterExpr<B: Backend> {
    pub catalog_name: String,
    pub schema_name: String,
    pub table_name: String,
    pub kind: B::AlterKind,
}

/// Alter a table. The table is known by its name only.
pub struct AlterTableTask<B: Backend> {
    pub alter_table: AlterExpr<B>,
}

impl<B: Backend> AlterTableTask<B> {
    /// The name of the table, as text.
    pub open spec fn name(self) -> QualifiedName {
        QualifiedName {
            catalog: self.alter_table.catalog_name@,
            schema: self.alter_table.schema_name@,
            table: self.alter_table.table_name@,
        }
    }

    /// The name of the table.
    pub fn table_ref(&self) -> (table_ref: TableReference<'_>)
        ensures
            table_ref@ == self.name(),
            table_ref.catalog@ == self.alter_table.catalog_name@,
            table_ref.schema@ == self.alter_table.schema_name@,
            table_ref.table@ == self.alter_table.table_name@,
    {
        TableReference {
            catalog: self.alter_table.catalog_name.as_str(),
            schema: self.alter_table.schema_name.as_str(),
            table: self.alter_table.table_name.as_str(),
        }
    }
}

/// Create a table.
pub struct CreateTableTask<B: Backend> {
    pub create_table: B::CreateTableExpr,
    pub partitions: Vec<B::Partition>,
    pub table_info: B::RawTableInfo,
}

/// A DDL task.
pub enum DdlTask<B: Backend> {
    CreateTable(CreateTableTask<B>),
    DropTable(DropTableTask),
    AlterTable(AlterTableTask<B>),
    TruncateTable(TruncateTableTask),
}

/// A request to execute a DDL task.
pub struct SubmitDdlTaskRequest<B: Backend> {
    pub task: DdlTask<B>,
}

/// The answer to a request whose task was executed.
#[derive(Clone, Debug, PartialEq, Eq)]
pub struct SubmitDdlTaskResponse {
    /// The text of the procedure's id, in UTF-8.
    pub key: Vec<u8>,
    /// The id of the table, where the task created one.
    pub table_id: Option<TableId>,
}

/// A [`SubmitDdlTaskResponse`] with its key as a sequence.
pub struct SubmitDdlTaskResponseView {
    pub key: Seq<u8>,
    pub table_id: Option<TableId>,
}

impl View for SubmitDdlTaskResponse {
    type V = SubmitDdlTaskResponseView;

    open spec fn view(&self) -> SubmitDdlTaskResponseView {
        SubmitDdlTaskResponseView { key: self.key@, table_id: self.table_id }
    }
}

/// On whose behalf a request is executed.
#[derive(Clone, Debug)]
pub struct ExecutorContext {
    pub cluster_id: Option<u64>,
}

impl ExecutorContext {
    /// The cluster of the request: cluster 0 where none is named.
    pub open spec fn cluster(self) -> u64 {
        match self.cluster_id {
            Some(cluster_id) => cluster_id,
            None => 0,
        }
    }
}

/// On whose behalf a table is allocated.
#[derive(Clone, Copy, Debug, PartialEq, Eq, Structural)]
pub struct TableMetadataAllocatorContext {
    pub cluster_id: u64,
}

} // verus!
