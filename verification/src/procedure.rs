use std::sync::Arc;
use vstd::prelude::*;

use crate::backend::{share, Backend};
use crate::key::{TableInfo, TableRoute};
use crate::rpc::{AlterTableTask, CreateTableTask, DropTableTask, TruncateTableTask};

verus! {

/// The id of a procedure, known by its text.
#[derive(Debug, PartialEq, Eq, Hash)]
pub struct ProcedureId {
    pub text: String,
}

impl View for ProcedureId {
    type V = Seq<char>;

    open spec fn view(&self) -> Seq<char> {
        self.text@
    }
}

impl Clone for ProcedureId {
    fn clone(&self) -> (id: Self)
        ensures
            id == *self,
    {
        ProcedureId { text: self.text.clone() }
    }
}

impl ProcedureId {
    /// The text of the id.
    pub fn to_string(&self) -> (text: String)
        ensures
            text@ == self@,
            text@ == self.text@,
    {
        self.text.clone()
    }
}

/// What the procedures of a manager work with.
pub struct DdlContext<B: Backend> {
    pub datanode_manager: Arc<B::DatanodeManager>,
    pub cache_invalidator: Arc<B::CacheInvalidator>,
    pub table_metadata_manager: Arc<B::TableMetadataManager>,
    pub memory_region_keeper: Arc<B::MemoryRegionKeeper>,
}

impl<B: Backend> Clone for DdlContext<B> {
    /// A context with handles to the same collaborators.
    fn clone(&self) -> (context: Self)
        ensures
            context == *self,
    {
        DdlContext {
            datanode_manager: share(&self.datanode_manager),
            cache_invalidator: share(&self.cache_invalidator),
            table_metadata_manager: share(&self.table_metadata_manager),
            memory_region_keeper: share(&self.memory_region_keeper),
        }
    }
}

/// The kinds of procedures that a DDL manager submits.
#[derive(Clone, Copy, Debug, PartialEq, Eq, Structural)]
pub enum ProcedureKind {
    CreateTable,
    DropTable,
    AlterTable,
    TruncateTable,
}

impl ProcedureKind {
    /// The name under which procedures of this kind are stored and restored.
    pub open spec fn name(self) -> Seq<char> {
        match self {
            ProcedureKind::CreateTable => "metasrv-procedure::CreateTable"@,
            ProcedureKind::DropTable => "metasrv-procedure::DropTable"@,
            ProcedureKind::AlterTable => "metasrv-procedure::AlterTable"@,
            ProcedureKind::TruncateTable => "metasrv-procedure::TruncateTable"@,
        }
    }

    /// The name under which procedures of this kind are stored and restored.
    pub fn procedure_type(self) -> (procedure_type: &'static str)
        ensures
            procedure_type@ == self.name(),
            self is CreateTable ==> procedure_type@ == "metasrv-procedure::CreateTable"@,
            self is DropTable ==> procedure_type@ == "metasrv-procedure::DropTable"@,
            self is AlterTable ==> procedure_type@ == "metasrv-procedure::AlterTable"@,
            self is TruncateTable ==> procedure_type@ == "metasrv-procedure::TruncateTable"@,
    {
        match self {
            ProcedureKind::CreateTable => "metasrv-procedure::CreateTable",
            ProcedureKind::DropTable => "metasrv-procedure::DropTable",
            ProcedureKind::AlterTable => "metasrv-procedure::AlterTable",
            ProcedureKind::TruncateTable => "metasrv-procedure::TruncateTable",
        }
    }
}

/// Creates a table along the routes that were allocated for it.
pub struct CreateTableProcedure<B: Backend> {
    pub cluster_id: u64,
    pub task: CreateTableTask<B>,
    pub region_routes: Vec<B::RegionRoute>,
    pub context: DdlContext<B>,
}

/// Drops a table.
pub struct DropTableProcedure<B: Backend> {
    pub cluster_id: u64,
    pub task: DropTableTask,
    pub table_route_value: TableRoute<B>,
    pub table_info_value: TableInfo<B>,
    pub context: DdlContext<B>,
}

/// Truncates a table.
pub struct TruncateTableProcedure<B: Backend> {
    pub cluster_id: u64,
    pub task: TruncateTableTask,
    pub table_info_value: TableInfo<B>,
    pub region_routes: Vec<B::RegionRoute>,
    pub context: DdlContext<B>,
}

/// What a procedure that alters a table is made from. Making it can fail.
pub struct AlterTableArgs<B: Backend> {
    pub cluster_id: u64,
    pub task: AlterTableTask<B>,
    pub table_info_value: TableInfo<B>,
    pub context: DdlContext<B>,
}

/// A procedure that a DDL manager submits.
pub enum DdlProcedure<B: Backend> {
    CreateTable(CreateTableProcedure<B>),
    DropTable(DropTableProcedure<B>),
    AlterTable(B::AlterTableProcedure),
    TruncateTable(TruncateTableProcedure<B>),
}

impl<B: Backend> DdlProcedure<B> {
    /// The kind of the procedure.
    pub open spec fn kind(self) -> ProcedureKind {
        match self {
            DdlProcedure::CreateTable(_) => ProcedureKind::CreateTable,
            DdlProcedure::DropTable(_) => ProcedureKind::DropTable,
            DdlProcedure::AlterTable(_) => ProcedureKind::AlterTable,
            DdlProcedure::TruncateTable(_) => ProcedureKind::TruncateTable,
        }
    }
}

/// A procedure with the id that it is to run under.
pub struct ProcedureWithId<B: Backend> {
    pub id: ProcedureId,
    pub procedure: DdlProcedure<B>,
}

} // verus!
