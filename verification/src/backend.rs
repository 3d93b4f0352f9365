use std::sync::Arc;
use vstd::prelude::*;

verus! {

/// The id of a table.
pub type TableId = u32;

/// The types that a deployment puts behind a DDL manager.
///
/// The manager holds handles to the first six and never looks inside them. It
/// carries values of the others from one call to the next and never looks
/// inside those either.
pub trait Backend: Sized {
    /// Runs procedures and keeps the loaders that restore them.
    type ProcedureManager: ?Sized;

    /// Gives access to the datanodes.
    type DatanodeManager: ?Sized;

    /// Invalidates cached metadata.
    type CacheInvalidator: ?Sized;

    /// Reads and writes the metadata of tables.
    type TableMetadataManager: ?Sized;

    /// Allocates the metadata of new tables.
    type TableMetadataAllocator: ?Sized;

    /// Tracks the regions that are being operated on.
    type MemoryRegionKeeper: ?Sized;

    /// The statement that creates a table.
    type CreateTableExpr;

    /// What an alter statement changes.
    type AlterKind;

    /// A partition of a new table.
    type Partition;

    /// The description of a new table.
    type RawTableInfo;

    /// The stored description of a table.
    type TableInfoValue;

    /// The route to a region of a table.
    type RegionRoute;

    /// A procedure that alters a table, new or restored from its stored form.
    type AlterTableProcedure;

    /// A procedure that creates a table, restored from its stored form.
    type RestoredCreateTable;

    /// A procedure that drops a table, restored from its stored form.
    type RestoredDropTable;

    /// A procedure that truncates a table, restored from its stored form.
    type RestoredTruncateTable;

    /// Observes a submitted procedure.
    type Watcher;

    /// What a procedure manager fails with.
    type ProcedureError;

    /// What every other collaborator fails with.
    type Error;
}

/// A second handle to what `handle` points to, made by [`Arc::clone`]: the
/// result points to the same value.
#[verifier::external_body]
pub(crate) fn share<T: ?Sized>(handle: &Arc<T>) -> (shared: Arc<T>)
    ensures
        shared == *handle,
{
    Arc::clone(handle)
}

} // verus!
