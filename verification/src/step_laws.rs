//! What each step does, over the fields of the values that go in and come out.
//!
//! Each law here takes a value that a function of the library returned, as its
//! contract describes it, and says what is found in its fields.
use vstd::prelude::*;
use vstd::utf8::{decode_utf8, encode_utf8, encode_utf8_decode_utf8};

use crate::backend::{Backend, TableId};
use crate::ddl_manager::{
    after_registering, after_waiting, registering, AlterTablePending, Collaborators, DdlManager,
    LoaderPending, Registration, Submission, SubmissionView, SubmitPending, WaitPending,
};
use crate::error::{error_view, Error, ErrorView};
use crate::handler::{
    first_step, responding, AllocateTablePending, FullTableInfoPending, ProcedurePending, Step,
    StepView, TableInfoPending, TableNamePending, WholeTableTask,
};
use crate::key::{TableInfo, TableRoute};
use crate::loader::{
    AlterTableLoading, CreateTableLoading, DropTableLoading, Loader, Loading, RestoredProcedure,
    TruncateTableLoading,
};
use crate::procedure::{DdlProcedure, ProcedureId, ProcedureKind};
use crate::rpc::{
    AlterTableTask, DdlTask, DropTableTask, ExecutorContext, SubmitDdlTaskRequest,
    SubmitDdlTaskResponse, TruncateTableTask,
};
use crate::table_name::{QualifiedName, TableNameKey, TableNameValue, TableReference};

verus! {

/// The names that tasks, references and keys stand for have exactly the texts
/// of their fields.
pub proof fn law_names_are_the_fields<'a, B: Backend>(
    alter: AlterTableTask<B>,
    drop: DropTableTask,
    truncate: TruncateTableTask,
    reference: TableReference<'a>,
    key: TableNameKey,
)
    ensures
        alter.name().catalog == alter.alter_table.catalog_name@,
        alter.name().schema == alter.alter_table.schema_name@,
        alter.name().table == alter.alter_table.table_name@,
        drop.name().catalog == drop.catalog@,
        drop.name().schema == drop.schema@,
        drop.name().table == drop.table@,
        truncate.name().catalog == truncate.catalog@,
        truncate.name().schema == truncate.schema@,
        truncate.name().table == truncate.table@,
        reference@.catalog == reference.catalog@,
        reference@.schema == reference.schema@,
        reference@.table == reference.table@,
        key@.catalog == key.catalog@,
        key@.schema == key.schema@,
        key@.table == key.table@,
{
}

/// A full name is read from left to right as the catalog, a dot, the schema, a
/// dot and the table, with nothing left out and nothing added.
pub proof fn law_full_name_holds_the_parts(name: QualifiedName)
    ensures
        ({
            let full = name.full_name();
            let schema_at = name.catalog.len() + 1;
            let table_at = name.catalog.len() + name.schema.len() + 2;
            &&& full.len() == name.catalog.len() + name.schema.len() + name.table.len() + 2
            &&& full.take(name.catalog.len() as int) == name.catalog
            &&& full[name.catalog.len() as int] == '.'
            &&& full.subrange(schema_at as int, table_at - 1) == name.schema
            &&& full[table_at - 1] == '.'
            &&& full.skip(table_at as int) == name.table
        }),
{
}

/// Names that differ in one part, and agree in the others, have different full
/// names.
pub proof fn law_full_name_tells_one_part_apart(one: QualifiedName, other: QualifiedName)
    requires
        one.full_name() == other.full_name(),
    ensures
        one.catalog == other.catalog && one.schema == other.schema ==> one.table == other.table,
        one.catalog == other.catalog && one.table == other.table ==> one.schema == other.schema,
        one.schema == other.schema && one.table == other.table ==> one.catalog == other.catalog,
{
    law_full_name_holds_the_parts(one);
    law_full_name_holds_the_parts(other);
}

/// An error, seen from outside, is of the same variant, and has the texts and
/// the source of its fields.
pub proof fn law_error_shows_its_fields<B: Backend>(error: Error<B>)
    ensures
        match error {
            Error::RegisterProcedureLoader { procedure_type, source } => {
                &&& error@ is RegisterProcedureLoader
                &&& error@->procedure_type == procedure_type@
                &&& error@->RegisterProcedureLoader_source == source
            },
            Error::SubmitProcedure { source } => {
                &&& error@ is SubmitProcedure
                &&& error@->SubmitProcedure_source == source
            },
            Error::WaitProcedure { source } => {
                &&& error@ is WaitProcedure
                &&& error@->WaitProcedure_source == source
            },
            Error::TableNotFound { table_name } => {
                &&& error@ is TableNotFound
                &&& error@->TableNotFound_table_name == table_name@
            },
            Error::TableInfoNotFound { table_name } => {
                &&& error@ is TableInfoNotFound
                &&& error@->TableInfoNotFound_table_name == table_name@
            },
            Error::TableRouteNotFound { table_name } => {
                &&& error@ is TableRouteNotFound
                &&& error@->TableRouteNotFound_table_name == table_name@
            },
            Error::Forwarded(source) => {
                &&& error@ is Forwarded
                &&& error@->Forwarded_0 == source
            },
        },
{
}

/// A response, seen from outside, has the bytes and the table id of its fields.
pub proof fn law_response_shows_its_fields(response: SubmitDdlTaskResponse)
    ensures
        response@.key == response.key@,
        response@.table_id == response.table_id,
{
}

/// The name of each kind of procedures, letter by letter.
pub proof fn law_loader_names(kind: ProcedureKind)
    ensures
        kind is CreateTable ==> kind.name() == "metasrv-procedure::CreateTable"@,
        kind is DropTable ==> kind.name() == "metasrv-procedure::DropTable"@,
        kind is AlterTable ==> kind.name() == "metasrv-procedure::AlterTable"@,
        kind is TruncateTable ==> kind.name() == "metasrv-procedure::TruncateTable"@,
{
}

/// A procedure, new or restored, is of the kind that its variant says.
pub proof fn law_kinds_are_the_variants<B: Backend>(
    procedure: DdlProcedure<B>,
    restored: RestoredProcedure<B>,
)
    ensures
        procedure.kind() is CreateTable <==> procedure is CreateTable,
        procedure.kind() is DropTable <==> procedure is DropTable,
        procedure.kind() is AlterTable <==> procedure is AlterTable,
        procedure.kind() is TruncateTable <==> procedure is TruncateTable,
        restored.kind() is CreateTable <==> restored is CreateTable,
        restored.kind() is DropTable <==> restored is DropTable,
        restored.kind() is AlterTable <==> restored is AlterTable,
        restored.kind() is TruncateTable <==> restored is TruncateTable,
{
}

/// The first step of a request asks for what the request says, field by field:
/// a new table is allocated in the cluster that the request names, and in
/// cluster 0 where it names none; a table is read under the id of the task; and
/// a table to be altered is looked up under the three texts of the statement.
/// What is kept for later is the request's own task, its cluster and its id.
pub proof fn law_first_step_asks_for_the_request<'a, B: Backend>(
    ddl_manager: &'a DdlManager<B>,
    ctx: ExecutorContext,
    request: SubmitDdlTaskRequest<B>,
    id: ProcedureId,
    step: Step<'a, B>,
)
    requires
        step@ == first_step(ddl_manager, ctx.cluster(), request.task, id),
    ensures
        ({
            let cluster_id: u64 = if ctx.cluster_id is Some {
                ctx.cluster_id->0
            } else {
                0
            };
            match request.task {
                DdlTask::CreateTable(task) => {
                    &&& step matches Step::AllocateTable(call, pending)
                    &&& call.context.cluster_id == cluster_id
                    &&& call.table_info == task.table_info
                    &&& pending@.create_table == task.create_table
                    &&& pending@.partitions == task.partitions
                    &&& pending@.cluster_id == cluster_id
                    &&& pending@.id.text@ == id.text@
                    &&& pending@.ddl_manager == ddl_manager
                },
                DdlTask::DropTable(task) => {
                    &&& step matches Step::GetFullTableInfo(table_id, pending)
                    &&& table_id == task.table_id
                    &&& pending@.task == WholeTableTask::Drop(task)
                    &&& pending@.cluster_id == cluster_id
                    &&& pending@.id.text@ == id.text@
                    &&& pending@.ddl_manager == ddl_manager
                },
                DdlTask::AlterTable(task) => {
                    &&& step matches Step::GetTableName(key, pending)
                    &&& key.catalog@ == task.alter_table.catalog_name@
                    &&& key.schema@ == task.alter_table.schema_name@
                    &&& key.table@ == task.alter_table.table_name@
                    &&& pending@.task == task
                    &&& pending@.cluster_id == cluster_id
                    &&& pending@.id.text@ == id.text@
                    &&& pending@.ddl_manager == ddl_manager
                },
                DdlTask::TruncateTable(task) => {
                    &&& step matches Step::GetFullTableInfo(table_id, pending)
                    &&& table_id == task.table_id
                    &&& pending@.task == WholeTableTask::Truncate(task)
                    &&& pending@.cluster_id == cluster_id
                    &&& pending@.id.text@ == id.text@
                    &&& pending@.ddl_manager == ddl_manager
                },
            }
        }),
{
}

/// Two alter tasks look up the same key exactly if their statements have the
/// same catalog, the same schema and the same table.
pub proof fn law_alter_tasks_look_up_their_own_table<'a, B: Backend>(
    ddl_manager: &'a DdlManager<B>,
    one: AlterTableTask<B>,
    other: AlterTableTask<B>,
    cluster_id: u64,
    id: ProcedureId,
    one_step: Step<'a, B>,
    other_step: Step<'a, B>,
)
    requires
        one_step@ == first_step(ddl_manager, cluster_id, DdlTask::AlterTable(one), id),
        other_step@ == first_step(ddl_manager, cluster_id, DdlTask::AlterTable(other), id),
    ensures
        ({
            &&& one_step matches Step::GetTableName(one_key, _)
            &&& other_step matches Step::GetTableName(other_key, _)
            &&& ((one_key.catalog@ == other_key.catalog@ && one_key.schema@ == other_key.schema@
                && one_key.table@ == other_key.table@) <==> (one.alter_table.catalog_name@
                == other.alter_table.catalog_name@ && one.alter_table.schema_name@
                == other.alter_table.schema_name@ && one.alter_table.table_name@
                == other.alter_table.table_name@))
        }),
{
}

/// When the name is looked up, the description is read under the id that was
/// found and with the task unchanged; a name that is not there is reported with
/// the three texts of the statement, joined by dots; an error is handed on.
pub proof fn law_after_the_table_name<'a, B: Backend>(
    pending: TableNamePending<'a, B>,
    reply: Result<Option<TableNameValue>, B::Error>,
    next: Step<'a, B>,
)
    requires
        next@ == pending@.after_table_name(reply),
    ensures
        ({
            let statement = pending@.task.alter_table;
            match reply {
                Ok(Some(value)) => {
                    &&& next matches Step::GetTableInfo(table_id, kept)
                    &&& table_id == value.table_id
                    &&& kept@ == pending@
                },
                Ok(None) => {
                    &&& next matches Step::Done(Err(Error::TableNotFound { table_name }))
                    &&& table_name@ =~= statement.catalog_name@ + seq!['.'] + statement.schema_name@
                        + seq!['.'] + statement.table_name@
                },
                Err(error) => {
                    &&& next matches Step::Done(Err(Error::Forwarded(source)))
                    &&& source == error
                },
            }
        }),
{
}

/// When the description is read, the alter procedure is made from exactly that
/// description, the task, its cluster and the manager's collaborators, to run
/// under the given id; a missing description is reported with the full name.
pub proof fn law_after_the_table_info<'a, B: Backend>(
    pending: TableInfoPending<'a, B>,
    reply: Result<Option<TableInfo<B>>, B::Error>,
    next: Step<'a, B>,
)
    requires
        next@ == pending@.after_table_info(reply),
    ensures
        ({
            let statement = pending@.task.alter_table;
            match reply {
                Ok(Some(table_info_value)) => {
                    &&& next matches Step::Procedure(
                        Submission::BuildAlterTable(args, kept),
                        respond,
                    )
                    &&& args.cluster_id == pending@.cluster_id
                    &&& args.task == pending@.task
                    &&& args.table_info_value == table_info_value
                    &&& args.context.datanode_manager == pending@.ddl_manager@.datanode_manager
                    &&& args.context.cache_invalidator == pending@.ddl_manager@.cache_invalidator
                    &&& args.context.table_metadata_manager
                        == pending@.ddl_manager@.table_metadata_manager
                    &&& args.context.memory_region_keeper
                        == pending@.ddl_manager@.memory_region_keeper
                    &&& kept@.ddl_manager == pending@.ddl_manager
                    &&& kept@.id.text@ == pending@.id.text@
                    &&& respond@ is None
                },
                Ok(None) => {
                    &&& next matches Step::Done(Err(Error::TableInfoNotFound { table_name }))
                    &&& table_name@ =~= statement.catalog_name@ + seq!['.'] + statement.schema_name@
                        + seq!['.'] + statement.table_name@
                },
                Err(error) => {
                    &&& next matches Step::Done(Err(Error::Forwarded(source)))
                    &&& source == error
                },
            }
        }),
{
}

/// When a table to be dropped is read, the procedure that is submitted drops
/// it, with exactly what was read. A missing description is reported, whether
/// or not there are routes; missing routes are reported where there is a
/// description.
pub proof fn law_after_the_table_to_drop<'a, B: Backend>(
    pending: FullTableInfoPending<'a, B>,
    task: DropTableTask,
    reply: Result<(Option<TableInfo<B>>, Option<TableRoute<B>>), B::Error>,
    next: Step<'a, B>,
)
    requires
        pending@.task == WholeTableTask::Drop(task),
        next@ == pending@.after(reply),
    ensures
        match reply {
            Ok((Some(table_info_value), Some(table_route_value))) => {
                &&& next matches Step::Procedure(Submission::Submit(submitted, kept), respond)
                &&& submitted.procedure matches DdlProcedure::DropTable(procedure)
                &&& procedure.cluster_id == pending@.cluster_id
                &&& procedure.task == task
                &&& procedure.table_info_value == table_info_value
                &&& procedure.table_route_value == table_route_value
                &&& procedure.context.datanode_manager == pending@.ddl_manager@.datanode_manager
                &&& procedure.context.cache_invalidator == pending@.ddl_manager@.cache_invalidator
                &&& procedure.context.table_metadata_manager
                    == pending@.ddl_manager@.table_metadata_manager
                &&& procedure.context.memory_region_keeper
                    == pending@.ddl_manager@.memory_region_keeper
                &&& submitted.id.text@ == pending@.id.text@
                &&& kept@.id.text@ == pending@.id.text@
                &&& kept@.ddl_manager == pending@.ddl_manager
                &&& respond@ is None
            },
            Ok((None, _)) => {
                &&& next matches Step::Done(Err(Error::TableInfoNotFound { table_name }))
                &&& table_name@ =~= task.catalog@ + seq!['.'] + task.schema@ + seq!['.']
                    + task.table@
            },
            Ok((Some(_), None)) => {
                &&& next matches Step::Done(Err(Error::TableRouteNotFound { table_name }))
                &&& table_name@ =~= task.catalog@ + seq!['.'] + task.schema@ + seq!['.']
                    + task.table@
            },
            Err(error) => {
                &&& next matches Step::Done(Err(Error::Forwarded(source)))
                &&& source == error
            },
        },
{
}

/// When a table to be truncated is read, the procedure that is submitted
/// truncates it, with exactly the description and the region routes that were
/// read. What is missing is reported as for a table to be dropped.
pub proof fn law_after_the_table_to_truncate<'a, B: Backend>(
    pending: FullTableInfoPending<'a, B>,
    task: TruncateTableTask,
    reply: Result<(Option<TableInfo<B>>, Option<TableRoute<B>>), B::Error>,
    next: Step<'a, B>,
)
    requires
        pending@.task == WholeTableTask::Truncate(task),
        next@ == pending@.after(reply),
    ensures
        match reply {
            Ok((Some(table_info_value), Some(table_route_value))) => {
                &&& next matches Step::Procedure(Submission::Submit(submitted, kept), respond)
                &&& submitted.procedure matches DdlProcedure::TruncateTable(procedure)
                &&& procedure.cluster_id == pending@.cluster_id
                &&& procedure.task == task
                &&& procedure.table_info_value == table_info_value
                &&& procedure.region_routes == table_route_value.inner.region_routes
                &&& procedure.context.datanode_manager == pending@.ddl_manager@.datanode_manager
                &&& procedure.context.cache_invalidator == pending@.ddl_manager@.cache_invalidator
                &&& procedure.context.table_metadata_manager
                    == pending@.ddl_manager@.table_metadata_manager
                &&& procedure.context.memory_region_keeper
                    == pending@.ddl_manager@.memory_region_keeper
                &&& submitted.id.text@ == pending@.id.text@
                &&& kept@.id.text@ == pending@.id.text@
                &&& kept@.ddl_manager == pending@.ddl_manager
                &&& respond@ is None
            },
            Ok((None, _)) => {
                &&& next matches Step::Done(Err(Error::TableInfoNotFound { table_name }))
                &&& table_name@ =~= task.catalog@ + seq!['.'] + task.schema@ + seq!['.']
                    + task.table@
            },
            Ok((Some(_), None)) => {
                &&& next matches Step::Done(Err(Error::TableRouteNotFound { table_name }))
                &&& table_name@ =~= task.catalog@ + seq!['.'] + task.schema@ + seq!['.']
                    + task.table@
            },
            Err(error) => {
                &&& next matches Step::Done(Err(Error::Forwarded(source)))
                &&& source == error
            },
        },
{
}

/// When a table is allocated, the procedure that is submitted creates it, with
/// the statement and the partitions of the task, the description as the
/// allocator left it and exactly the routes that were allocated; the id that
/// was allocated is kept for the response.
pub proof fn law_after_the_allocation<'a, B: Backend>(
    pending: AllocateTablePending<'a, B>,
    table_info: B::RawTableInfo,
    reply: Result<(TableId, Vec<B::RegionRoute>), B::Error>,
    next: Step<'a, B>,
)
    requires
        next@ == pending@.after(table_info, reply),
    ensures
        match reply {
            Ok((table_id, region_routes)) => {
                &&& next matches Step::Procedure(Submission::Submit(submitted, kept), respond)
                &&& submitted.procedure matches DdlProcedure::CreateTable(procedure)
                &&& procedure.cluster_id == pending@.cluster_id
                &&& procedure.task.create_table == pending@.create_table
                &&& procedure.task.partitions == pending@.partitions
                &&& procedure.task.table_info == table_info
                &&& procedure.region_routes == region_routes
                &&& procedure.context.datanode_manager == pending@.ddl_manager@.datanode_manager
                &&& procedure.context.cache_invalidator == pending@.ddl_manager@.cache_invalidator
                &&& procedure.context.table_metadata_manager
                    == pending@.ddl_manager@.table_metadata_manager
                &&& procedure.context.memory_region_keeper
                    == pending@.ddl_manager@.memory_region_keeper
                &&& submitted.id.text@ == pending@.id.text@
                &&& kept@.id.text@ == pending@.id.text@
                &&& kept@.ddl_manager == pending@.ddl_manager
                &&& respond@ == Some(table_id)
            },
            Err(error) => {
                &&& next matches Step::Done(Err(Error::Forwarded(source)))
                &&& source == error
            },
        },
{
}

/// An alter procedure that was made is the one that is submitted, under the id
/// that was kept; if it could not be made, nothing is submitted.
pub proof fn law_after_the_alter_procedure<'a, B: Backend>(
    pending: AlterTablePending<'a, B>,
    reply: Result<B::AlterTableProcedure, B::Error>,
    next: Submission<'a, B>,
)
    requires
        next@ == pending@.after_building(reply),
    ensures
        match reply {
            Ok(procedure) => {
                &&& next matches Submission::Submit(submitted, kept)
                &&& submitted.procedure matches DdlProcedure::AlterTable(altering)
                &&& altering == procedure
                &&& submitted.id.text@ == pending@.id.text@
                &&& kept@.id.text@ == pending@.id.text@
                &&& kept@.ddl_manager == pending@.ddl_manager
            },
            Err(error) => {
                &&& next matches Submission::Done(Err(Error::Forwarded(source)))
                &&& source == error
            },
        },
{
}

/// A procedure that was accepted is waited for with the watcher that came back,
/// and its id is kept; one that was refused is reported as not submitted.
pub proof fn law_after_the_submission<'a, B: Backend>(
    pending: SubmitPending<'a, B>,
    reply: Result<B::Watcher, B::ProcedureError>,
    next: Submission<'a, B>,
)
    requires
        next@ == pending@.after_submitting(reply),
    ensures
        match reply {
            Ok(watcher) => {
                &&& next matches Submission::Wait(observed, kept)
                &&& observed == watcher
                &&& kept@.text@ == pending@.id.text@
            },
            Err(error) => {
                &&& next matches Submission::Done(Err(Error::SubmitProcedure { source }))
                &&& source == error
            },
        },
{
}

/// A procedure that succeeded is answered with the id that it was submitted
/// under; one that failed is reported as failed.
pub proof fn law_after_the_wait<'a, B: Backend>(
    pending: WaitPending,
    reply: Result<(), B::ProcedureError>,
    next: Submission<'a, B>,
)
    requires
        next@ == SubmissionView::<'a, B>::Done(after_waiting(pending@, reply)),
    ensures
        match reply {
            Ok(_) => {
                &&& next matches Submission::Done(Ok(id))
                &&& id.text@ == pending@.text@
            },
            Err(error) => {
                &&& next matches Submission::Done(Err(Error::WaitProcedure { source }))
                &&& source == error
            },
        },
{
}

/// The key of a response is the UTF-8 encoding of the whole text of the id, so
/// that the text can be read back from it; the table id is the one that was
/// kept. A submission that failed is answered with its error.
pub proof fn law_after_the_procedure<'a, B: Backend>(
    pending: ProcedurePending,
    reply: Result<ProcedureId, Error<B>>,
    next: Step<'a, B>,
)
    requires
        next@ == StepView::<'a, B>::Done(responding(pending@, error_view(reply))),
    ensures
        match reply {
            Ok(id) => {
                &&& next matches Step::Done(Ok(response))
                &&& response.key@ == encode_utf8(id.text@)
                &&& decode_utf8(response.key@) == id.text@
                &&& response.table_id == pending@
            },
            Err(error) => {
                &&& next matches Step::Done(Err(answered))
                &&& answered@ == error@
            },
        },
{
    if let Ok(id) = reply {
        encode_utf8_decode_utf8(id.text@);
    }
}

/// Procedures with different ids are answered with different keys.
pub proof fn law_keys_tell_procedures_apart<'a, 'b, B: Backend>(
    one: ProcedurePending,
    other: ProcedurePending,
    one_id: ProcedureId,
    other_id: ProcedureId,
    one_step: Step<'a, B>,
    other_step: Step<'b, B>,
)
    requires
        one_step@ == StepView::<'a, B>::Done(responding(one@, Ok(one_id))),
        other_step@ == StepView::<'b, B>::Done(responding(other@, Ok(other_id))),
    ensures
        ({
            &&& one_step matches Step::Done(Ok(one_response))
            &&& other_step matches Step::Done(Ok(other_response))
            &&& (one_response.key@ == other_response.key@ <==> one_id.text@ == other_id.text@)
        }),
{
    encode_utf8_decode_utf8(one_id.text@);
    encode_utf8_decode_utf8(other_id.text@);
}

/// Making a manager starts with the loader of create procedures, with the
/// collaborators that the manager is to have.
pub proof fn law_first_loader<B: Backend>(
    collaborators: Collaborators<B>,
    registration: Registration<B>,
)
    requires
        registration@ == registering(collaborators, ProcedureKind::CreateTable),
    ensures
        ({
            &&& registration matches Registration::RegisterLoader(loader, pending)
            &&& loader.kind is CreateTable
            &&& loader.context.datanode_manager == collaborators.datanode_manager
            &&& loader.context.cache_invalidator == collaborators.cache_invalidator
            &&& loader.context.table_metadata_manager == collaborators.table_metadata_manager
            &&& loader.context.memory_region_keeper == collaborators.memory_region_keeper
            &&& pending.kind() is CreateTable
            &&& pending.collaborators() == collaborators
        }),
{
}

/// After an accepted loader comes the next one: drop after create, alter after
/// drop, truncate after alter; after the last comes the manager, with its
/// collaborators. A refused loader is named, and nothing follows.
pub proof fn law_after_the_loader<B: Backend>(
    pending: LoaderPending<B>,
    reply: Result<(), B::ProcedureError>,
    next: Registration<B>,
)
    requires
        next@ == after_registering(pending.collaborators(), pending.kind(), reply),
    ensures
        ({
            let collaborators = pending.collaborators();
            match reply {
                Ok(_) => if pending.kind() is TruncateTable {
                    &&& next matches Registration::Done(Ok(manager))
                    &&& manager@ == collaborators
                } else {
                    &&& next matches Registration::RegisterLoader(loader, kept)
                    &&& pending.kind() is CreateTable ==> loader.kind is DropTable
                    &&& pending.kind() is DropTable ==> loader.kind is AlterTable
                    &&& pending.kind() is AlterTable ==> loader.kind is TruncateTable
                    &&& kept.kind() == loader.kind
                    &&& kept.collaborators() == collaborators
                    &&& loader.context.datanode_manager == collaborators.datanode_manager
                    &&& loader.context.cache_invalidator == collaborators.cache_invalidator
                    &&& loader.context.table_metadata_manager
                        == collaborators.table_metadata_manager
                    &&& loader.context.memory_region_keeper == collaborators.memory_region_keeper
                },
                Err(error) => {
                    &&& next matches Registration::Done(
                        Err(Error::RegisterProcedureLoader { procedure_type, source }),
                    )
                    &&& source == error
                    &&& pending.kind() is CreateTable ==> procedure_type@
                        == "metasrv-procedure::CreateTable"@
                    &&& pending.kind() is DropTable ==> procedure_type@
                        == "metasrv-procedure::DropTable"@
                    &&& pending.kind() is AlterTable ==> procedure_type@
                        == "metasrv-procedure::AlterTable"@
                    &&& pending.kind() is TruncateTable ==> procedure_type@
                        == "metasrv-procedure::TruncateTable"@
                },
            }
        }),
{
}

/// A loader has its stored form parsed as it is, as a procedure of the loader's
/// kind, to work with the loader's context.
pub proof fn law_loading_parses_the_stored_form<'j, B: Backend>(loader: Loader<B>, json: &'j str)
    ensures
        match loader.loading(json) {
            Loading::CreateTable(call, _) => {
                &&& loader.kind is CreateTable
                &&& call.json@ == json@
                &&& call.context == loader.context
            },
            Loading::DropTable(call, _) => {
                &&& loader.kind is DropTable
                &&& call.json@ == json@
                &&& call.context == loader.context
            },
            Loading::AlterTable(call, _) => {
                &&& loader.kind is AlterTable
                &&& call.json@ == json@
                &&& call.context == loader.context
            },
            Loading::TruncateTable(call, _) => {
                &&& loader.kind is TruncateTable
                &&& call.json@ == json@
                &&& call.context == loader.context
            },
        },
{
}

/// What a parse gives is what a loader restores: the same procedure, as one of
/// its kind, or the same error.
pub proof fn law_loading_hands_on_the_parse<B: Backend>(
    create: Result<B::RestoredCreateTable, B::ProcedureError>,
    drop: Result<B::RestoredDropTable, B::ProcedureError>,
    alter: Result<B::AlterTableProcedure, B::ProcedureError>,
    truncate: Result<B::RestoredTruncateTable, B::ProcedureError>,
)
    ensures
        match create {
            Ok(procedure) => {
                &&& CreateTableLoading.after::<B>(create) matches Ok(restored)
                &&& restored matches RestoredProcedure::CreateTable(inner)
                &&& inner == procedure
            },
            Err(error) => {
                &&& CreateTableLoading.after::<B>(create) matches Err(source)
                &&& source == error
            },
        },
        match drop {
            Ok(procedure) => {
                &&& DropTableLoading.after::<B>(drop) matches Ok(restored)
                &&& restored matches RestoredProcedure::DropTable(inner)
                &&& inner == procedure
            },
            Err(error) => {
                &&& DropTableLoading.after::<B>(drop) matches Err(source)
                &&& source == error
            },
        },
        match alter {
            Ok(procedure) => {
                &&& AlterTableLoading.after::<B>(alter) matches Ok(restored)
                &&& restored matches RestoredProcedure::AlterTable(inner)
                &&& inner == procedure
            },
            Err(error) => {
                &&& AlterTableLoading.after::<B>(alter) matches Err(source)
                &&& source == error
            },
        },
        match truncate {
            Ok(procedure) => {
                &&& TruncateTableLoading.after::<B>(truncate) matches Ok(restored)
                &&& restored matches RestoredProcedure::TruncateTable(inner)
                &&& inner == procedure
            },
            Err(error) => {
                &&& TruncateTableLoading.after::<B>(truncate) matches Err(source)
                &&& source == error
            },
        },
{
}

} // verus!
