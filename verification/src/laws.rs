use vstd::prelude::*;
use vstd::utf8::{decode_utf8, encode_utf8, encode_utf8_decode_utf8};

use crate::backend::{Backend, TableId};
use crate::ddl_manager::{
    registering, submitting, Collaborators, DdlManager, SubmissionState, SubmissionView,
};
use crate::error::ErrorView;
use crate::handler::first_step;
use crate::loader::{Loader, RestoredProcedure};
use crate::procedure::{
    AlterTableArgs, CreateTableProcedure, DdlContext, DdlProcedure, DropTableProcedure,
    ProcedureId, ProcedureKind, ProcedureWithId, TruncateTableProcedure,
};
use crate::rpc::{
    AlterTableTask, CreateTableTask, DdlTask, DropTableTask, ExecutorContext, SubmitDdlTaskRequest,
    TableMetadataAllocatorContext, TruncateTableTask,
};
use crate::run::{
    accepted, calls, loaded, loaders, loadings, outcome, refusal, registration_outcome,
    submission_calls, submission_outcome, table_name_of, Call, World,
};
use crate::table_name::QualifiedName;

verus! {

/// A task is executed, and answered with a response, exactly if the reply to
/// its last call is accepted; otherwise the error reports that reply. Every
/// call before the last was accepted: a refused call ends the execution.
pub proof fn law_first_refusal_decides<B: Backend>(
    world: World<B>,
    ddl_manager: &DdlManager<B>,
    cluster_id: u64,
    task: DdlTask<B>,
    id: ProcedureId,
)
    ensures
        ({
            let step = first_step(ddl_manager, cluster_id, task, id);
            let calls = calls(world, step);
            &&& calls.len() > 0
            &&& forall|i: int| 0 <= i < calls.len() - 1 ==> accepted(world, #[trigger] calls[i])
            &&& outcome(world, step) is Ok <==> accepted(world, calls.last())
            &&& outcome(world, step) matches Err(error) ==> error == refusal(
                world,
                table_name_of(task),
                calls.last(),
            )
        }),
{
    reveal_with_fuel(calls, 4);
    reveal_with_fuel(outcome, 4);
    reveal_with_fuel(submission_calls, 4);
    reveal_with_fuel(submission_outcome, 4);
}

/// A response means that one procedure was submitted to the manager's own
/// procedure manager, under the given id, that the procedure ran, and that it
/// succeeded. The response names that procedure: its key decodes to the text of
/// the id.
pub proof fn law_response_names_a_finished_procedure<B: Backend>(
    world: World<B>,
    ddl_manager: &DdlManager<B>,
    cluster_id: u64,
    task: DdlTask<B>,
    id: ProcedureId,
)
    ensures
        ({
            let step = first_step(ddl_manager, cluster_id, task, id);
            let calls = calls(world, step);
            outcome(world, step) matches Ok(response) ==> {
                &&& response.key == encode_utf8(id@)
                &&& decode_utf8(response.key) == id@
                &&& calls.len() >= 2
                &&& calls[calls.len() - 2] matches Call::Submit { procedure_manager, procedure }
                &&& procedure_manager == ddl_manager@.procedure_manager
                &&& procedure.id == id
                &&& (world.submit)(procedure) matches Ok(watcher)
                &&& calls.last() == Call::<B>::Wait { watcher }
                &&& (world.wait)(watcher) is Ok
            }
        }),
{
    reveal_with_fuel(calls, 4);
    reveal_with_fuel(outcome, 4);
    reveal_with_fuel(submission_calls, 4);
    reveal_with_fuel(submission_outcome, 4);
    encode_utf8_decode_utf8(id@);
}

/// Submitting a procedure makes at most two calls: the procedure goes to the
/// manager's own procedure manager, and only if it is accepted there is it
/// waited for, with the watcher that came back. The submission ends with the
/// procedure's id exactly if the procedure was accepted and succeeded, and
/// otherwise says which of the two failed.
pub proof fn law_submission<B: Backend>(
    world: World<B>,
    ddl_manager: &DdlManager<B>,
    id: ProcedureId,
    procedure: DdlProcedure<B>,
)
    ensures
        ({
            let submission = submitting(ddl_manager, id, procedure);
            let procedure = ProcedureWithId { id, procedure };
            let submit = Call::<B>::Submit {
                procedure_manager: ddl_manager@.procedure_manager,
                procedure,
            };
            match (world.submit)(procedure) {
                Ok(watcher) => {
                    &&& submission_calls(world, submission) == seq![submit, Call::Wait { watcher }]
                    &&& submission_outcome(world, submission) == match (world.wait)(watcher) {
                        Ok(_) => Ok::<_, ErrorView<B>>(id),
                        Err(source) => Err(ErrorView::WaitProcedure { source }),
                    }
                },
                Err(source) => {
                    &&& submission_calls(world, submission) == seq![submit]
                    &&& submission_outcome(world, submission) == Err::<ProcedureId, _>(
                        ErrorView::<B>::SubmitProcedure { source },
                    )
                },
            }
        }),
{
    reveal_with_fuel(submission_calls, 3);
    reveal_with_fuel(submission_outcome, 3);
}

/// An alter procedure that cannot be made is not submitted, and the error is
/// handed on; one that can be made is submitted as any other procedure is.
pub proof fn law_alter_submission<'a, B: Backend>(
    world: World<B>,
    args: AlterTableArgs<B>,
    state: SubmissionState<'a, B>,
)
    ensures
        ({
            let submission = SubmissionView::BuildAlterTable(args, state);
            let build = Call::<B>::BuildAlterTable { args };
            match (world.build_alter_table)(args) {
                Ok(procedure) => {
                    let submitted = submitting(
                        state.ddl_manager,
                        state.id,
                        DdlProcedure::AlterTable(procedure),
                    );
                    &&& submission_calls(world, submission) == seq![build] + submission_calls(
                        world,
                        submitted,
                    )
                    &&& submission_outcome(world, submission) == submission_outcome(
                        world,
                        submitted,
                    )
                },
                Err(error) => {
                    &&& submission_calls(world, submission) == seq![build]
                    &&& submission_outcome(world, submission) == Err::<ProcedureId, _>(
                        ErrorView::<B>::Forwarded(error),
                    )
                },
            }
        }),
{
    reveal_with_fuel(submission_calls, 2);
    reveal_with_fuel(submission_outcome, 2);
}

/// Whatever the replies, a task submits at most one procedure. Only a wait can
/// follow a submission, only a submission can come before a wait, and the wait
/// is for the procedure that was submitted.
pub proof fn law_one_submission<B: Backend>(
    world: World<B>,
    ddl_manager: &DdlManager<B>,
    cluster_id: u64,
    task: DdlTask<B>,
    id: ProcedureId,
)
    ensures
        ({
            let calls = calls(world, first_step(ddl_manager, cluster_id, task, id));
            &&& forall|i: int, j: int|
                0 <= i < calls.len() && 0 <= j < calls.len() && (#[trigger] calls[i]) is Submit && (
                #[trigger] calls[j]) is Submit ==> i == j
            &&& forall|i: int| #![trigger calls[i]]
                0 <= i < calls.len() - 1 && calls[i] is Submit ==> {
                    &&& i == calls.len() - 2
                    &&& calls.last() is Wait
                }
            &&& forall|i: int| #![trigger calls[i]]
                0 <= i < calls.len() && calls[i] is Wait ==> {
                    &&& i == calls.len() - 1
                    &&& i > 0
                    &&& calls[i - 1] matches Call::Submit { procedure, .. }
                    &&& (world.submit)(procedure) == Ok::<_, B::ProcedureError>(calls[i]->watcher)
                }
        }),
{
    reveal_with_fuel(calls, 4);
    reveal_with_fuel(submission_calls, 4);
}

/// Only a task that creates a table is answered with a table id, and the id is
/// the one that was allocated.
pub proof fn law_table_id_of_created_tables_only<B: Backend>(
    world: World<B>,
    ddl_manager: &DdlManager<B>,
    cluster_id: u64,
    task: DdlTask<B>,
    id: ProcedureId,
)
    ensures
        outcome(world, first_step(ddl_manager, cluster_id, task, id)) matches Ok(response) ==> {
            match task {
                DdlTask::CreateTable(task) => {
                    let context = TableMetadataAllocatorContext { cluster_id };
                    let allocation = (world.allocate)(context, task.table_info, task.partitions).1;
                    allocation is Ok && response.table_id == Some(allocation->Ok_0.0)
                },
                _ => response.table_id is None,
            }
        },
{
    reveal_with_fuel(outcome, 4);
    reveal_with_fuel(submission_outcome, 4);
}

/// A create task first allocates the table. Exactly if that succeeds, it
/// submits a procedure with the task, whose description is the one that the
/// allocator left, and with the routes that were allocated.
pub proof fn law_create_table<B: Backend>(
    world: World<B>,
    ddl_manager: &DdlManager<B>,
    cluster_id: u64,
    task: CreateTableTask<B>,
    id: ProcedureId,
)
    ensures
        ({
            let calls = calls(
                world,
                first_step(ddl_manager, cluster_id, DdlTask::CreateTable(task), id),
            );
            let context = TableMetadataAllocatorContext { cluster_id };
            let (table_info, allocation) = (world.allocate)(
                context,
                task.table_info,
                task.partitions,
            );
            &&& 1 <= calls.len() <= 3
            &&& calls[0] == Call::<B>::AllocateTable {
                allocator: ddl_manager@.table_meta_allocator,
                context,
                table_info: task.table_info,
                partitions: task.partitions,
            }
            &&& calls.len() > 1 <==> allocation is Ok
            &&& allocation matches Ok((_, region_routes)) ==> calls[1] == Call::Submit {
                procedure_manager: ddl_manager@.procedure_manager,
                procedure: ProcedureWithId {
                    id,
                    procedure: DdlProcedure::CreateTable(
                        CreateTableProcedure {
                            cluster_id,
                            task: CreateTableTask { table_info, ..task },
                            region_routes,
                            context: ddl_manager@.context(),
                        },
                    ),
                },
            }
        }),
{
    reveal_with_fuel(calls, 4);
    reveal_with_fuel(submission_calls, 4);
}

/// A drop task first reads what is stored of the table. Exactly if both the
/// description and the routes are there, it submits a procedure with them.
pub proof fn law_drop_table<B: Backend>(
    world: World<B>,
    ddl_manager: &DdlManager<B>,
    cluster_id: u64,
    task: DropTableTask,
    id: ProcedureId,
)
    ensures
        ({
            let calls = calls(
                world,
                first_step(ddl_manager, cluster_id, DdlTask::DropTable(task), id),
            );
            let stored = (world.full_table_info)(task.table_id);
            &&& 1 <= calls.len() <= 3
            &&& calls[0] == Call::<B>::GetFullTableInfo {
                metadata: ddl_manager@.table_metadata_manager,
                table_id: task.table_id,
            }
            &&& calls.len() > 1 <==> stored is Ok && stored->Ok_0.0 is Some
                && stored->Ok_0.1 is Some
            &&& stored matches Ok((Some(table_info_value), Some(table_route_value))) ==> calls[1]
                == Call::Submit {
                procedure_manager: ddl_manager@.procedure_manager,
                procedure: ProcedureWithId {
                    id,
                    procedure: DdlProcedure::DropTable(
                        DropTableProcedure {
                            cluster_id,
                            task,
                            table_route_value,
                            table_info_value,
                            context: ddl_manager@.context(),
                        },
                    ),
                },
            }
        }),
{
    reveal_with_fuel(calls, 4);
    reveal_with_fuel(submission_calls, 4);
}

/// A truncate task first reads what is stored of the table. Exactly if both the
/// description and the routes are there, it submits a procedure with the
/// description and the routes of the regions.
pub proof fn law_truncate_table<B: Backend>(
    world: World<B>,
    ddl_manager: &DdlManager<B>,
    cluster_id: u64,
    task: TruncateTableTask,
    id: ProcedureId,
)
    ensures
        ({
            let calls = calls(
                world,
                first_step(ddl_manager, cluster_id, DdlTask::TruncateTable(task), id),
            );
            let stored = (world.full_table_info)(task.table_id);
            &&& 1 <= calls.len() <= 3
            &&& calls[0] == Call::<B>::GetFullTableInfo {
                metadata: ddl_manager@.table_metadata_manager,
                table_id: task.table_id,
            }
            &&& calls.len() > 1 <==> stored is Ok && stored->Ok_0.0 is Some
                && stored->Ok_0.1 is Some
            &&& stored matches Ok((Some(table_info_value), Some(table_route_value))) ==> calls[1]
                == Call::Submit {
                procedure_manager: ddl_manager@.procedure_manager,
                procedure: ProcedureWithId {
                    id,
                    procedure: DdlProcedure::TruncateTable(
                        TruncateTableProcedure {
                            cluster_id,
                            task,
                            table_info_value,
                            region_routes: table_route_value.inner.region_routes,
                            context: ddl_manager@.context(),
                        },
                    ),
                },
            }
        }),
{
    reveal_with_fuel(calls, 4);
    reveal_with_fuel(submission_calls, 4);
}

/// An alter task looks its table up by name, then reads the description of the
/// table with the id that was found, then makes a procedure from that
/// description, and submits that procedure; each exactly if the one before it
/// succeeded.
pub proof fn law_alter_table<B: Backend>(
    world: World<B>,
    ddl_manager: &DdlManager<B>,
    cluster_id: u64,
    task: AlterTableTask<B>,
    id: ProcedureId,
)
    ensures
        ({
            let calls = calls(
                world,
                first_step(ddl_manager, cluster_id, DdlTask::AlterTable(task), id),
            );
            let named = (world.table_name)(task.name());
            let table_id = named->Ok_0->0.table_id;
            let stored = (world.table_info)(table_id);
            let args = AlterTableArgs {
                cluster_id,
                task,
                table_info_value: stored->Ok_0->0,
                context: ddl_manager@.context(),
            };
            let built = (world.build_alter_table)(args);
            let metadata = ddl_manager@.table_metadata_manager;
            &&& 1 <= calls.len() <= 5
            &&& calls[0] == Call::<B>::GetTableName { metadata, name: task.name() }
            &&& calls.len() > 1 <==> named is Ok && named->Ok_0 is Some
            &&& calls.len() > 1 ==> calls[1] == Call::<B>::GetTableInfo { metadata, table_id }
            &&& calls.len() > 2 <==> calls.len() > 1 && stored is Ok && stored->Ok_0 is Some
            &&& calls.len() > 2 ==> calls[2] == Call::BuildAlterTable { args }
            &&& calls.len() > 3 <==> calls.len() > 2 && built is Ok
            &&& calls.len() > 3 ==> calls[3] == Call::<B>::Submit {
                procedure_manager: ddl_manager@.procedure_manager,
                procedure: ProcedureWithId { id, procedure: DdlProcedure::AlterTable(built->Ok_0) },
            }
        }),
{
    reveal_with_fuel(calls, 4);
    reveal_with_fuel(submission_calls, 4);
}

/// No call is made twice, so a world that replies to each call once replies in
/// every way that collaborators can.
pub proof fn law_no_call_is_repeated<B: Backend>(
    world: World<B>,
    ddl_manager: &DdlManager<B>,
    cluster_id: u64,
    task: DdlTask<B>,
    id: ProcedureId,
)
    ensures
        calls(world, first_step(ddl_manager, cluster_id, task, id)).no_duplicates(),
{
    reveal_with_fuel(calls, 4);
    reveal_with_fuel(submission_calls, 4);
}

/// Two worlds that reply alike to the calls that a task makes in the first of
/// them see the same calls and the same outcome: nothing but the replies
/// decides.
pub proof fn law_only_replies_decide<B: Backend>(
    one: World<B>,
    other: World<B>,
    ddl_manager: &DdlManager<B>,
    cluster_id: u64,
    task: DdlTask<B>,
    id: ProcedureId,
)
    requires
        ({
            let calls = calls(one, first_step(ddl_manager, cluster_id, task, id));
            forall|i: int| 0 <= i < calls.len() ==> same_reply(one, other, #[trigger] calls[i])
        }),
    ensures
        ({
            let step = first_step(ddl_manager, cluster_id, task, id);
            &&& calls(one, step) == calls(other, step)
            &&& outcome(one, step) == outcome(other, step)
        }),
{
    reveal_with_fuel(calls, 4);
    reveal_with_fuel(outcome, 4);
    reveal_with_fuel(submission_calls, 4);
    reveal_with_fuel(submission_outcome, 4);
    let made = calls(one, first_step(ddl_manager, cluster_id, task, id));
    assert(same_reply(one, other, made[0]));
    if made.len() > 1 {
        assert(same_reply(one, other, made[1]));
    }
    if made.len() > 2 {
        assert(same_reply(one, other, made[2]));
    }
    if made.len() > 3 {
        assert(same_reply(one, other, made[3]));
    }
    if made.len() > 4 {
        assert(same_reply(one, other, made[4]));
    }
}

/// Whether two worlds reply alike to a call.
pub open spec fn same_reply<B: Backend>(one: World<B>, other: World<B>, call: Call<B>) -> bool {
    match call {
        Call::GetTableName { name, .. } => (one.table_name)(name) == (other.table_name)(name),
        Call::GetTableInfo { table_id, .. } => (one.table_info)(table_id) == (other.table_info)(
            table_id,
        ),
        Call::GetFullTableInfo { table_id, .. } => (one.full_table_info)(table_id) == (
        other.full_table_info)(table_id),
        Call::AllocateTable { context, table_info, partitions, .. } => (one.allocate)(
            context,
            table_info,
            partitions,
        ) == (other.allocate)(context, table_info, partitions),
        Call::BuildAlterTable { args } => (one.build_alter_table)(args) == (
        other.build_alter_table)(args),
        Call::Submit { procedure, .. } => (one.submit)(procedure) == (other.submit)(procedure),
        Call::Wait { watcher } => (one.wait)(watcher) == (other.wait)(watcher),
    }
}

/// The kinds of procedures, in the order in which their loaders are registered.
pub open spec fn loader_order() -> Seq<ProcedureKind> {
    seq![
        ProcedureKind::CreateTable,
        ProcedureKind::DropTable,
        ProcedureKind::AlterTable,
        ProcedureKind::TruncateTable,
    ]
}

/// Making a manager registers the loaders in order, each with the manager's
/// context, and stops at the first that is refused. The manager is made, with
/// its collaborators, exactly if all four were registered; otherwise the error
/// names the loader that was refused and says why.
pub proof fn law_registration<B: Backend>(world: World<B>, collaborators: Collaborators<B>)
    ensures
        ({
            let start = registering(collaborators, ProcedureKind::CreateTable);
            let loaders = loaders(world, start);
            let last = loaders.last();
            &&& 1 <= loaders.len() <= 4
            &&& forall|i: int| 0 <= i < loaders.len() ==> (#[trigger] loaders[i]) == (Loader {
                kind: loader_order()[i],
                context: collaborators.context(),
            })
            &&& forall|i: int|
                0 <= i < loaders.len() - 1 ==> (world.register_loader)(#[trigger] loaders[i]) is Ok
            &&& match (world.register_loader)(last) {
                Ok(_) => {
                    &&& loaders.len() == 4
                    &&& registration_outcome(world, start) == Ok::<_, ErrorView<B>>(collaborators)
                },
                Err(source) => registration_outcome(world, start) == Err::<Collaborators<B>, _>(
                    ErrorView::<B>::RegisterProcedureLoader {
                        procedure_type: last.kind.name(),
                        source,
                    },
                ),
            }
        }),
{
    reveal_with_fuel(loaders, 5);
    reveal_with_fuel(registration_outcome, 5);
}

/// No two kinds of procedures share a name, so no loader shadows another.
pub proof fn law_loader_names_are_distinct(one: ProcedureKind, other: ProcedureKind)
    ensures
        one.name() == other.name() ==> one == other,
{
    reveal_strlit("metasrv-procedure::CreateTable");
    reveal_strlit("metasrv-procedure::DropTable");
    reveal_strlit("metasrv-procedure::AlterTable");
    reveal_strlit("metasrv-procedure::TruncateTable");
    assert(ProcedureKind::CreateTable.name()[19] == 'C');
    assert(ProcedureKind::AlterTable.name()[19] == 'A');
    assert(ProcedureKind::DropTable.name()[19] == 'D');
    assert(ProcedureKind::TruncateTable.name()[19] == 'T');
}

/// Once a manager is made, the loader that was registered under the name of a
/// kind restores procedures of that kind and of no other: it parses the stored
/// form as one of that kind, with the manager's context, and hands on what the
/// parse gives, a procedure or an error, unchanged.
pub proof fn law_loader_restores_its_kind<B: Backend>(
    world: World<B>,
    collaborators: Collaborators<B>,
    kind: ProcedureKind,
    loader: Loader<B>,
    json: &str,
)
    requires
        ({
            let start = registering(collaborators, ProcedureKind::CreateTable);
            &&& registration_outcome(world, start) is Ok
            &&& loaders(world, start).contains(loader)
            &&& loader.kind.name() == kind.name()
        }),
    ensures
        ({
            let context = collaborators.context();
            let loaded = loaded(world, loader.loading(json));
            &&& match kind {
                ProcedureKind::CreateTable => match (world.create_table_from_json)(json@, context) {
                    Ok(p) => loaded matches Ok(q) && q == RestoredProcedure::<B>::CreateTable(p),
                    Err(error) => loaded matches Err(e) && e == error,
                },
                ProcedureKind::DropTable => match (world.drop_table_from_json)(json@, context) {
                    Ok(p) => loaded matches Ok(q) && q == RestoredProcedure::<B>::DropTable(p),
                    Err(error) => loaded matches Err(e) && e == error,
                },
                ProcedureKind::AlterTable => match (world.alter_table_from_json)(json@, context) {
                    Ok(p) => loaded matches Ok(q) && q == RestoredProcedure::<B>::AlterTable(p),
                    Err(error) => loaded matches Err(e) && e == error,
                },
                ProcedureKind::TruncateTable => match (world.truncate_table_from_json)(
                    json@,
                    context,
                ) {
                    Ok(p) => loaded matches Ok(q) && q == RestoredProcedure::<B>::TruncateTable(p),
                    Err(error) => loaded matches Err(e) && e == error,
                },
            }
            &&& loaded matches Ok(restored) ==> restored.kind() == kind
        }),
{
    law_registration(world, collaborators);
    law_loader_names_are_distinct(loader.kind, kind);
}

/// A loader can be used any number of times: whatever was loaded before, with
/// success or failure, each use parses its own stored form with the context of
/// the manager that registered the loader, and comes to what a first use of the
/// loader would.
pub proof fn law_loads_are_independent<'j, B: Backend>(
    world: World<B>,
    collaborators: Collaborators<B>,
    loader: Loader<B>,
    jsons: Seq<&'j str>,
)
    requires
        loaders(world, registering(collaborators, ProcedureKind::CreateTable)).contains(loader),
    ensures
        ({
            let loadings = loadings(loader, jsons);
            &&& loadings.len() == jsons.len()
            &&& forall|i: int| #![trigger loadings[i]]
                0 <= i < jsons.len() ==> {
                    &&& loadings[i].call().json == jsons[i]
                    &&& loadings[i].call().context == collaborators.context()
                    &&& loaded(world, loadings[i]) == loaded(world, loader.loading(jsons[i]))
                }
        }),
    decreases jsons.len(),
{
    law_registration(world, collaborators);
    if jsons.len() > 0 {
        law_loads_are_independent(world, collaborators, loader, jsons.drop_last());
    }
}

/// Whatever a manager submits can be restored: once the manager is made, a
/// loader of the procedure's kind, with the manager's context, is registered.
/// A manager comes out of a finished registration only.
pub proof fn law_submitted_procedures_have_loaders<B: Backend>(
    world: World<B>,
    ddl_manager: &DdlManager<B>,
    cluster_id: u64,
    task: DdlTask<B>,
    id: ProcedureId,
)
    requires
        registration_outcome(world, registering(ddl_manager@, ProcedureKind::CreateTable)) is Ok,
    ensures
        ({
            let loaders = loaders(world, registering(ddl_manager@, ProcedureKind::CreateTable));
            let calls = calls(world, first_step(ddl_manager, cluster_id, task, id));
            forall|i: int| #![trigger calls[i]]
                0 <= i < calls.len() && calls[i] is Submit ==> exists|j: int|
                    {
                        &&& 0 <= j < loaders.len()
                        &&& (#[trigger] loaders[j]) == (Loader {
                            kind: calls[i]->procedure.procedure.kind(),
                            context: ddl_manager@.context(),
                        })
                        &&& (world.register_loader)(loaders[j]) is Ok
                    }
        }),
{
    law_registration(world, ddl_manager@);
    let registered = loaders(world, registering(ddl_manager@, ProcedureKind::CreateTable));
    assert(registered.len() == 4);
    assert(registered[0].kind == ProcedureKind::CreateTable);
    assert(registered[1].kind == ProcedureKind::DropTable);
    assert(registered[2].kind == ProcedureKind::AlterTable);
    assert(registered[3].kind == ProcedureKind::TruncateTable);
}

/// Whatever is done for a request is done in the cluster that the request
/// names, and in cluster 0 where it names none: a table is allocated there, and
/// the procedure that is submitted, or the one that an alter procedure is made
/// from, is for that cluster.
pub proof fn law_cluster_of_the_request<B: Backend>(
    world: World<B>,
    ddl_manager: &DdlManager<B>,
    ctx: ExecutorContext,
    request: SubmitDdlTaskRequest<B>,
    id: ProcedureId,
)
    ensures
        ({
            let calls = calls(world, first_step(ddl_manager, ctx.cluster(), request.task, id));
            let cluster_id: u64 = if ctx.cluster_id is Some {
                ctx.cluster_id->0
            } else {
                0
            };
            forall|i: int| #![trigger calls[i]]
                0 <= i < calls.len() ==> match calls[i] {
                    Call::AllocateTable { context, .. } => context.cluster_id == cluster_id,
                    Call::BuildAlterTable { args } => args.cluster_id == cluster_id,
                    Call::Submit { procedure, .. } => match procedure.procedure {
                        DdlProcedure::CreateTable(p) => p.cluster_id == cluster_id,
                        DdlProcedure::DropTable(p) => p.cluster_id == cluster_id,
                        DdlProcedure::TruncateTable(p) => p.cluster_id == cluster_id,
                        DdlProcedure::AlterTable(_) => true,
                    },
                    _ => true,
                }
        }),
{
    reveal_with_fuel(calls, 4);
    reveal_with_fuel(submission_calls, 4);
}

/// The table of an alter task is looked up under the three texts of its
/// statement.
pub proof fn law_alter_looks_up_the_statement<B: Backend>(
    world: World<B>,
    ddl_manager: &DdlManager<B>,
    cluster_id: u64,
    task: AlterTableTask<B>,
    id: ProcedureId,
)
    ensures
        ({
            let calls = calls(
                world,
                first_step(ddl_manager, cluster_id, DdlTask::AlterTable(task), id),
            );
            &&& calls.len() > 0
            &&& calls[0] matches Call::GetTableName { name, .. }
            &&& name.catalog == task.alter_table.catalog_name@
            &&& name.schema == task.alter_table.schema_name@
            &&& name.table == task.alter_table.table_name@
        }),
{
    reveal_with_fuel(calls, 2);
}

/// The key of every response is the UTF-8 encoding of the whole text of the
/// procedure's id.
pub proof fn law_key_is_the_whole_id<B: Backend>(
    world: World<B>,
    ddl_manager: &DdlManager<B>,
    cluster_id: u64,
    task: DdlTask<B>,
    id: ProcedureId,
)
    ensures
        outcome(world, first_step(ddl_manager, cluster_id, task, id)) matches Ok(response) ==> {
            &&& response.key == encode_utf8(id.text@)
            &&& decode_utf8(response.key) == id.text@
        },
{
    reveal_with_fuel(outcome, 4);
    reveal_with_fuel(submission_outcome, 4);
    encode_utf8_decode_utf8(id.text@);
}

/// Requests that ran as procedures with different ids are answered with
/// different keys, whatever they asked for.
pub proof fn law_different_ids_have_different_keys<B: Backend>(
    world: World<B>,
    ddl_manager: &DdlManager<B>,
    cluster_id: u64,
    one_task: DdlTask<B>,
    one_id: ProcedureId,
    other_task: DdlTask<B>,
    other_id: ProcedureId,
)
    requires
        one_id.text@ != other_id.text@,
    ensures
        ({
            let one = outcome(world, first_step(ddl_manager, cluster_id, one_task, one_id));
            let other = outcome(world, first_step(ddl_manager, cluster_id, other_task, other_id));
            one is Ok && other is Ok ==> one->Ok_0.key != other->Ok_0.key
        }),
{
    law_key_is_the_whole_id(world, ddl_manager, cluster_id, one_task, one_id);
    law_key_is_the_whole_id(world, ddl_manager, cluster_id, other_task, other_id);
}

/// A create task is answered, reply by reply: the error of the allocation, the
/// refusal or the failure of the procedure that creates the allocated table, or
/// the id of that procedure with the id of the table.
pub proof fn law_answer_to_create_table<B: Backend>(
    world: World<B>,
    ddl_manager: &DdlManager<B>,
    cluster_id: u64,
    task: CreateTableTask<B>,
    id: ProcedureId,
)
    ensures
        ({
            let outcome = outcome(
                world,
                first_step(ddl_manager, cluster_id, DdlTask::CreateTable(task), id),
            );
            let context = DdlContext {
                datanode_manager: ddl_manager@.datanode_manager,
                cache_invalidator: ddl_manager@.cache_invalidator,
                table_metadata_manager: ddl_manager@.table_metadata_manager,
                memory_region_keeper: ddl_manager@.memory_region_keeper,
            };
            let (table_info, allocation) = (world.allocate)(
                TableMetadataAllocatorContext { cluster_id },
                task.table_info,
                task.partitions,
            );
            match allocation {
                Err(error) => {
                    &&& outcome matches Err(ErrorView::Forwarded(source))
                    &&& source == error
                },
                Ok((table_id, region_routes)) => match (world.submit)(
                    ProcedureWithId {
                        id,
                        procedure: DdlProcedure::CreateTable(
                            CreateTableProcedure {
                                cluster_id,
                                task: CreateTableTask {
                                    create_table: task.create_table,
                                    partitions: task.partitions,
                                    table_info,
                                },
                                region_routes,
                                context,
                            },
                        ),
                    },
                ) {
                    Err(error) => {
                        &&& outcome matches Err(ErrorView::SubmitProcedure { source })
                        &&& source == error
                    },
                    Ok(watcher) => match (world.wait)(watcher) {
                        Err(error) => {
                            &&& outcome matches Err(ErrorView::WaitProcedure { source })
                            &&& source == error
                        },
                        Ok(_) => {
                            &&& outcome matches Ok(response)
                            &&& response.key == encode_utf8(id.text@)
                            &&& response.table_id == Some(table_id)
                        },
                    },
                },
            }
        }),
{
    reveal_with_fuel(outcome, 4);
    reveal_with_fuel(submission_outcome, 4);
}

/// A drop task is answered, reply by reply: the error of the read, the missing
/// description or routes with the three texts of the task joined by dots, the
/// refusal or the failure of the procedure that drops the table, or the id of
/// that procedure.
pub proof fn law_answer_to_drop_table<B: Backend>(
    world: World<B>,
    ddl_manager: &DdlManager<B>,
    cluster_id: u64,
    task: DropTableTask,
    id: ProcedureId,
)
    ensures
        ({
            let outcome = outcome(
                world,
                first_step(ddl_manager, cluster_id, DdlTask::DropTable(task), id),
            );
            let context = DdlContext {
                datanode_manager: ddl_manager@.datanode_manager,
                cache_invalidator: ddl_manager@.cache_invalidator,
                table_metadata_manager: ddl_manager@.table_metadata_manager,
                memory_region_keeper: ddl_manager@.memory_region_keeper,
            };
            let full_name = task.catalog@ + seq!['.'] + task.schema@ + seq!['.'] + task.table@;
            match (world.full_table_info)(task.table_id) {
                Err(error) => {
                    &&& outcome matches Err(ErrorView::Forwarded(source))
                    &&& source == error
                },
                Ok((None, _)) => {
                    &&& outcome matches Err(ErrorView::TableInfoNotFound { table_name })
                    &&& table_name =~= full_name
                },
                Ok((Some(_), None)) => {
                    &&& outcome matches Err(ErrorView::TableRouteNotFound { table_name })
                    &&& table_name =~= full_name
                },
                Ok((Some(table_info_value), Some(table_route_value))) => match (world.submit)(
                    ProcedureWithId {
                        id,
                        procedure: DdlProcedure::DropTable(
                            DropTableProcedure {
                                cluster_id,
                                task,
                                table_route_value,
                                table_info_value,
                                context,
                            },
                        ),
                    },
                ) {
                    Err(error) => {
                        &&& outcome matches Err(ErrorView::SubmitProcedure { source })
                        &&& source == error
                    },
                    Ok(watcher) => match (world.wait)(watcher) {
                        Err(error) => {
                            &&& outcome matches Err(ErrorView::WaitProcedure { source })
                            &&& source == error
                        },
                        Ok(_) => {
                            &&& outcome matches Ok(response)
                            &&& response.key == encode_utf8(id.text@)
                            &&& response.table_id == None::<TableId>
                        },
                    },
                },
            }
        }),
{
    reveal_with_fuel(outcome, 4);
    reveal_with_fuel(submission_outcome, 4);
}

/// A truncate task is answered, reply by reply: the error of the read, the missing
/// description or routes with the three texts of the task joined by dots, the
/// refusal or the failure of the procedure that truncates the table, or the id of
/// that procedure.
pub proof fn law_answer_to_truncate_table<B: Backend>(
    world: World<B>,
    ddl_manager: &DdlManager<B>,
    cluster_id: u64,
    task: TruncateTableTask,
    id: ProcedureId,
)
    ensures
        ({
            let outcome = outcome(
                world,
                first_step(ddl_manager, cluster_id, DdlTask::TruncateTable(task), id),
            );
            let context = DdlContext {
                datanode_manager: ddl_manager@.datanode_manager,
                cache_invalidator: ddl_manager@.cache_invalidator,
                table_metadata_manager: ddl_manager@.table_metadata_manager,
                memory_region_keeper: ddl_manager@.memory_region_keeper,
            };
            let full_name = task.catalog@ + seq!['.'] + task.schema@ + seq!['.'] + task.table@;
            match (world.full_table_info)(task.table_id) {
                Err(error) => {
                    &&& outcome matches Err(ErrorView::Forwarded(source))
                    &&& source == error
                },
                Ok((None, _)) => {
                    &&& outcome matches Err(ErrorView::TableInfoNotFound { table_name })
                    &&& table_name =~= full_name
                },
                Ok((Some(_), None)) => {
                    &&& outcome matches Err(ErrorView::TableRouteNotFound { table_name })
                    &&& table_name =~= full_name
                },
                Ok((Some(table_info_value), Some(table_route_value))) => match (world.submit)(
                    ProcedureWithId {
                        id,
                        procedure: DdlProcedure::TruncateTable(
                            TruncateTableProcedure {
                                cluster_id,
                                task,
                                table_info_value,
                                region_routes: table_route_value.inner.region_routes,
                                context,
                            },
                        ),
                    },
                ) {
                    Err(error) => {
                        &&& outcome matches Err(ErrorView::SubmitProcedure { source })
                        &&& source == error
                    },
                    Ok(watcher) => match (world.wait)(watcher) {
                        Err(error) => {
                            &&& outcome matches Err(ErrorView::WaitProcedure { source })
                            &&& source == error
                        },
                        Ok(_) => {
                            &&& outcome matches Ok(response)
                            &&& response.key == encode_utf8(id.text@)
                            &&& response.table_id == None::<TableId>
                        },
                    },
                },
            }
        }),
{
    reveal_with_fuel(outcome, 4);
    reveal_with_fuel(submission_outcome, 4);
}

/// An alter task is answered, reply by reply: the error of a read, the missing
/// name or description with the three texts of the statement joined by dots,
/// the error of making the procedure, its refusal or failure, or its id.
pub proof fn law_answer_to_alter_table<B: Backend>(
    world: World<B>,
    ddl_manager: &DdlManager<B>,
    cluster_id: u64,
    task: AlterTableTask<B>,
    id: ProcedureId,
)
    ensures
        ({
            let outcome = outcome(
                world,
                first_step(ddl_manager, cluster_id, DdlTask::AlterTable(task), id),
            );
            let context = DdlContext {
                datanode_manager: ddl_manager@.datanode_manager,
                cache_invalidator: ddl_manager@.cache_invalidator,
                table_metadata_manager: ddl_manager@.table_metadata_manager,
                memory_region_keeper: ddl_manager@.memory_region_keeper,
            };
            let statement = task.alter_table;
            let name = QualifiedName {
                catalog: statement.catalog_name@,
                schema: statement.schema_name@,
                table: statement.table_name@,
            };
            let full_name = statement.catalog_name@ + seq!['.'] + statement.schema_name@ + seq!['.']
                + statement.table_name@;
            match (world.table_name)(name) {
                Err(error) => {
                    &&& outcome matches Err(ErrorView::Forwarded(source))
                    &&& source == error
                },
                Ok(None) => {
                    &&& outcome matches Err(ErrorView::TableNotFound { table_name })
                    &&& table_name =~= full_name
                },
                Ok(Some(value)) => match (world.table_info)(value.table_id) {
                    Err(error) => {
                        &&& outcome matches Err(ErrorView::Forwarded(source))
                        &&& source == error
                    },
                    Ok(None) => {
                        &&& outcome matches Err(ErrorView::TableInfoNotFound { table_name })
                        &&& table_name =~= full_name
                    },
                    Ok(Some(table_info_value)) => match (world.build_alter_table)(
                        AlterTableArgs { cluster_id, task, table_info_value, context },
                    ) {
                        Err(error) => {
                            &&& outcome matches Err(ErrorView::Forwarded(source))
                            &&& source == error
                        },
                        Ok(procedure) => match (world.submit)(
                            ProcedureWithId { id, procedure: DdlProcedure::AlterTable(procedure) },
                        ) {
                            Err(error) => {
                                &&& outcome matches Err(ErrorView::SubmitProcedure { source })
                                &&& source == error
                            },
                            Ok(watcher) => match (world.wait)(watcher) {
                                Err(error) => {
                                    &&& outcome matches Err(ErrorView::WaitProcedure { source })
                                    &&& source == error
                                },
                                Ok(_) => {
                                    &&& outcome matches Ok(response)
                                    &&& response.key == encode_utf8(id.text@)
                                    &&& response.table_id == None::<TableId>
                                },
                            },
                        },
                    },
                },
            }
        }),
{
    reveal_with_fuel(outcome, 4);
    reveal_with_fuel(submission_outcome, 4);
}

/// A manager that is made has had four loaders registered: for create, drop,
/// alter and truncate procedures, in this order, each with the collaborators of
/// the manager.
pub proof fn law_four_loaders<B: Backend>(world: World<B>, collaborators: Collaborators<B>)
    ensures
        ({
            let start = registering(collaborators, ProcedureKind::CreateTable);
            let loaders = loaders(world, start);
            let context = DdlContext {
                datanode_manager: collaborators.datanode_manager,
                cache_invalidator: collaborators.cache_invalidator,
                table_metadata_manager: collaborators.table_metadata_manager,
                memory_region_keeper: collaborators.memory_region_keeper,
            };
            let create = Loader::<B> { kind: ProcedureKind::CreateTable, context };
            let drop = Loader::<B> { kind: ProcedureKind::DropTable, context };
            let alter = Loader::<B> { kind: ProcedureKind::AlterTable, context };
            let truncate = Loader::<B> { kind: ProcedureKind::TruncateTable, context };
            let accepts = |loader: Loader<B>| (world.register_loader)(loader) is Ok;
            &&& (registration_outcome(world, start) is Ok <==> accepts(create) && accepts(drop)
                && accepts(alter) && accepts(truncate))
            &&& registration_outcome(world, start) matches Ok(made) ==> {
                &&& made == collaborators
                &&& loaders =~= seq![create, drop, alter, truncate]
            }
        }),
{
    reveal_with_fuel(loaders, 5);
    reveal_with_fuel(registration_outcome, 5);
}

} // verus!
