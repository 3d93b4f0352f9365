use std::sync::Arc;
use vstd::prelude::*;

use crate::backend::{Backend, TableId};
use crate::ddl_manager::{
    after_registering, after_waiting, Collaborators, RegistrationView, SubmissionView,
};
use crate::error::ErrorView;
use crate::handler::{responding, StepView};
use crate::key::{TableInfo, TableRoute};
use crate::loader::{Loader, Loading, RestoredProcedure};
use crate::procedure::{AlterTableArgs, DdlContext, ProcedureId, ProcedureKind, ProcedureWithId};
use crate::rpc::{DdlTask, SubmitDdlTaskResponseView, TableMetadataAllocatorContext};
use crate::table_name::{QualifiedName, TableNameValue};

verus! {

/// How the collaborators of a manager reply, whatever they do: a reply for
/// each call that could be made.
#[verifier::reject_recursive_types(B)]
pub struct World<B: Backend> {
    pub table_name: spec_fn(QualifiedName) -> Result<Option<TableNameValue>, B::Error>,
    pub table_info: spec_fn(TableId) -> Result<Option<TableInfo<B>>, B::Error>,
    pub full_table_info: spec_fn(TableId) -> Result<
        (Option<TableInfo<B>>, Option<TableRoute<B>>),
        B::Error,
    >,
    /// The description as the allocator leaves it, and what it allocates.
    pub allocate: spec_fn(TableMetadataAllocatorContext, B::RawTableInfo, Vec<B::Partition>) -> (
        B::RawTableInfo,
        Result<(TableId, Vec<B::RegionRoute>), B::Error>,
    ),
    pub build_alter_table: spec_fn(AlterTableArgs<B>) -> Result<B::AlterTableProcedure, B::Error>,
    pub submit: spec_fn(ProcedureWithId<B>) -> Result<B::Watcher, B::ProcedureError>,
    pub wait: spec_fn(B::Watcher) -> Result<(), B::ProcedureError>,
    pub register_loader: spec_fn(Loader<B>) -> Result<(), B::ProcedureError>,
    pub create_table_from_json: spec_fn(Seq<char>, DdlContext<B>) -> Result<
        B::RestoredCreateTable,
        B::ProcedureError,
    >,
    pub drop_table_from_json: spec_fn(Seq<char>, DdlContext<B>) -> Result<
        B::RestoredDropTable,
        B::ProcedureError,
    >,
    pub alter_table_from_json: spec_fn(Seq<char>, DdlContext<B>) -> Result<
        B::AlterTableProcedure,
        B::ProcedureError,
    >,
    pub truncate_table_from_json: spec_fn(Seq<char>, DdlContext<B>) -> Result<
        B::RestoredTruncateTable,
        B::ProcedureError,
    >,
}

/// A call that is made while a task is executed, with the collaborator that
/// it is made to.
pub enum Call<B: Backend> {
    GetTableName { metadata: Arc<B::TableMetadataManager>, name: QualifiedName },
    GetTableInfo { metadata: Arc<B::TableMetadataManager>, table_id: TableId },
    GetFullTableInfo { metadata: Arc<B::TableMetadataManager>, table_id: TableId },
    AllocateTable {
        allocator: Arc<B::TableMetadataAllocator>,
        context: TableMetadataAllocatorContext,
        table_info: B::RawTableInfo,
        partitions: Vec<B::Partition>,
    },
    BuildAlterTable { args: AlterTableArgs<B> },
    Submit { procedure_manager: Arc<B::ProcedureManager>, procedure: ProcedureWithId<B> },
    Wait { watcher: B::Watcher },
}

/// Whether the reply lets the execution of the task go on: nothing failed, and
/// what was asked for was found.
pub open spec fn accepted<B: Backend>(world: World<B>, call: Call<B>) -> bool {
    match call {
        Call::GetTableName { name, .. } => (world.table_name)(name) matches Ok(Some(_)),
        Call::GetTableInfo { table_id, .. } => (world.table_info)(table_id) matches Ok(Some(_)),
        Call::GetFullTableInfo { table_id, .. } =>
            (world.full_table_info)(table_id) matches Ok((Some(_), Some(_))),
        Call::AllocateTable { context, table_info, partitions, .. } =>
            (world.allocate)(context, table_info, partitions).1 is Ok,
        Call::BuildAlterTable { args } => (world.build_alter_table)(args) is Ok,
        Call::Submit { procedure, .. } => (world.submit)(procedure) is Ok,
        Call::Wait { watcher } => (world.wait)(watcher) is Ok,
    }
}

/// The error that reports a reply which is not accepted, for a task on the
/// table with this full name.
pub open spec fn refusal<B: Backend>(
    world: World<B>,
    table_name: Seq<char>,
    call: Call<B>,
) -> ErrorView<B> {
    match call {
        Call::GetTableName { name, .. } => match (world.table_name)(name) {
            Ok(_) => ErrorView::TableNotFound { table_name },
            Err(error) => ErrorView::Forwarded(error),
        },
        Call::GetTableInfo { table_id, .. } => match (world.table_info)(table_id) {
            Ok(_) => ErrorView::TableInfoNotFound { table_name },
            Err(error) => ErrorView::Forwarded(error),
        },
        Call::GetFullTableInfo { table_id, .. } => match (world.full_table_info)(table_id) {
            Ok((None, _)) => ErrorView::TableInfoNotFound { table_name },
            Ok((Some(_), _)) => ErrorView::TableRouteNotFound { table_name },
            Err(error) => ErrorView::Forwarded(error),
        },
        Call::AllocateTable { context, table_info, partitions, .. } => ErrorView::Forwarded(
            (world.allocate)(context, table_info, partitions).1->Err_0,
        ),
        Call::BuildAlterTable { args } => ErrorView::Forwarded(
            (world.build_alter_table)(args)->Err_0,
        ),
        Call::Submit { procedure, .. } => ErrorView::SubmitProcedure {
            source: (world.submit)(procedure)->Err_0,
        },
        Call::Wait { watcher } => ErrorView::WaitProcedure { source: (world.wait)(watcher)->Err_0 },
    }
}

/// The full name of the table that a task is on. A task that creates a table
/// is on none yet.
pub open spec fn table_name_of<B: Backend>(task: DdlTask<B>) -> Seq<char> {
    match task {
        DdlTask::CreateTable(_) => Seq::empty(),
        DdlTask::DropTable(task) => task.name().full_name(),
        DdlTask::AlterTable(task) => task.name().full_name(),
        DdlTask::TruncateTable(task) => task.name().full_name(),
    }
}

/// How many calls a submission can still make.
pub open spec fn calls_left_in_submission<'a, B: Backend>(submission: SubmissionView<'a, B>) -> nat {
    match submission {
        SubmissionView::BuildAlterTable(..) => 3,
        SubmissionView::Submit(..) => 2,
        SubmissionView::Wait(..) => 1,
        SubmissionView::Done(_) => 0,
    }
}

/// The calls that a submission makes from here on, in order.
pub open spec fn submission_calls<'a, B: Backend>(
    world: World<B>,
    submission: SubmissionView<'a, B>,
) -> Seq<Call<B>>
    decreases calls_left_in_submission(submission),
{
    match submission {
        SubmissionView::BuildAlterTable(args, state) => seq![Call::BuildAlterTable { args }]
            + submission_calls(world, state.after_building((world.build_alter_table)(args))),
        SubmissionView::Submit(procedure, state) => seq![
            Call::Submit { procedure_manager: state.ddl_manager@.procedure_manager, procedure },
        ] + submission_calls(world, state.after_submitting((world.submit)(procedure))),
        SubmissionView::Wait(watcher, _) => seq![Call::Wait { watcher }],
        SubmissionView::Done(_) => Seq::empty(),
    }
}

/// What a submission comes to.
pub open spec fn submission_outcome<'a, B: Backend>(
    world: World<B>,
    submission: SubmissionView<'a, B>,
) -> Result<ProcedureId, ErrorView<B>>
    decreases calls_left_in_submission(submission),
{
    match submission {
        SubmissionView::BuildAlterTable(args, state) => submission_outcome(
            world,
            state.after_building((world.build_alter_table)(args)),
        ),
        SubmissionView::Submit(procedure, state) => submission_outcome(
            world,
            state.after_submitting((world.submit)(procedure)),
        ),
        SubmissionView::Wait(watcher, id) => after_waiting(id, (world.wait)(watcher)),
        SubmissionView::Done(result) => result,
    }
}

/// How many reads and allocations a task can still ask for, and whether its
/// procedure is still to come.
pub open spec fn steps_left<'a, B: Backend>(step: StepView<'a, B>) -> nat {
    match step {
        StepView::GetTableName(..) => 3,
        StepView::GetTableInfo(..) => 2,
        StepView::GetFullTableInfo(..) => 2,
        StepView::AllocateTable(..) => 2,
        StepView::Procedure(..) => 1,
        StepView::Done(_) => 0,
    }
}

/// The calls that a task makes from here on, in order.
pub open spec fn calls<'a, B: Backend>(world: World<B>, step: StepView<'a, B>) -> Seq<Call<B>>
    decreases steps_left(step),
{
    match step {
        StepView::GetTableName(name, state) => seq![
            Call::GetTableName { metadata: state.ddl_manager@.table_metadata_manager, name },
        ] + calls(world, state.after_table_name((world.table_name)(name))),
        StepView::GetTableInfo(table_id, state) => seq![
            Call::GetTableInfo { metadata: state.ddl_manager@.table_metadata_manager, table_id },
        ] + calls(world, state.after_table_info((world.table_info)(table_id))),
        StepView::GetFullTableInfo(table_id, state) => seq![
            Call::GetFullTableInfo { metadata: state.ddl_manager@.table_metadata_manager, table_id },
        ] + calls(world, state.after((world.full_table_info)(table_id))),
        StepView::AllocateTable(call, state) => {
            let (table_info, reply) = (world.allocate)(
                call.context,
                call.table_info,
                state.partitions,
            );
            seq![
                Call::AllocateTable {
                    allocator: state.ddl_manager@.table_meta_allocator,
                    context: call.context,
                    table_info: call.table_info,
                    partitions: state.partitions,
                },
            ] + calls(world, state.after(table_info, reply))
        },
        StepView::Procedure(submission, _) => submission_calls(world, submission),
        StepView::Done(_) => Seq::empty(),
    }
}

/// What a task comes to.
pub open spec fn outcome<'a, B: Backend>(world: World<B>, step: StepView<'a, B>) -> Result<
    SubmitDdlTaskResponseView,
    ErrorView<B>,
>
    decreases steps_left(step),
{
    match step {
        StepView::GetTableName(name, state) => outcome(
            world,
            state.after_table_name((world.table_name)(name)),
        ),
        StepView::GetTableInfo(table_id, state) => outcome(
            world,
            state.after_table_info((world.table_info)(table_id)),
        ),
        StepView::GetFullTableInfo(table_id, state) => outcome(
            world,
            state.after((world.full_table_info)(table_id)),
        ),
        StepView::AllocateTable(call, state) => {
            let (table_info, reply) = (world.allocate)(
                call.context,
                call.table_info,
                state.partitions,
            );
            outcome(world, state.after(table_info, reply))
        },
        StepView::Procedure(submission, table_id) => responding(
            table_id,
            submission_outcome(world, submission),
        ),
        StepView::Done(result) => result,
    }
}

/// How many loaders are still to be registered.
pub open spec fn loaders_left<B: Backend>(registration: RegistrationView<B>) -> nat {
    match registration {
        RegistrationView::RegisterLoader(_, _, kind) => match kind {
            ProcedureKind::CreateTable => 4,
            ProcedureKind::DropTable => 3,
            ProcedureKind::AlterTable => 2,
            ProcedureKind::TruncateTable => 1,
        },
        RegistrationView::Done(_) => 0,
    }
}

/// The loaders that are handed to the procedure manager from here on, in order.
pub open spec fn loaders<B: Backend>(
    world: World<B>,
    registration: RegistrationView<B>,
) -> Seq<Loader<B>>
    decreases loaders_left(registration),
{
    match registration {
        RegistrationView::RegisterLoader(loader, collaborators, kind) => seq![loader] + loaders(
            world,
            after_registering(collaborators, kind, (world.register_loader)(loader)),
        ),
        RegistrationView::Done(_) => Seq::empty(),
    }
}

/// What making a manager comes to.
pub open spec fn registration_outcome<B: Backend>(
    world: World<B>,
    registration: RegistrationView<B>,
) -> Result<Collaborators<B>, ErrorView<B>>
    decreases loaders_left(registration),
{
    match registration {
        RegistrationView::RegisterLoader(loader, collaborators, kind) => registration_outcome(
            world,
            after_registering(collaborators, kind, (world.register_loader)(loader)),
        ),
        RegistrationView::Done(result) => result,
    }
}

/// What restoring a procedure comes to.
pub open spec fn loaded<'j, B: Backend>(world: World<B>, loading: Loading<'j, B>) -> Result<
    RestoredProcedure<B>,
    B::ProcedureError,
> {
    let json = loading.call().json@;
    let context = loading.call().context;
    match loading {
        Loading::CreateTable(_, pending) => pending.after(
            (world.create_table_from_json)(json, context),
        ),
        Loading::DropTable(_, pending) => pending.after(
            (world.drop_table_from_json)(json, context),
        ),
        Loading::AlterTable(_, pending) => pending.after(
            (world.alter_table_from_json)(json, context),
        ),
        Loading::TruncateTable(_, pending) => pending.after(
            (world.truncate_table_from_json)(json, context),
        ),
    }
}

/// The steps of using a loader again and again, one for each stored form.
pub open spec fn loadings<'j, B: Backend>(
    loader: Loader<B>,
    jsons: Seq<&'j str>,
) -> Seq<Loading<'j, B>>
    decreases jsons.len(),
{
    if jsons.len() == 0 {
        Seq::empty()
    } else {
        loadings(loader, jsons.drop_last()).push(loader.loading(jsons.last()))
    }
}

} // verus!
