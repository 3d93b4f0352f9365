use vstd::prelude::*;
use vstd::utf8::encode_utf8;

use crate::backend::{Backend, TableId};
use crate::ddl_manager::{submitting, DdlManager, Submission, SubmissionState, SubmissionView};
use crate::error::{error_view, Error, ErrorView};
use crate::key::{TableInfo, TableRoute};
use crate::procedure::{
    AlterTableArgs, CreateTableProcedure, DdlProcedure, DropTableProcedure, ProcedureId,
    TruncateTableProcedure,
};
use crate::rpc::{
    AlterTableTask, CreateTableTask, DdlTask, DropTableTask, ExecutorContext, SubmitDdlTaskRequest,
    SubmitDdlTaskResponse, SubmitDdlTaskResponseView, TableMetadataAllocatorContext,
    TruncateTableTask,
};
use crate::table_name::{QualifiedName, TableNameKey, TableNameValue};

verus! {

/// A step of executing a DDL task.
pub enum Step<'a, B: Backend> {
    /// Read from the metadata store what it keeps under a table's name.
    GetTableName(TableNameKey, TableNamePending<'a, B>),
    /// Read from the metadata store the description of a table.
    GetTableInfo(TableId, TableInfoPending<'a, B>),
    /// Read from the metadata store the description and the routes of a table.
    GetFullTableInfo(TableId, FullTableInfoPending<'a, B>),
    /// Allocate a table. The allocator may change the description, and reads
    /// the partitions of the pending task.
    AllocateTable(AllocateTableCall<B>, AllocateTablePending<'a, B>),
    /// Follow the submission to its end.
    Procedure(Submission<'a, B>, ProcedurePending),
    /// Either the task is executed, or something failed.
    Done(Result<SubmitDdlTaskResponse, Error<B>>),
}

/// What an alter task keeps until its procedure is made.
pub struct AlterState<'a, B: Backend> {
    pub ddl_manager: &'a DdlManager<B>,
    pub cluster_id: u64,
    pub task: AlterTableTask<B>,
    pub id: ProcedureId,
}

/// An alter task while the id of its table is looked up.
pub struct TableNamePending<'a, B: Backend> {
    state: AlterState<'a, B>,
}

impl<'a, B: Backend> View for TableNamePending<'a, B> {
    type V = AlterState<'a, B>;

    closed spec fn view(&self) -> AlterState<'a, B> {
        self.state
    }
}

/// An alter task while the description of its table is read.
pub struct TableInfoPending<'a, B: Backend> {
    state: AlterState<'a, B>,
}

impl<'a, B: Backend> View for TableInfoPending<'a, B> {
    type V = AlterState<'a, B>;

    closed spec fn view(&self) -> AlterState<'a, B> {
        self.state
    }
}

/// A task on a whole table.
pub enum WholeTableTask {
    Drop(DropTableTask),
    Truncate(TruncateTableTask),
}

/// What a task on a whole table keeps until its procedure is made.
pub struct WholeTableState<'a, B: Backend> {
    pub ddl_manager: &'a DdlManager<B>,
    pub cluster_id: u64,
    pub task: WholeTableTask,
    pub id: ProcedureId,
}

/// A task on a whole table while the description and the routes of the table
/// are read.
pub struct FullTableInfoPending<'a, B: Backend> {
    state: WholeTableState<'a, B>,
}

impl<'a, B: Backend> View for FullTableInfoPending<'a, B> {
    type V = WholeTableState<'a, B>;

    closed spec fn view(&self) -> WholeTableState<'a, B> {
        self.state
    }
}

/// What the allocator of a new table gets.
pub struct AllocateTableCall<B: Backend> {
    pub context: TableMetadataAllocatorContext,
    pub table_info: B::RawTableInfo,
}

/// What a create task keeps, besides its description, until its procedure is
/// made.
pub struct CreateState<'a, B: Backend> {
    pub ddl_manager: &'a DdlManager<B>,
    pub cluster_id: u64,
    pub create_table: B::CreateTableExpr,
    pub partitions: Vec<B::Partition>,
    pub id: ProcedureId,
}

/// A create task while the table is allocated.
pub struct AllocateTablePending<'a, B: Backend> {
    state: CreateState<'a, B>,
}

impl<'a, B: Backend> View for AllocateTablePending<'a, B> {
    type V = CreateState<'a, B>;

    closed spec fn view(&self) -> CreateState<'a, B> {
        self.state
    }
}

/// A task while its procedure is submitted and run.
pub struct ProcedurePending {
    table_id: Option<TableId>,
}

impl View for ProcedurePending {
    type V = Option<TableId>;

    closed spec fn view(&self) -> Option<TableId> {
        self.table_id
    }
}

/// A [`Step`], seen from outside.
pub enum StepView<'a, B: Backend> {
    GetTableName(QualifiedName, AlterState<'a, B>),
    GetTableInfo(TableId, AlterState<'a, B>),
    GetFullTableInfo(TableId, WholeTableState<'a, B>),
    AllocateTable(AllocateTableCall<B>, CreateState<'a, B>),
    /// The submission, and the table id that the response is to report.
    Procedure(SubmissionView<'a, B>, Option<TableId>),
    Done(Result<SubmitDdlTaskResponseView, ErrorView<B>>),
}

impl<'a, B: Backend> View for Step<'a, B> {
    type V = StepView<'a, B>;

    open spec fn view(&self) -> StepView<'a, B> {
        match *self {
            Step::GetTableName(key, pending) => StepView::GetTableName(key@, pending@),
            Step::GetTableInfo(table_id, pending) => StepView::GetTableInfo(table_id, pending@),
            Step::GetFullTableInfo(table_id, pending) => StepView::GetFullTableInfo(
                table_id,
                pending@,
            ),
            Step::AllocateTable(call, pending) => StepView::AllocateTable(call, pending@),
            Step::Procedure(submission, pending) => StepView::Procedure(submission@, pending@),
            Step::Done(Ok(response)) => StepView::Done(Ok(response@)),
            Step::Done(Err(error)) => StepView::Done(Err(error@)),
        }
    }
}

impl<'a, B: Backend> AlterState<'a, B> {
    /// The description of the table is read under the id that its name has.
    pub open spec fn after_table_name(
        self,
        reply: Result<Option<TableNameValue>, B::Error>,
    ) -> StepView<'a, B> {
        match reply {
            Ok(Some(value)) => StepView::GetTableInfo(value.table_id, self),
            Ok(None) => StepView::Done(
                Err(ErrorView::TableNotFound { table_name: self.task.name().full_name() }),
            ),
            Err(error) => StepView::Done(Err(ErrorView::Forwarded(error))),
        }
    }

    /// The procedure is made from the description that was read.
    pub open spec fn after_table_info(
        self,
        reply: Result<Option<TableInfo<B>>, B::Error>,
    ) -> StepView<'a, B> {
        match reply {
            Ok(Some(table_info_value)) => StepView::Procedure(
                SubmissionView::BuildAlterTable(
                    AlterTableArgs {
                        cluster_id: self.cluster_id,
                        task: self.task,
                        table_info_value,
                        context: self.ddl_manager@.context(),
                    },
                    SubmissionState { ddl_manager: self.ddl_manager, id: self.id },
                ),
                None,
            ),
            Ok(None) => StepView::Done(
                Err(ErrorView::TableInfoNotFound { table_name: self.task.name().full_name() }),
            ),
            Err(error) => StepView::Done(Err(ErrorView::Forwarded(error))),
        }
    }
}

impl<'a, B: Backend> TableNamePending<'a, B> {
    /// The manager whose metadata store is to be asked.
    pub fn ddl_manager(&self) -> (ddl_manager: &'a DdlManager<B>)
        ensures
            ddl_manager == self@.ddl_manager,
    {
        self.state.ddl_manager
    }

    /// Goes on with what the metadata store keeps under the name.
    pub fn resume(self, reply: Result<Option<TableNameValue>, B::Error>) -> (next: Step<'a, B>)
        ensures
            next@ == self@.after_table_name(reply),
    {
        match reply {
            Ok(Some(value)) => Step::GetTableInfo(
                value.table_id(),
                TableInfoPending { state: self.state },
            ),
            Ok(None) => Step::Done(
                Err(Error::TableNotFound { table_name: self.state.task.table_ref().to_string() }),
            ),
            Err(error) => Step::Done(Err(Error::Forwarded(error))),
        }
    }
}

impl<'a, B: Backend> TableInfoPending<'a, B> {
    /// The manager whose metadata store is to be asked.
    pub fn ddl_manager(&self) -> (ddl_manager: &'a DdlManager<B>)
        ensures
            ddl_manager == self@.ddl_manager,
    {
        self.state.ddl_manager
    }

    /// Goes on with the description of the table.
    pub fn resume(self, reply: Result<Option<TableInfo<B>>, B::Error>) -> (next: Step<'a, B>)
        ensures
            next@ == self@.after_table_info(reply),
    {
        let state = self.state;
        match reply {
            Ok(Some(table_info_value)) => Step::Procedure(
                state.ddl_manager.submit_alter_table_task(
                    state.cluster_id,
                    state.task,
                    table_info_value,
                    state.id,
                ),
                ProcedurePending { table_id: None },
            ),
            Ok(None) => Step::Done(
                Err(Error::TableInfoNotFound { table_name: state.task.table_ref().to_string() }),
            ),
            Err(error) => Step::Done(Err(Error::Forwarded(error))),
        }
    }
}

impl WholeTableTask {
    /// The name of the table, as text.
    pub open spec fn name(self) -> QualifiedName {
        match self {
            WholeTableTask::Drop(task) => task.name(),
            WholeTableTask::Truncate(task) => task.name(),
        }
    }
}

impl<'a, B: Backend> WholeTableState<'a, B> {
    /// The procedure that executes the task, given what is stored of the table.
    pub open spec fn procedure(
        self,
        table_info_value: TableInfo<B>,
        table_route_value: TableRoute<B>,
    ) -> DdlProcedure<B> {
        match self.task {
            WholeTableTask::Drop(task) => DdlProcedure::DropTable(
                DropTableProcedure {
                    cluster_id: self.cluster_id,
                    task,
                    table_route_value,
                    table_info_value,
                    context: self.ddl_manager@.context(),
                },
            ),
            WholeTableTask::Truncate(task) => DdlProcedure::TruncateTable(
                TruncateTableProcedure {
                    cluster_id: self.cluster_id,
                    task,
                    table_info_value,
                    region_routes: table_route_value.inner.region_routes,
                    context: self.ddl_manager@.context(),
                },
            ),
        }
    }

    /// The procedure is submitted where both the description and the routes
    /// were found. A missing description is reported before missing routes.
    pub open spec fn after(
        self,
        reply: Result<(Option<TableInfo<B>>, Option<TableRoute<B>>), B::Error>,
    ) -> StepView<'a, B> {
        let table_name = self.task.name().full_name();
        match reply {
            Ok((Some(table_info_value), Some(table_route_value))) => StepView::Procedure(
                submitting(
                    self.ddl_manager,
                    self.id,
                    self.procedure(table_info_value, table_route_value),
                ),
                None,
            ),
            Ok((None, _)) => StepView::Done(Err(ErrorView::TableInfoNotFound { table_name })),
            Ok((Some(_), None)) => StepView::Done(
                Err(ErrorView::TableRouteNotFound { table_name }),
            ),
            Err(error) => StepView::Done(Err(ErrorView::Forwarded(error))),
        }
    }
}

impl<'a, B: Backend> FullTableInfoPending<'a, B> {
    /// The manager whose metadata store is to be asked.
    pub fn ddl_manager(&self) -> (ddl_manager: &'a DdlManager<B>)
        ensures
            ddl_manager == self@.ddl_manager,
    {
        self.state.ddl_manager
    }

    /// Goes on with the description and the routes of the table.
    pub fn resume(
        self,
        reply: Result<(Option<TableInfo<B>>, Option<TableRoute<B>>), B::Error>,
    ) -> (next: Step<'a, B>)
        ensures
            next@ == self@.after(reply),
    {
        let state = self.state;
        let (table_info_value, table_route_value) = match reply {
            Ok(values) => values,
            Err(error) => return Step::Done(Err(Error::Forwarded(error))),
        };
        let table_ref = match &state.task {
            WholeTableTask::Drop(task) => task.table_ref(),
            WholeTableTask::Truncate(task) => task.table_ref(),
        };
        let table_info_value = match table_info_value {
            Some(table_info_value) => table_info_value,
            None => return Step::Done(
                Err(Error::TableInfoNotFound { table_name: table_ref.to_string() }),
            ),
        };
        let table_route_value = match table_route_value {
            Some(table_route_value) => table_route_value,
            None => return Step::Done(
                Err(Error::TableRouteNotFound { table_name: table_ref.to_string() }),
            ),
        };
        let submission = match state.task {
            WholeTableTask::Drop(task) => state.ddl_manager.submit_drop_table_task(
                state.cluster_id,
                task,
                table_info_value,
                table_route_value,
                state.id,
            ),
            WholeTableTask::Truncate(task) => {
                let table_route = table_route_value.into_inner().region_routes;
                state.ddl_manager.submit_truncate_table_task(
                    state.cluster_id,
                    task,
                    table_info_value,
                    table_route,
                    state.id,
                )
            },
        };
        Step::Procedure(submission, ProcedurePending { table_id: None })
    }
}

impl<'a, B: Backend> CreateState<'a, B> {
    /// The procedure gets the task with the description as the allocator left
    /// it, and the routes that were allocated.
    pub open spec fn after(
        self,
        table_info: B::RawTableInfo,
        reply: Result<(TableId, Vec<B::RegionRoute>), B::Error>,
    ) -> StepView<'a, B> {
        match reply {
            Ok((table_id, region_routes)) => StepView::Procedure(
                submitting(
                    self.ddl_manager,
                    self.id,
                    DdlProcedure::CreateTable(
                        CreateTableProcedure {
                            cluster_id: self.cluster_id,
                            task: CreateTableTask {
                                create_table: self.create_table,
                                partitions: self.partitions,
                                table_info,
                            },
                            region_routes,
                            context: self.ddl_manager@.context(),
                        },
                    ),
                ),
                Some(table_id),
            ),
            Err(error) => StepView::Done(Err(ErrorView::Forwarded(error))),
        }
    }
}

impl<'a, B: Backend> AllocateTablePending<'a, B> {
    /// The manager whose allocator is to be asked.
    pub fn ddl_manager(&self) -> (ddl_manager: &'a DdlManager<B>)
        ensures
            ddl_manager == self@.ddl_manager,
    {
        self.state.ddl_manager
    }

    /// The partitions of the new table, which the allocator reads.
    pub fn partitions(&self) -> (partitions: &Vec<B::Partition>)
        ensures
            *partitions == self@.partitions,
    {
        &self.state.partitions
    }

    /// Goes on with the description as the allocator left it, and with what
    /// was allocated.
    pub fn resume(
        self,
        table_info: B::RawTableInfo,
        reply: Result<(TableId, Vec<B::RegionRoute>), B::Error>,
    ) -> (next: Step<'a, B>)
        ensures
            next@ == self@.after(table_info, reply),
    {
        let state = self.state;
        match reply {
            Ok((table_id, region_routes)) => {
                let task = CreateTableTask {
                    create_table: state.create_table,
                    partitions: state.partitions,
                    table_info,
                };
                Step::Procedure(
                    state.ddl_manager.submit_create_table_task(
                        state.cluster_id,
                        task,
                        region_routes,
                        state.id,
                    ),
                    ProcedurePending { table_id: Some(table_id) },
                )
            },
            Err(error) => Step::Done(Err(Error::Forwarded(error))),
        }
    }
}

/// The response names the procedure, by the bytes of its id's text, and the
/// table that was created, if one was.
pub open spec fn responding<B: Backend>(
    table_id: Option<TableId>,
    reply: Result<ProcedureId, ErrorView<B>>,
) -> Result<SubmitDdlTaskResponseView, ErrorView<B>> {
    match reply {
        Ok(id) => Ok(SubmitDdlTaskResponseView { key: encode_utf8(id@), table_id }),
        Err(error) => Err(error),
    }
}

impl ProcedurePending {
    /// Goes on with how the submission ended.
    pub fn resume<'a, B: Backend>(self, reply: Result<ProcedureId, Error<B>>) -> (next: Step<'a, B>)
        ensures
            next@ == StepView::<'a, B>::Done(responding(self@, error_view(reply))),
            reply matches Ok(id) ==> {
                &&& next matches Step::Done(Ok(response))
                &&& response.key@ == encode_utf8(id.text@)
                &&& response.table_id == self@
            },
            reply matches Err(error) ==> {
                &&& next matches Step::Done(Err(answered))
                &&& answered == error
            },
    {
        match reply {
            Ok(id) => Step::Done(
                Ok(
                    SubmitDdlTaskResponse {
                        key: id.to_string().as_str().as_bytes_vec(),
                        table_id: self.table_id,
                    },
                ),
            ),
            Err(error) => Step::Done(Err(error)),
        }
    }
}

/// Starts to truncate a table, as procedure `id`.
pub fn handle_truncate_table_task<'a, B: Backend>(
    ddl_manager: &'a DdlManager<B>,
    cluster_id: u64,
    truncate_table_task: TruncateTableTask,
    id: ProcedureId,
) -> (step: Step<'a, B>)
    ensures
        step@ == StepView::GetFullTableInfo(
            truncate_table_task.table_id,
            WholeTableState {
                ddl_manager,
                cluster_id,
                task: WholeTableTask::Truncate(truncate_table_task),
                id,
            },
        ),
{
    let table_id = truncate_table_task.table_id;
    let state = WholeTableState {
        ddl_manager,
        cluster_id,
        task: WholeTableTask::Truncate(truncate_table_task),
        id,
    };
    Step::GetFullTableInfo(table_id, FullTableInfoPending { state })
}

/// Starts to alter a table, as procedure `id`.
pub fn handle_alter_table_task<'a, B: Backend>(
    ddl_manager: &'a DdlManager<B>,
    cluster_id: u64,
    alter_table_task: AlterTableTask<B>,
    id: ProcedureId,
) -> (step: Step<'a, B>)
    ensures
        step@ == StepView::GetTableName(
            alter_table_task.name(),
            AlterState { ddl_manager, cluster_id, task: alter_table_task, id },
        ),
{
    let table_ref = alter_table_task.table_ref();
    let key = TableNameKey::new(table_ref.catalog, table_ref.schema, table_ref.table);
    let state = AlterState { ddl_manager, cluster_id, task: alter_table_task, id };
    Step::GetTableName(key, TableNamePending { state })
}

/// Starts to drop a table, as procedure `id`.
pub fn handle_drop_table_task<'a, B: Backend>(
    ddl_manager: &'a DdlManager<B>,
    cluster_id: u64,
    drop_table_task: DropTableTask,
    id: ProcedureId,
) -> (step: Step<'a, B>)
    ensures
        step@ == StepView::GetFullTableInfo(
            drop_table_task.table_id,
            WholeTableState {
                ddl_manager,
                cluster_id,
                task: WholeTableTask::Drop(drop_table_task),
                id,
            },
        ),
{
    let table_id = drop_table_task.table_id;
    let state = WholeTableState {
        ddl_manager,
        cluster_id,
        task: WholeTableTask::Drop(drop_table_task),
        id,
    };
    Step::GetFullTableInfo(table_id, FullTableInfoPending { state })
}

/// Starts to create a table, as procedure `id`.
pub fn handle_create_table_task<'a, B: Backend>(
    ddl_manager: &'a DdlManager<B>,
    cluster_id: u64,
    create_table_task: CreateTableTask<B>,
    id: ProcedureId,
) -> (step: Step<'a, B>)
    ensures
        step@ == StepView::AllocateTable(
            AllocateTableCall {
                context: TableMetadataAllocatorContext { cluster_id },
                table_info: create_table_task.table_info,
            },
            CreateState {
                ddl_manager,
                cluster_id,
                create_table: create_table_task.create_table,
                partitions: create_table_task.partitions,
                id,
            },
        ),
{
    let call = AllocateTableCall {
        context: TableMetadataAllocatorContext { cluster_id },
        table_info: create_table_task.table_info,
    };
    let state = CreateState {
        ddl_manager,
        cluster_id,
        create_table: create_table_task.create_table,
        partitions: create_table_task.partitions,
        id,
    };
    Step::AllocateTable(call, AllocateTablePending { state })
}

/// The first step of executing `task`, as procedure `id`.
pub open spec fn first_step<'a, B: Backend>(
    ddl_manager: &'a DdlManager<B>,
    cluster_id: u64,
    task: DdlTask<B>,
    id: ProcedureId,
) -> StepView<'a, B> {
    match task {
        DdlTask::CreateTable(task) => StepView::AllocateTable(
            AllocateTableCall {
                context: TableMetadataAllocatorContext { cluster_id },
                table_info: task.table_info,
            },
            CreateState {
                ddl_manager,
                cluster_id,
                create_table: task.create_table,
                partitions: task.partitions,
                id,
            },
        ),
        DdlTask::DropTable(task) => StepView::GetFullTableInfo(
            task.table_id,
            WholeTableState { ddl_manager, cluster_id, task: WholeTableTask::Drop(task), id },
        ),
        DdlTask::AlterTable(task) => StepView::GetTableName(
            task.name(),
            AlterState { ddl_manager, cluster_id, task, id },
        ),
        DdlTask::TruncateTable(task) => StepView::GetFullTableInfo(
            task.table_id,
            WholeTableState {
                ddl_manager,
                cluster_id,
                task: WholeTableTask::Truncate(task),
                id,
            },
        ),
    }
}

impl<B: Backend> DdlManager<B> {
    /// Starts to execute the task of a request, as procedure `id`.
    pub fn submit_ddl_task(
        &self,
        ctx: &ExecutorContext,
        request: SubmitDdlTaskRequest<B>,
        id: ProcedureId,
    ) -> (step: Step<'_, B>)
        ensures
            step@ == first_step(self, ctx.cluster(), request.task, id),
            ctx.cluster_id matches Some(cluster_id) ==> step@ == first_step(
                self,
                cluster_id,
                request.task,
                id,
            ),
            ctx.cluster_id is None ==> step@ == first_step(self, 0, request.task, id),
    {
        let cluster_id = match ctx.cluster_id {
            Some(cluster_id) => cluster_id,
            None => 0,
        };
        match request.task {
            DdlTask::CreateTable(create_table_task) => handle_create_table_task(
                self,
                cluster_id,
                create_table_task,
                id,
            ),
            DdlTask::DropTable(drop_table_task) => handle_drop_table_task(
                self,
                cluster_id,
                drop_table_task,
                id,
            ),
            DdlTask::AlterTable(alter_table_task) => handle_alter_table_task(
                self,
                cluster_id,
                alter_table_task,
                id,
            ),
            DdlTask::TruncateTable(truncate_table_task) => handle_truncate_table_task(
                self,
                cluster_id,
                truncate_table_task,
                id,
            ),
        }
    }
}

} // verus!
