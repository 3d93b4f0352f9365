use std::sync::Arc;
use vstd::prelude::*;

use crate::backend::{share, Backend};
use crate::error::{error_view, Error, ErrorView};
use crate::key::{TableInfo, TableRoute};
use crate::loader::Loader;
use crate::procedure::{
    AlterTableArgs, CreateTableProcedure, DdlContext, DdlProcedure, DropTableProcedure,
    ProcedureId, ProcedureKind, ProcedureWithId, TruncateTableProcedure,
};
use crate::rpc::{AlterTableTask, CreateTableTask, DropTableTask, TruncateTableTask};

verus! {

/// A shared DDL manager.
pub type DdlManagerRef<B> = Arc<DdlManager<B>>;

/// The [`DdlManager`] provides the ability to execute DDL.
pub struct DdlManager<B: Backend> {
    procedure_manager: Arc<B::ProcedureManager>,
    datanode_manager: Arc<B::DatanodeManager>,
    cache_invalidator: Arc<B::CacheInvalidator>,
    table_metadata_manager: Arc<B::TableMetadataManager>,
    table_meta_allocator: Arc<B::TableMetadataAllocator>,
    memory_region_keeper: Arc<B::MemoryRegionKeeper>,
}

/// The collaborators of a [`DdlManager`].
pub struct Collaborators<B: Backend> {
    pub procedure_manager: Arc<B::ProcedureManager>,
    pub datanode_manager: Arc<B::DatanodeManager>,
    pub cache_invalidator: Arc<B::CacheInvalidator>,
    pub table_metadata_manager: Arc<B::TableMetadataManager>,
    pub table_meta_allocator: Arc<B::TableMetadataAllocator>,
    pub memory_region_keeper: Arc<B::MemoryRegionKeeper>,
}

impl<B: Backend> Collaborators<B> {
    /// The collaborators that procedures work with.
    pub open spec fn context(self) -> DdlContext<B> {
        DdlContext {
            datanode_manager: self.datanode_manager,
            cache_invalidator: self.cache_invalidator,
            table_metadata_manager: self.table_metadata_manager,
            memory_region_keeper: self.memory_region_keeper,
        }
    }
}

impl<B: Backend> View for DdlManager<B> {
    type V = Collaborators<B>;

    closed spec fn view(&self) -> Collaborators<B> {
        Collaborators {
            procedure_manager: self.procedure_manager,
            datanode_manager: self.datanode_manager,
            cache_invalidator: self.cache_invalidator,
            table_metadata_manager: self.table_metadata_manager,
            table_meta_allocator: self.table_meta_allocator,
            memory_region_keeper: self.memory_region_keeper,
        }
    }
}

/// A step of making a manager.
pub enum Registration<B: Backend> {
    /// Register the loader with the procedure manager of the manager to be.
    RegisterLoader(Loader<B>, LoaderPending<B>),
    /// Either every loader is registered, or one was refused.
    Done(Result<DdlManager<B>, Error<B>>),
}

/// A manager to be, while the procedure manager registers a loader. It gives
/// the manager away only when the last loader is registered.
pub struct LoaderPending<B: Backend> {
    manager: DdlManager<B>,
    kind: ProcedureKind,
}

impl<B: Backend> LoaderPending<B> {
    /// The collaborators of the manager to be.
    pub closed spec fn collaborators(self) -> Collaborators<B> {
        self.manager@
    }

    /// The kind whose loader is being registered.
    pub closed spec fn kind(self) -> ProcedureKind {
        self.kind
    }
}

/// A [`Registration`], seen from outside.
pub enum RegistrationView<B: Backend> {
    /// A loader is to be registered for a manager with these collaborators,
    /// which is at this kind.
    RegisterLoader(Loader<B>, Collaborators<B>, ProcedureKind),
    Done(Result<Collaborators<B>, ErrorView<B>>),
}

impl<B: Backend> View for Registration<B> {
    type V = RegistrationView<B>;

    open spec fn view(&self) -> RegistrationView<B> {
        match *self {
            Registration::RegisterLoader(loader, pending) => RegistrationView::RegisterLoader(
                loader,
                pending.collaborators(),
                pending.kind(),
            ),
            Registration::Done(Ok(manager)) => RegistrationView::Done(Ok(manager@)),
            Registration::Done(Err(error)) => RegistrationView::Done(Err(error@)),
        }
    }
}

/// The kind whose loader is registered after the one of `kind`.
pub open spec fn registered_after(kind: ProcedureKind) -> Option<ProcedureKind> {
    match kind {
        ProcedureKind::CreateTable => Some(ProcedureKind::DropTable),
        ProcedureKind::DropTable => Some(ProcedureKind::AlterTable),
        ProcedureKind::AlterTable => Some(ProcedureKind::TruncateTable),
        ProcedureKind::TruncateTable => None,
    }
}

/// Asks for the loader of `kind` for a manager with these collaborators.
pub open spec fn registering<B: Backend>(
    collaborators: Collaborators<B>,
    kind: ProcedureKind,
) -> RegistrationView<B> {
    RegistrationView::RegisterLoader(
        Loader { kind, context: collaborators.context() },
        collaborators,
        kind,
    )
}

/// What follows when the procedure manager has answered for `kind`: the next
/// loader, the finished manager, or the refusal with the name of the loader.
pub open spec fn after_registering<B: Backend>(
    collaborators: Collaborators<B>,
    kind: ProcedureKind,
    reply: Result<(), B::ProcedureError>,
) -> RegistrationView<B> {
    match reply {
        Ok(_) => match registered_after(kind) {
            Some(next) => registering(collaborators, next),
            None => RegistrationView::Done(Ok(collaborators)),
        },
        Err(source) => RegistrationView::Done(
            Err(ErrorView::RegisterProcedureLoader { procedure_type: kind.name(), source }),
        ),
    }
}

impl<B: Backend> LoaderPending<B> {
    /// The procedure manager that is to register the loader.
    pub fn procedure_manager(&self) -> (procedure_manager: &Arc<B::ProcedureManager>)
        ensures
            *procedure_manager == self.collaborators().procedure_manager,
    {
        self.manager.procedure_manager()
    }

    /// Goes on with the procedure manager's answer.
    pub fn resume(self, reply: Result<(), B::ProcedureError>) -> (next: Registration<B>)
        ensures
            next@ == after_registering(self.collaborators(), self.kind(), reply),
    {
        match reply {
            Ok(_) => match self.kind {
                ProcedureKind::CreateTable => self.manager.register_loader(
                    ProcedureKind::DropTable,
                ),
                ProcedureKind::DropTable => self.manager.register_loader(ProcedureKind::AlterTable),
                ProcedureKind::AlterTable => self.manager.register_loader(
                    ProcedureKind::TruncateTable,
                ),
                ProcedureKind::TruncateTable => Registration::Done(Ok(self.manager)),
            },
            Err(source) => Registration::Done(
                Err(
                    Error::RegisterProcedureLoader {
                        procedure_type: self.kind.procedure_type().to_owned(),
                        source,
                    },
                ),
            ),
        }
    }
}

/// A step of submitting a procedure and waiting for it.
pub enum Submission<'a, B: Backend> {
    /// Make the procedure that alters a table.
    BuildAlterTable(AlterTableArgs<B>, AlterTablePending<'a, B>),
    /// Submit the procedure to the procedure manager.
    Submit(ProcedureWithId<B>, SubmitPending<'a, B>),
    /// Wait for the procedure that the watcher observes.
    Wait(B::Watcher, WaitPending),
    /// Either the procedure is done, or something failed.
    Done(Result<ProcedureId, Error<B>>),
}

/// What a submission keeps until its procedure is submitted.
pub struct SubmissionState<'a, B: Backend> {
    pub ddl_manager: &'a DdlManager<B>,
    pub id: ProcedureId,
}

/// A submission while its procedure is made.
pub struct AlterTablePending<'a, B: Backend> {
    state: SubmissionState<'a, B>,
}

impl<'a, B: Backend> View for AlterTablePending<'a, B> {
    type V = SubmissionState<'a, B>;

    closed spec fn view(&self) -> SubmissionState<'a, B> {
        self.state
    }
}

/// A submission while the procedure manager accepts the procedure.
pub struct SubmitPending<'a, B: Backend> {
    state: SubmissionState<'a, B>,
}

impl<'a, B: Backend> View for SubmitPending<'a, B> {
    type V = SubmissionState<'a, B>;

    closed spec fn view(&self) -> SubmissionState<'a, B> {
        self.state
    }
}

/// A submission while its procedure runs.
pub struct WaitPending {
    id: ProcedureId,
}

impl View for WaitPending {
    type V = ProcedureId;

    closed spec fn view(&self) -> ProcedureId {
        self.id
    }
}

/// A [`Submission`], seen from outside.
pub enum SubmissionView<'a, B: Backend> {
    BuildAlterTable(AlterTableArgs<B>, SubmissionState<'a, B>),
    Submit(ProcedureWithId<B>, SubmissionState<'a, B>),
    /// The watcher, and the id of the procedure that it observes.
    Wait(B::Watcher, ProcedureId),
    Done(Result<ProcedureId, ErrorView<B>>),
}

impl<'a, B: Backend> View for Submission<'a, B> {
    type V = SubmissionView<'a, B>;

    open spec fn view(&self) -> SubmissionView<'a, B> {
        match *self {
            Submission::BuildAlterTable(args, pending) => SubmissionView::BuildAlterTable(
                args,
                pending@,
            ),
            Submission::Submit(procedure, pending) => SubmissionView::Submit(procedure, pending@),
            Submission::Wait(watcher, pending) => SubmissionView::Wait(watcher, pending@),
            Submission::Done(result) => SubmissionView::Done(error_view(result)),
        }
    }
}

/// Submits `procedure` under `id`, and keeps `id` for the end.
pub open spec fn submitting<'a, B: Backend>(
    ddl_manager: &'a DdlManager<B>,
    id: ProcedureId,
    procedure: DdlProcedure<B>,
) -> SubmissionView<'a, B> {
    SubmissionView::Submit(ProcedureWithId { id, procedure }, SubmissionState { ddl_manager, id })
}

impl<'a, B: Backend> SubmissionState<'a, B> {
    /// A procedure that was made is submitted; a failure is handed on.
    pub open spec fn after_building(
        self,
        reply: Result<B::AlterTableProcedure, B::Error>,
    ) -> SubmissionView<'a, B> {
        match reply {
            Ok(procedure) => submitting(
                self.ddl_manager,
                self.id,
                DdlProcedure::AlterTable(procedure),
            ),
            Err(error) => SubmissionView::Done(Err(ErrorView::Forwarded(error))),
        }
    }

    /// An accepted procedure is waited for, with the watcher that came back.
    pub open spec fn after_submitting(
        self,
        reply: Result<B::Watcher, B::ProcedureError>,
    ) -> SubmissionView<'a, B> {
        match reply {
            Ok(watcher) => SubmissionView::Wait(watcher, self.id),
            Err(source) => SubmissionView::Done(Err(ErrorView::SubmitProcedure { source })),
        }
    }
}

/// A procedure that succeeded is answered with its id.
pub open spec fn after_waiting<B: Backend>(
    id: ProcedureId,
    reply: Result<(), B::ProcedureError>,
) -> Result<ProcedureId, ErrorView<B>> {
    match reply {
        Ok(_) => Ok(id),
        Err(source) => Err(ErrorView::WaitProcedure { source }),
    }
}

impl<'a, B: Backend> AlterTablePending<'a, B> {
    /// Goes on with the procedure, or with why it could not be made.
    pub fn resume(self, reply: Result<B::AlterTableProcedure, B::Error>) -> (next: Submission<
        'a,
        B,
    >)
        ensures
            next@ == self@.after_building(reply),
    {
        match reply {
            Ok(procedure) => self.state.ddl_manager.submit_procedure(
                ProcedureWithId {
                    id: self.state.id,
                    procedure: DdlProcedure::AlterTable(procedure),
                },
            ),
            Err(error) => Submission::Done(Err(Error::Forwarded(error))),
        }
    }
}

impl<'a, B: Backend> SubmitPending<'a, B> {
    /// The manager whose procedure manager is to accept the procedure.
    pub fn ddl_manager(&self) -> (ddl_manager: &'a DdlManager<B>)
        ensures
            ddl_manager == self@.ddl_manager,
    {
        self.state.ddl_manager
    }

    /// Goes on with the procedure manager's answer.
    pub fn resume(self, reply: Result<B::Watcher, B::ProcedureError>) -> (next: Submission<'a, B>)
        ensures
            next@ == self@.after_submitting(reply),
    {
        match reply {
            Ok(watcher) => Submission::Wait(watcher, WaitPending { id: self.state.id }),
            Err(source) => Submission::Done(Err(Error::SubmitProcedure { source })),
        }
    }
}

impl WaitPending {
    /// Goes on with how the procedure ended.
    pub fn resume<'a, B: Backend>(self, reply: Result<(), B::ProcedureError>) -> (next: Submission<
        'a,
        B,
    >)
        ensures
            next@ == SubmissionView::<'a, B>::Done(after_waiting(self@, reply)),
    {
        match reply {
            Ok(_) => Submission::Done(Ok(self.id)),
            Err(source) => Submission::Done(Err(Error::WaitProcedure { source })),
        }
    }
}

impl<B: Backend> DdlManager<B> {
    /// Starts to make a manager with these collaborators. The manager comes
    /// out of the last step, with the loaders of all DDL procedures registered.
    pub fn try_new(
        procedure_manager: Arc<B::ProcedureManager>,
        datanode_clients: Arc<B::DatanodeManager>,
        cache_invalidator: Arc<B::CacheInvalidator>,
        table_metadata_manager: Arc<B::TableMetadataManager>,
        table_meta_allocator: Arc<B::TableMetadataAllocator>,
        memory_region_keeper: Arc<B::MemoryRegionKeeper>,
    ) -> (registration: Registration<B>)
        ensures
            registration@ == registering(
                Collaborators::<B> {
                    procedure_manager,
                    datanode_manager: datanode_clients,
                    cache_invalidator,
                    table_metadata_manager,
                    table_meta_allocator,
                    memory_region_keeper,
                },
                ProcedureKind::CreateTable,
            ),
    {
        let manager = DdlManager {
            procedure_manager,
            datanode_manager: datanode_clients,
            cache_invalidator,
            table_metadata_manager,
            table_meta_allocator,
            memory_region_keeper,
        };
        manager.register_loaders()
    }

    /// Returns the procedure manager.
    pub fn procedure_manager(&self) -> (procedure_manager: &Arc<B::ProcedureManager>)
        ensures
            *procedure_manager == self@.procedure_manager,
    {
        &self.procedure_manager
    }

    /// Returns the table metadata manager.
    pub fn table_metadata_manager(&self) -> (table_metadata_manager: &Arc<B::TableMetadataManager>)
        ensures
            *table_metadata_manager == self@.table_metadata_manager,
    {
        &self.table_metadata_manager
    }

    /// Returns the allocator of new tables.
    pub fn table_meta_allocator(&self) -> (table_meta_allocator: &Arc<B::TableMetadataAllocator>)
        ensures
            *table_meta_allocator == self@.table_meta_allocator,
    {
        &self.table_meta_allocator
    }

    /// Returns the [`DdlContext`].
    pub fn create_context(&self) -> (context: DdlContext<B>)
        ensures
            context == self@.context(),
    {
        DdlContext {
            datanode_manager: share(&self.datanode_manager),
            cache_invalidator: share(&self.cache_invalidator),
            table_metadata_manager: share(&self.table_metadata_manager),
            memory_region_keeper: share(&self.memory_region_keeper),
        }
    }

    /// Starts to register the loaders, with the one that creates tables.
    fn register_loaders(self) -> (registration: Registration<B>)
        ensures
            registration@ == registering(self@, ProcedureKind::CreateTable),
    {
        self.register_loader(ProcedureKind::CreateTable)
    }

    /// Asks for the loader of `kind`.
    fn register_loader(self, kind: ProcedureKind) -> (registration: Registration<B>)
        ensures
            registration@ == registering(self@, kind),
    {
        let context = self.create_context();
        Registration::RegisterLoader(
            Loader { kind, context },
            LoaderPending { manager: self, kind },
        )
    }

    /// Submits and executes an alter table task, as procedure `id`.
    pub fn submit_alter_table_task(
        &self,
        cluster_id: u64,
        alter_table_task: AlterTableTask<B>,
        table_info_value: TableInfo<B>,
        id: ProcedureId,
    ) -> (submission: Submission<'_, B>)
        ensures
            submission@ == SubmissionView::BuildAlterTable(
                AlterTableArgs {
                    cluster_id,
                    task: alter_table_task,
                    table_info_value,
                    context: self@.context(),
                },
                SubmissionState { ddl_manager: self, id },
            ),
    {
        let context = self.create_context();
        Submission::BuildAlterTable(
            AlterTableArgs { cluster_id, task: alter_table_task, table_info_value, context },
            AlterTablePending { state: SubmissionState { ddl_manager: self, id } },
        )
    }

    /// Submits and executes a create table task, as procedure `id`.
    pub fn submit_create_table_task(
        &self,
        cluster_id: u64,
        create_table_task: CreateTableTask<B>,
        region_routes: Vec<B::RegionRoute>,
        id: ProcedureId,
    ) -> (submission: Submission<'_, B>)
        ensures
            submission@ == submitting(
                self,
                id,
                DdlProcedure::CreateTable(
                    CreateTableProcedure {
                        cluster_id,
                        task: create_table_task,
                        region_routes,
                        context: self@.context(),
                    },
                ),
            ),
    {
        let context = self.create_context();
        let procedure = CreateTableProcedure {
            cluster_id,
            task: create_table_task,
            region_routes,
            context,
        };
        self.submit_procedure(
            ProcedureWithId { id, procedure: DdlProcedure::CreateTable(procedure) },
        )
    }

    /// Submits and executes a drop table task, as procedure `id`.
    pub fn submit_drop_table_task(
        &self,
        cluster_id: u64,
        drop_table_task: DropTableTask,
        table_info_value: TableInfo<B>,
        table_route_value: TableRoute<B>,
        id: ProcedureId,
    ) -> (submission: Submission<'_, B>)
        ensures
            submission@ == submitting(
                self,
                id,
                DdlProcedure::DropTable(
                    DropTableProcedure {
                        cluster_id,
                        task: drop_table_task,
                        table_route_value,
                        table_info_value,
                        context: self@.context(),
                    },
                ),
            ),
    {
        let context = self.create_context();
        let procedure = DropTableProcedure {
            cluster_id,
            task: drop_table_task,
            table_route_value,
            table_info_value,
            context,
        };
        self.submit_procedure(ProcedureWithId { id, procedure: DdlProcedure::DropTable(procedure) })
    }

    /// Submits and executes a truncate table task, as procedure `id`.
    pub fn submit_truncate_table_task(
        &self,
        cluster_id: u64,
        truncate_table_task: TruncateTableTask,
        table_info_value: TableInfo<B>,
        region_routes: Vec<B::RegionRoute>,
        id: ProcedureId,
    ) -> (submission: Submission<'_, B>)
        ensures
            submission@ == submitting(
                self,
                id,
                DdlProcedure::TruncateTable(
                    TruncateTableProcedure {
                        cluster_id,
                        task: truncate_table_task,
                        table_info_value,
                        region_routes,
                        context: self@.context(),
                    },
                ),
            ),
    {
        let context = self.create_context();
        let procedure = TruncateTableProcedure {
            cluster_id,
            task: truncate_table_task,
            table_info_value,
            region_routes,
            context,
        };
        self.submit_procedure(
            ProcedureWithId { id, procedure: DdlProcedure::TruncateTable(procedure) },
        )
    }

    /// Submits a procedure and waits for it.
    pub fn submit_procedure(&self, procedure_with_id: ProcedureWithId<B>) -> (submission:
        Submission<'_, B>)
        ensures
            submission@ == submitting(self, procedure_with_id.id, procedure_with_id.procedure),
    {
        let id = procedure_with_id.id.clone();
        Submission::Submit(procedure_with_id, SubmitPending { state: SubmissionState { ddl_manager: self, id } })
    }
}

} // verus!
