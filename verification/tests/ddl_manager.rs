use std::collections::HashSet;
use std::sync::{Arc, Mutex};

use common_meta::backend::{Backend, TableId};
use common_meta::ddl_manager::{DdlManager, Registration, Submission};
use common_meta::error::Error;
use common_meta::handler::Step;
use common_meta::key::{DeserializedValueWithBytes, TableInfo, TableRoute, TableRouteValue};
use common_meta::loader::{Loader, Loading, RestoredProcedure};
use common_meta::procedure::{
    AlterTableArgs, DdlProcedure, ProcedureId, ProcedureKind, ProcedureWithId,
};
use common_meta::rpc::{
    AlterExpr, AlterTableTask, CreateTableTask, DdlTask, DropTableTask, ExecutorContext,
    SubmitDdlTaskRequest, SubmitDdlTaskResponse, TruncateTableTask,
};
use common_meta::table_name::{TableNameKey, TableNameValue, TableReference};

/// A procedure manager that remembers what it was asked for.
struct LocalManager {
    loaders: Mutex<HashSet<String>>,
    refused: Option<ProcedureKind>,
}

impl LocalManager {
    fn new() -> Self {
        LocalManager {
            loaders: Mutex::new(HashSet::new()),
            refused: None,
        }
    }

    fn refusing(kind: ProcedureKind) -> Self {
        LocalManager {
            loaders: Mutex::new(HashSet::new()),
            refused: Some(kind),
        }
    }

    fn register_loader(&self, loader: &Loader<TestBackend>) -> Result<(), &'static str> {
        if self.refused == Some(loader.kind) {
            return Err("refused");
        }
        let name = loader.procedure_type().to_string();
        if self.loaders.lock().unwrap().insert(name) {
            Ok(())
        } else {
            Err("conflict")
        }
    }

    fn contains_all(&self) -> bool {
        self.loaders.lock().unwrap().len() == 4
    }

    fn contains_loader(&self, name: &str) -> bool {
        self.loaders.lock().unwrap().contains(name)
    }
}

trait DatanodeManager {
    fn name(&self) -> &'static str;
}

struct DummyDatanodeManager;

impl DatanodeManager for DummyDatanodeManager {
    fn name(&self) -> &'static str {
        "dummy"
    }
}

struct DummyCacheInvalidator;
struct TableMetadataManager;
struct DummyTableMetadataAllocator;
struct MemoryRegionKeeper;

struct TestBackend;

impl Backend for TestBackend {
    type ProcedureManager = LocalManager;
    type DatanodeManager = dyn DatanodeManager;
    type CacheInvalidator = DummyCacheInvalidator;
    type TableMetadataManager = TableMetadataManager;
    type TableMetadataAllocator = DummyTableMetadataAllocator;
    type MemoryRegionKeeper = MemoryRegionKeeper;
    type CreateTableExpr = &'static str;
    type AlterKind = &'static str;
    type Partition = u8;
    type RawTableInfo = String;
    type TableInfoValue = &'static str;
    type RegionRoute = u64;
    type AlterTableProcedure = String;
    type RestoredCreateTable = (String, Arc<TableMetadataManager>);
    type RestoredDropTable = (u8, Arc<TableMetadataManager>);
    type RestoredTruncateTable = (bool, Arc<TableMetadataManager>);
    type Watcher = String;
    type ProcedureError = &'static str;
    type Error = &'static str;
}

struct Handles {
    procedure_manager: Arc<LocalManager>,
    datanode_manager: Arc<dyn DatanodeManager>,
    cache_invalidator: Arc<DummyCacheInvalidator>,
    table_metadata_manager: Arc<TableMetadataManager>,
    table_meta_allocator: Arc<DummyTableMetadataAllocator>,
    memory_region_keeper: Arc<MemoryRegionKeeper>,
}

fn handles(procedure_manager: LocalManager) -> Handles {
    Handles {
        procedure_manager: Arc::new(procedure_manager),
        datanode_manager: Arc::new(DummyDatanodeManager),
        cache_invalidator: Arc::new(DummyCacheInvalidator),
        table_metadata_manager: Arc::new(TableMetadataManager),
        table_meta_allocator: Arc::new(DummyTableMetadataAllocator),
        memory_region_keeper: Arc::new(MemoryRegionKeeper),
    }
}

fn try_new(
    handles: &Handles,
) -> (Result<DdlManager<TestBackend>, Error<TestBackend>>, Vec<ProcedureKind>) {
    let mut registration = DdlManager::<TestBackend>::try_new(
        handles.procedure_manager.clone(),
        handles.datanode_manager.clone(),
        handles.cache_invalidator.clone(),
        handles.table_metadata_manager.clone(),
        handles.table_meta_allocator.clone(),
        handles.memory_region_keeper.clone(),
    );
    let mut asked: Vec<ProcedureKind> = Vec::new();
    loop {
        registration = match registration {
            Registration::RegisterLoader(loader, pending) => {
                asked.push(loader.kind);
                assert!(Arc::ptr_eq(
                    &loader.context.table_metadata_manager,
                    &handles.table_metadata_manager,
                ));
                assert!(Arc::ptr_eq(
                    pending.procedure_manager(),
                    &handles.procedure_manager,
                ));
                let reply = pending.procedure_manager().register_loader(&loader);
                pending.resume(reply)
            }
            Registration::Done(result) => return (result, asked),
        };
    }
}

fn manager() -> DdlManager<TestBackend> {
    match try_new(&handles(LocalManager::new())).0 {
        Ok(manager) => manager,
        Err(_) => panic!("a loader was refused"),
    }
}

/// How the collaborators reply, and what they were asked.
struct World {
    table_name: Result<Option<TableNameValue>, &'static str>,
    table_info: Result<Option<&'static str>, &'static str>,
    full_table_info: Result<(Option<&'static str>, Option<Vec<u64>>), &'static str>,
    allocation: Result<(TableId, Vec<u64>), &'static str>,
    build: Result<&'static str, &'static str>,
    submit: Result<&'static str, &'static str>,
    wait: Result<(), &'static str>,
    calls: Vec<String>,
    submitted: Vec<ProcedureWithId<TestBackend>>,
    built: Vec<AlterTableArgs<TestBackend>>,
}

fn world() -> World {
    World {
        table_name: Ok(Some(TableNameValue { table_id: 1024 })),
        table_info: Ok(Some("info")),
        full_table_info: Ok((Some("info"), Some(vec![11, 12]))),
        allocation: Ok((2048, vec![21, 22])),
        build: Ok("alter"),
        submit: Ok("watcher"),
        wait: Ok(()),
        calls: Vec::new(),
        submitted: Vec::new(),
        built: Vec::new(),
    }
}

fn stored_info(info: &'static str) -> TableInfo<TestBackend> {
    DeserializedValueWithBytes {
        bytes: info.as_bytes().to_vec(),
        inner: info,
    }
}

fn stored_route(region_routes: Vec<u64>) -> TableRoute<TestBackend> {
    DeserializedValueWithBytes {
        bytes: vec![0],
        inner: TableRouteValue {
            region_routes,
            version: 3,
        },
    }
}

fn follow_submission(
    world: &mut World,
    mut submission: Submission<'_, TestBackend>,
) -> Result<ProcedureId, Error<TestBackend>> {
    loop {
        submission = match submission {
            Submission::BuildAlterTable(args, pending) => {
                world.calls.push("build".to_string());
                world.built.push(args);
                pending.resume(world.build.map(|name| name.to_string()))
            }
            Submission::Submit(procedure, pending) => {
                assert!(pending.ddl_manager().procedure_manager().contains_all());
                world.calls.push(format!("submit {}", procedure.id.to_string()));
                world.submitted.push(procedure);
                pending.resume(world.submit.map(|name| name.to_string()))
            }
            Submission::Wait(watcher, pending) => {
                world.calls.push(format!("wait {watcher}"));
                pending.resume(world.wait)
            }
            Submission::Done(result) => return result,
        };
    }
}

fn follow(
    world: &mut World,
    mut step: Step<'_, TestBackend>,
) -> Result<SubmitDdlTaskResponse, Error<TestBackend>> {
    loop {
        step = match step {
            Step::GetTableName(key, pending) => {
                assert!(pending.ddl_manager().procedure_manager().contains_all());
                world.calls.push(format!("name {}/{}/{}", key.catalog, key.schema, key.table));
                pending.resume(world.table_name)
            }
            Step::GetTableInfo(table_id, pending) => {
                assert!(pending.ddl_manager().procedure_manager().contains_all());
                world.calls.push(format!("info {table_id}"));
                pending.resume(world.table_info.map(|info| info.map(stored_info)))
            }
            Step::GetFullTableInfo(table_id, pending) => {
                assert!(pending.ddl_manager().procedure_manager().contains_all());
                world.calls.push(format!("full {table_id}"));
                pending.resume(
                    world
                        .full_table_info
                        .clone()
                        .map(|(info, route)| (info.map(stored_info), route.map(stored_route))),
                )
            }
            Step::AllocateTable(mut call, pending) => {
                assert!(pending.ddl_manager().procedure_manager().contains_all());
                world.calls.push(format!(
                    "allocate {} {} {:?}",
                    call.context.cluster_id,
                    call.table_info,
                    pending.partitions()
                ));
                call.table_info.push_str(" with id");
                pending.resume(call.table_info, world.allocation.clone())
            }
            Step::Procedure(submission, pending) => {
                pending.resume(follow_submission(world, submission))
            }
            Step::Done(result) => return result,
        };
    }
}

fn id() -> ProcedureId {
    ProcedureId {
        text: "0d1f-\u{e9}".to_string(),
    }
}

const KEY: [u8; 7] = [b'0', b'd', b'1', b'f', b'-', 0xc3, 0xa9];

fn execute(
    world: &mut World,
    cluster_id: Option<u64>,
    task: DdlTask<TestBackend>,
) -> Result<SubmitDdlTaskResponse, Error<TestBackend>> {
    execute_on(&manager(), world, cluster_id, task)
}

fn execute_on(
    manager: &DdlManager<TestBackend>,
    world: &mut World,
    cluster_id: Option<u64>,
    task: DdlTask<TestBackend>,
) -> Result<SubmitDdlTaskResponse, Error<TestBackend>> {
    let ctx = ExecutorContext { cluster_id };
    let step = manager.submit_ddl_task(&ctx, SubmitDdlTaskRequest { task }, id());
    follow(world, step)
}

fn create_task() -> DdlTask<TestBackend> {
    DdlTask::CreateTable(CreateTableTask {
        create_table: "create",
        partitions: vec![1, 2],
        table_info: "raw".to_string(),
    })
}

fn drop_task() -> DdlTask<TestBackend> {
    DdlTask::DropTable(DropTableTask {
        catalog: "greptime".to_string(),
        schema: "public".to_string(),
        table: "dropped".to_string(),
        table_id: 31,
    })
}

fn alter_task() -> DdlTask<TestBackend> {
    DdlTask::AlterTable(AlterTableTask {
        alter_table: AlterExpr {
            catalog_name: "greptime".to_string(),
            schema_name: "public".to_string(),
            table_name: "altered".to_string(),
            kind: "add column",
        },
    })
}

fn truncate_task() -> DdlTask<TestBackend> {
    DdlTask::TruncateTable(TruncateTableTask {
        catalog: "greptime".to_string(),
        schema: "public".to_string(),
        table: "truncated".to_string(),
        table_id: 32,
    })
}

fn response(table_id: Option<TableId>) -> SubmitDdlTaskResponse {
    SubmitDdlTaskResponse {
        key: KEY.to_vec(),
        table_id,
    }
}

fn is_ok(
    result: Result<SubmitDdlTaskResponse, Error<TestBackend>>,
    expected: SubmitDdlTaskResponse,
) -> bool {
    matches!(result, Ok(response) if response == expected)
}

#[test]
fn test_try_new() {
    let handles = handles(LocalManager::new());
    let _ = try_new(&handles);

    let expected_loaders = vec![
        ProcedureKind::CreateTable.procedure_type(),
        ProcedureKind::AlterTable.procedure_type(),
        ProcedureKind::DropTable.procedure_type(),
        ProcedureKind::TruncateTable.procedure_type(),
    ];

    for loader in expected_loaders {
        assert!(handles.procedure_manager.contains_loader(loader));
    }
}

#[test]
fn loaders_are_registered_in_order() {
    let (manager, asked) = try_new(&handles(LocalManager::new()));
    assert!(manager.is_ok());
    assert_eq!(
        asked,
        vec![
            ProcedureKind::CreateTable,
            ProcedureKind::DropTable,
            ProcedureKind::AlterTable,
            ProcedureKind::TruncateTable,
        ]
    );
}

fn loader(kind: ProcedureKind) -> (Loader<TestBackend>, Handles) {
    let handles = handles(LocalManager::new());
    let manager = match try_new(&handles).0 {
        Ok(manager) => manager,
        Err(_) => panic!("a loader was refused"),
    };
    let context = manager.create_context();
    (Loader { kind, context }, handles)
}

/// Parses what is not empty.
fn load(
    loader: &Loader<TestBackend>,
    json: &str,
) -> Result<RestoredProcedure<TestBackend>, &'static str> {
    let valid = if json.is_empty() { Err("empty") } else { Ok(()) };
    match loader.load(json) {
        Loading::CreateTable(call, pending) => pending.resume::<TestBackend>(
            valid.map(|_| (call.json.to_string(), call.context.table_metadata_manager)),
        ),
        Loading::DropTable(call, pending) => pending.resume::<TestBackend>(
            valid.map(|_| (call.json.as_bytes()[0], call.context.table_metadata_manager)),
        ),
        Loading::AlterTable(call, pending) => {
            pending.resume::<TestBackend>(valid.map(|_| call.json.to_string()))
        }
        Loading::TruncateTable(call, pending) => pending.resume::<TestBackend>(
            valid.map(|_| (call.json == "t", call.context.table_metadata_manager)),
        ),
    }
}

#[test]
fn loaders_restore_their_kind() {
    let (create, handles) = loader(ProcedureKind::CreateTable);
    match load(&create, "c") {
        Ok(RestoredProcedure::CreateTable((json, metadata))) => {
            assert_eq!(json, "c");
            assert!(Arc::ptr_eq(&metadata, &handles.table_metadata_manager));
        }
        _ => panic!("the loader must restore what creates a table"),
    }
    let (drop, handles) = loader(ProcedureKind::DropTable);
    match load(&drop, "d") {
        Ok(RestoredProcedure::DropTable((byte, metadata))) => {
            assert_eq!(byte, b'd');
            assert!(Arc::ptr_eq(&metadata, &handles.table_metadata_manager));
        }
        _ => panic!("the loader must restore what drops a table"),
    }
    let (alter, _) = loader(ProcedureKind::AlterTable);
    assert!(matches!(load(&alter, "a"), Ok(RestoredProcedure::AlterTable(json)) if json == "a"));
    let (truncate, handles) = loader(ProcedureKind::TruncateTable);
    match load(&truncate, "t") {
        Ok(RestoredProcedure::TruncateTable((valid, metadata))) => {
            assert!(valid);
            assert!(Arc::ptr_eq(&metadata, &handles.table_metadata_manager));
        }
        _ => panic!("the loader must restore what truncates a table"),
    }
}

#[test]
fn loaders_can_be_used_again() {
    for kind in [
        ProcedureKind::CreateTable,
        ProcedureKind::DropTable,
        ProcedureKind::AlterTable,
        ProcedureKind::TruncateTable,
    ] {
        let (loader, handles) = loader(kind);
        for json in ["one", "", "two", ""] {
            let before = Arc::strong_count(&handles.table_metadata_manager);
            let restored = load(&loader, json);
            if json.is_empty() {
                assert!(matches!(restored, Err("empty")));
            } else {
                assert!(restored.is_ok());
            }
            std::mem::drop(restored);
            assert_eq!(Arc::strong_count(&handles.table_metadata_manager), before);
        }
    }
}

#[test]
fn loader_names() {
    assert_eq!(
        ProcedureKind::CreateTable.procedure_type(),
        "metasrv-procedure::CreateTable"
    );
    assert_eq!(
        ProcedureKind::DropTable.procedure_type(),
        "metasrv-procedure::DropTable"
    );
    assert_eq!(
        ProcedureKind::AlterTable.procedure_type(),
        "metasrv-procedure::AlterTable"
    );
    assert_eq!(
        ProcedureKind::TruncateTable.procedure_type(),
        "metasrv-procedure::TruncateTable"
    );
}

#[test]
fn refused_loader_is_named_and_ends_the_registration() {
    let handles = handles(LocalManager::refusing(ProcedureKind::AlterTable));
    let (manager, asked) = try_new(&handles);
    match manager {
        Err(Error::RegisterProcedureLoader {
            procedure_type,
            source,
        }) => {
            assert_eq!(procedure_type, "metasrv-procedure::AlterTable");
            assert_eq!(source, "refused");
        }
        _ => panic!("a refused loader must be reported"),
    }
    assert_eq!(asked.len(), 3);
    assert!(handles.procedure_manager.contains_loader("metasrv-procedure::DropTable"));
    assert!(!handles.procedure_manager.contains_loader("metasrv-procedure::TruncateTable"));
}

#[test]
fn context_shares_the_collaborators() {
    let handles = handles(LocalManager::new());
    let manager = match try_new(&handles).0 {
        Ok(manager) => manager,
        Err(_) => panic!("a loader was refused"),
    };
    assert!(Arc::ptr_eq(
        manager.table_metadata_manager(),
        &handles.table_metadata_manager
    ));
    assert!(Arc::ptr_eq(
        manager.procedure_manager(),
        &handles.procedure_manager
    ));
    assert!(Arc::ptr_eq(
        manager.table_meta_allocator(),
        &handles.table_meta_allocator
    ));
    let before = Arc::strong_count(&handles.cache_invalidator);
    let context = manager.create_context();
    let copy = context.clone();
    assert_eq!(Arc::strong_count(&handles.cache_invalidator), before + 2);
    assert!(Arc::ptr_eq(&context.cache_invalidator, &handles.cache_invalidator));
    assert!(Arc::ptr_eq(&context.memory_region_keeper, &handles.memory_region_keeper));
    assert!(Arc::ptr_eq(&context.table_metadata_manager, &handles.table_metadata_manager));
    assert!(Arc::ptr_eq(&copy.datanode_manager, &handles.datanode_manager));
    assert_eq!(copy.datanode_manager.name(), "dummy");
}

#[test]
fn table_name_is_joined_by_dots() {
    let table_ref = TableReference {
        catalog: "greptime",
        schema: "public",
        table: "t.1",
    };
    assert_eq!(table_ref.to_string(), "greptime.public.t.1");
    let key = TableNameKey::new("greptime", "public", "t");
    assert_eq!(
        (key.catalog.as_str(), key.schema.as_str(), key.table.as_str()),
        ("greptime", "public", "t")
    );
}

#[test]
fn drop_table() {
    let mut world = world();
    let result = execute(&mut world, Some(7), drop_task());
    assert!(is_ok(result, response(None)));
    assert_eq!(world.calls, ["full 31", "submit 0d1f-\u{e9}", "wait watcher"]);
    assert_eq!(world.submitted.len(), 1);
    let submitted = world.submitted.pop().unwrap();
    assert_eq!(submitted.id, id());
    match submitted.procedure {
        DdlProcedure::DropTable(procedure) => {
            assert_eq!(procedure.cluster_id, 7);
            assert_eq!(procedure.task.table, "dropped");
            assert_eq!(procedure.table_info_value.inner, "info");
            assert_eq!(procedure.table_route_value.inner.region_routes, vec![11, 12]);
            assert_eq!(procedure.table_route_value.inner.version, 3);
        }
        _ => panic!("a drop task must drop"),
    }
}

#[test]
fn truncate_table() {
    let mut world = world();
    let result = execute(&mut world, Some(7), truncate_task());
    assert!(is_ok(result, response(None)));
    assert_eq!(world.calls, ["full 32", "submit 0d1f-\u{e9}", "wait watcher"]);
    let submitted = world.submitted.pop().unwrap();
    match submitted.procedure {
        DdlProcedure::TruncateTable(procedure) => {
            assert_eq!(procedure.cluster_id, 7);
            assert_eq!(procedure.task.table, "truncated");
            assert_eq!(procedure.table_info_value.inner, "info");
            assert_eq!(procedure.region_routes, vec![11, 12]);
        }
        _ => panic!("a truncate task must truncate"),
    }
}

#[test]
fn create_table() {
    let mut world = world();
    let result = execute(&mut world, Some(7), create_task());
    assert!(is_ok(result, response(Some(2048))));
    assert_eq!(
        world.calls,
        ["allocate 7 raw [1, 2]", "submit 0d1f-\u{e9}", "wait watcher"]
    );
    let submitted = world.submitted.pop().unwrap();
    match submitted.procedure {
        DdlProcedure::CreateTable(procedure) => {
            assert_eq!(procedure.cluster_id, 7);
            assert_eq!(procedure.task.create_table, "create");
            assert_eq!(procedure.task.partitions, vec![1, 2]);
            assert_eq!(procedure.task.table_info, "raw with id");
            assert_eq!(procedure.region_routes, vec![21, 22]);
        }
        _ => panic!("a create task must create"),
    }
}

#[test]
fn alter_table() {
    let mut world = world();
    let result = execute(&mut world, Some(7), alter_task());
    assert!(is_ok(result, response(None)));
    assert_eq!(
        world.calls,
        [
            "name greptime/public/altered",
            "info 1024",
            "build",
            "submit 0d1f-\u{e9}",
            "wait watcher"
        ]
    );
    let args = world.built.pop().unwrap();
    assert_eq!(args.cluster_id, 7);
    assert_eq!(args.task.alter_table.kind, "add column");
    assert_eq!(args.table_info_value.inner, "info");
    let submitted = world.submitted.pop().unwrap();
    assert!(matches!(submitted.procedure, DdlProcedure::AlterTable(name) if name == "alter"));
}

#[test]
fn cluster_defaults_to_zero() {
    let mut world = world();
    let result = execute(&mut world, None, create_task());
    assert!(result.is_ok());
    assert_eq!(world.calls[0], "allocate 0 raw [1, 2]");
}

#[test]
fn missing_table_info_is_reported_first() {
    for stored in [Ok((None, None)), Ok((None, Some(vec![1])))] {
        let mut world = world();
        world.full_table_info = stored;
        match execute(&mut world, None, drop_task()) {
            Err(Error::TableInfoNotFound { table_name }) => {
                assert_eq!(table_name, "greptime.public.dropped")
            }
            _ => panic!("the missing description must be reported"),
        }
        assert_eq!(world.calls, ["full 31"]);
        assert!(world.submitted.is_empty());
    }
}

#[test]
fn missing_table_route_is_reported() {
    let mut world = world();
    world.full_table_info = Ok((Some("info"), None));
    match execute(&mut world, None, truncate_task()) {
        Err(Error::TableRouteNotFound { table_name }) => {
            assert_eq!(table_name, "greptime.public.truncated")
        }
        _ => panic!("the missing routes must be reported"),
    }
    assert_eq!(world.calls, ["full 32"]);
}

#[test]
fn unknown_table_is_not_altered() {
    let mut world = world();
    world.table_name = Ok(None);
    match execute(&mut world, None, alter_task()) {
        Err(Error::TableNotFound { table_name }) => {
            assert_eq!(table_name, "greptime.public.altered")
        }
        _ => panic!("the missing table must be reported"),
    }
    assert_eq!(world.calls, ["name greptime/public/altered"]);
}

#[test]
fn table_without_info_is_not_altered() {
    let mut world = world();
    world.table_info = Ok(None);
    match execute(&mut world, None, alter_task()) {
        Err(Error::TableInfoNotFound { table_name }) => {
            assert_eq!(table_name, "greptime.public.altered")
        }
        _ => panic!("the missing description must be reported"),
    }
    assert_eq!(world.calls.len(), 2);
}

#[test]
fn errors_of_collaborators_are_forwarded() {
    let mut failing = world();
    failing.table_name = Err("name");
    let result = execute(&mut failing, None, alter_task());
    assert!(matches!(result, Err(Error::Forwarded("name"))));
    assert_eq!(failing.calls.len(), 1);

    let mut failing = world();
    failing.table_info = Err("info");
    let result = execute(&mut failing, None, alter_task());
    assert!(matches!(result, Err(Error::Forwarded("info"))));
    assert_eq!(failing.calls.len(), 2);

    let mut failing = world();
    failing.build = Err("kind is absent");
    let result = execute(&mut failing, None, alter_task());
    assert!(matches!(result, Err(Error::Forwarded("kind is absent"))));
    assert_eq!(failing.calls.len(), 3);
    assert!(failing.submitted.is_empty());

    let mut failing = world();
    failing.full_table_info = Err("full");
    let result = execute(&mut failing, None, drop_task());
    assert!(matches!(result, Err(Error::Forwarded("full"))));
    assert_eq!(failing.calls.len(), 1);

    let mut failing = world();
    failing.allocation = Err("no region left");
    let result = execute(&mut failing, None, create_task());
    assert!(matches!(result, Err(Error::Forwarded("no region left"))));
    assert_eq!(failing.calls.len(), 1);
}

#[test]
fn refused_submission_is_not_waited_for() {
    for task in [create_task(), drop_task(), alter_task(), truncate_task()] {
        let mut world = world();
        world.submit = Err("stopped");
        let result = execute(&mut world, None, task);
        assert!(matches!(result, Err(Error::SubmitProcedure { source: "stopped" })));
        assert_eq!(world.submitted.len(), 1);
        assert_eq!(world.calls.last().unwrap(), "submit 0d1f-\u{e9}");
    }
}

#[test]
fn failed_procedure_is_reported() {
    for task in [create_task(), drop_task(), alter_task(), truncate_task()] {
        let mut world = world();
        world.wait = Err("rolled back");
        let result = execute(&mut world, None, task);
        assert!(matches!(result, Err(Error::WaitProcedure { source: "rolled back" })));
        assert_eq!(world.submitted.len(), 1);
        assert_eq!(world.calls.last().unwrap(), "wait watcher");
    }
}

#[test]
fn submissions_end_with_the_id() {
    let manager = manager();
    let mut world = world();
    let submission = manager.submit_create_table_task(
        1,
        CreateTableTask {
            create_table: "create",
            partitions: Vec::new(),
            table_info: "raw".to_string(),
        },
        vec![5],
        id(),
    );
    let result = follow_submission(&mut world, submission);
    assert!(matches!(result, Ok(done) if done == id()));
    assert_eq!(world.calls, ["submit 0d1f-\u{e9}", "wait watcher"]);
}

#[test]
fn alter_submission_needs_a_procedure() {
    let manager = manager();
    let task = || AlterTableTask {
        alter_table: AlterExpr {
            catalog_name: "greptime".to_string(),
            schema_name: "public".to_string(),
            table_name: "altered".to_string(),
            kind: "add column",
        },
    };

    let mut failing = world();
    failing.build = Err("kind is absent");
    let submission = manager.submit_alter_table_task(1, task(), stored_info("info"), id());
    let result = follow_submission(&mut failing, submission);
    assert!(matches!(result, Err(Error::Forwarded("kind is absent"))));
    assert_eq!(failing.calls, ["build"]);

    let mut world = world();
    let submission = manager.submit_alter_table_task(1, task(), stored_info("info"), id());
    let result = follow_submission(&mut world, submission);
    assert!(matches!(result, Ok(done) if done == id()));
    assert_eq!(world.calls, ["build", "submit 0d1f-\u{e9}", "wait watcher"]);
}

#[test]
fn submissions_on_whole_tables() {
    let manager = manager();
    let mut dropping = world();
    dropping.submit = Err("stopped");
    let task = DropTableTask {
        catalog: "greptime".to_string(),
        schema: "public".to_string(),
        table: "dropped".to_string(),
        table_id: 31,
    };
    let submission = manager.submit_drop_table_task(
        1,
        task,
        stored_info("info"),
        stored_route(vec![11]),
        id(),
    );
    let result = follow_submission(&mut dropping, submission);
    assert!(matches!(result, Err(Error::SubmitProcedure { source: "stopped" })));
    assert_eq!(dropping.calls, ["submit 0d1f-\u{e9}"]);

    let mut truncating = world();
    truncating.wait = Err("rolled back");
    let task = TruncateTableTask {
        catalog: "greptime".to_string(),
        schema: "public".to_string(),
        table: "truncated".to_string(),
        table_id: 32,
    };
    let submission =
        manager.submit_truncate_table_task(1, task, stored_info("info"), vec![12], id());
    let result = follow_submission(&mut truncating, submission);
    assert!(matches!(result, Err(Error::WaitProcedure { source: "rolled back" })));
    assert_eq!(truncating.calls, ["submit 0d1f-\u{e9}", "wait watcher"]);
}

#[test]
fn submitted_procedures_have_loaders() {
    for task in [create_task(), drop_task(), alter_task(), truncate_task()] {
        let handles = handles(LocalManager::new());
        let manager = match try_new(&handles).0 {
            Ok(manager) => manager,
            Err(_) => panic!("a loader was refused"),
        };
        let mut world = world();
        assert!(execute_on(&manager, &mut world, None, task).is_ok());
        assert!(Arc::ptr_eq(
            manager.procedure_manager(),
            &handles.procedure_manager
        ));
        let kind = match world.submitted.pop().unwrap().procedure {
            DdlProcedure::CreateTable(_) => ProcedureKind::CreateTable,
            DdlProcedure::DropTable(_) => ProcedureKind::DropTable,
            DdlProcedure::AlterTable(_) => ProcedureKind::AlterTable,
            DdlProcedure::TruncateTable(_) => ProcedureKind::TruncateTable,
        };
        assert!(handles.procedure_manager.contains_loader(kind.procedure_type()));
    }
}

#[test]
fn only_replies_decide() {
    let mut one = world();
    one.full_table_info = Ok((None, None));
    let mut other = world();
    other.full_table_info = Ok((None, None));
    other.submit = Err("stopped");
    other.table_name = Ok(None);
    let first = execute(&mut one, None, drop_task());
    let second = execute(&mut other, None, drop_task());
    assert_eq!(one.calls, other.calls);
    match (first, second) {
        (
            Err(Error::TableInfoNotFound { table_name: left }),
            Err(Error::TableInfoNotFound { table_name: right }),
        ) => assert_eq!(left, right),
        _ => panic!("the missing description must be reported"),
    }
}
