use vstd::prelude::*;

use crate::backend::Backend;
use crate::procedure::{DdlContext, ProcedureKind};

verus! {

/// Restores stored procedures of one kind. It can be used any number of times.
pub struct Loader<B: Backend> {
    pub kind: ProcedureKind,
    pub context: DdlContext<B>,
}

/// A procedure that was restored from its stored form.
pub enum RestoredProcedure<B: Backend> {
    CreateTable(B::RestoredCreateTable),
    DropTable(B::RestoredDropTable),
    AlterTable(B::AlterTableProcedure),
    TruncateTable(B::RestoredTruncateTable),
}

impl<B: Backend> RestoredProcedure<B> {
    /// The kind of the procedure.
    pub open spec fn kind(self) -> ProcedureKind {
        match self {
            RestoredProcedure::CreateTable(_) => ProcedureKind::CreateTable,
            RestoredProcedure::DropTable(_) => ProcedureKind::DropTable,
            RestoredProcedure::AlterTable(_) => ProcedureKind::AlterTable,
            RestoredProcedure::TruncateTable(_) => ProcedureKind::TruncateTable,
        }
    }
}

/// What a procedure is restored from: its stored form, and the context that it
/// is to work with.
pub struct FromJson<'j, B: Backend> {
    pub json: &'j str,
    pub context: DdlContext<B>,
}

/// The step of restoring a procedure: parse the stored form of a procedure of
/// this kind.
pub enum Loading<'j, B: Backend> {
    CreateTable(FromJson<'j, B>, CreateTableLoading),
    DropTable(FromJson<'j, B>, DropTableLoading),
    AlterTable(FromJson<'j, B>, AlterTableLoading),
    TruncateTable(FromJson<'j, B>, TruncateTableLoading),
}

impl<'j, B: Backend> Loading<'j, B> {
    /// What the procedure is restored from.
    pub open spec fn call(self) -> FromJson<'j, B> {
        match self {
            Loading::CreateTable(call, _) => call,
            Loading::DropTable(call, _) => call,
            Loading::AlterTable(call, _) => call,
            Loading::TruncateTable(call, _) => call,
        }
    }
}

impl<B: Backend> Loader<B> {
    /// The name of the procedures that the loader restores.
    pub fn procedure_type(&self) -> (procedure_type: &'static str)
        ensures
            procedure_type@ == self.kind.name(),
    {
        self.kind.procedure_type()
    }

    /// The stored form is parsed as a procedure of the loader's kind, with the
    /// loader's context.
    pub open spec fn loading<'j>(self, json: &'j str) -> Loading<'j, B> {
        let call = FromJson { json, context: self.context };
        match self.kind {
            ProcedureKind::CreateTable => Loading::CreateTable(call, CreateTableLoading),
            ProcedureKind::DropTable => Loading::DropTable(call, DropTableLoading),
            ProcedureKind::AlterTable => Loading::AlterTable(call, AlterTableLoading),
            ProcedureKind::TruncateTable => Loading::TruncateTable(call, TruncateTableLoading),
        }
    }

    /// Starts to restore a procedure from its stored form.
    pub fn load<'j>(&self, json: &'j str) -> (loading: Loading<'j, B>)
        ensures
            loading == self.loading(json),
    {
        let call = FromJson { json, context: self.context.clone() };
        match self.kind {
            ProcedureKind::CreateTable => Loading::CreateTable(call, CreateTableLoading),
            ProcedureKind::DropTable => Loading::DropTable(call, DropTableLoading),
            ProcedureKind::AlterTable => Loading::AlterTable(call, AlterTableLoading),
            ProcedureKind::TruncateTable => Loading::TruncateTable(call, TruncateTableLoading),
        }
    }
}

/// The parse of a procedure that creates a table.
pub struct CreateTableLoading;

impl CreateTableLoading {
    /// The parsed procedure is what was restored; a failure is handed on.
    pub open spec fn after<B: Backend>(
        self,
        reply: Result<B::RestoredCreateTable, B::ProcedureError>,
    ) -> Result<RestoredProcedure<B>, B::ProcedureError> {
        match reply {
            Ok(procedure) => Ok(RestoredProcedure::CreateTable(procedure)),
            Err(error) => Err(error),
        }
    }

    /// Goes on with the parsed procedure, or with why it could not be parsed.
    pub fn resume<B: Backend>(self, reply: Result<B::RestoredCreateTable, B::ProcedureError>) -> (restored:
        Result<RestoredProcedure<B>, B::ProcedureError>)
        ensures
            restored == self.after::<B>(reply),
    {
        match reply {
            Ok(procedure) => Ok(RestoredProcedure::CreateTable(procedure)),
            Err(error) => Err(error),
        }
    }
}

/// The parse of a procedure that drops a table.
pub struct DropTableLoading;

impl DropTableLoading {
    /// The parsed procedure is what was restored; a failure is handed on.
    pub open spec fn after<B: Backend>(
        self,
        reply: Result<B::RestoredDropTable, B::ProcedureError>,
    ) -> Result<RestoredProcedure<B>, B::ProcedureError> {
        match reply {
            Ok(procedure) => Ok(RestoredProcedure::DropTable(procedure)),
            Err(error) => Err(error),
        }
    }

    /// Goes on with the parsed procedure, or with why it could not be parsed.
    pub fn resume<B: Backend>(self, reply: Result<B::RestoredDropTable, B::ProcedureError>) -> (restored:
        Result<RestoredProcedure<B>, B::ProcedureError>)
        ensures
            restored == self.after::<B>(reply),
    {
        match reply {
            Ok(procedure) => Ok(RestoredProcedure::DropTable(procedure)),
            Err(error) => Err(error),
        }
    }
}

/// The parse of a procedure that alters a table.
pub struct AlterTableLoading;

impl AlterTableLoading {
    /// The parsed procedure is what was restored; a failure is handed on.
    pub open spec fn after<B: Backend>(
        self,
        reply: Result<B::AlterTableProcedure, B::ProcedureError>,
    ) -> Result<RestoredProcedure<B>, B::ProcedureError> {
        match reply {
            Ok(procedure) => Ok(RestoredProcedure::AlterTable(procedure)),
            Err(error) => Err(error),
        }
    }

    /// Goes on with the parsed procedure, or with why it could not be parsed.
    pub fn resume<B: Backend>(self, reply: Result<B::AlterTableProcedure, B::ProcedureError>) -> (restored:
        Result<RestoredProcedure<B>, B::ProcedureError>)
        ensures
            restored == self.after::<B>(reply),
    {
        match reply {
            Ok(procedure) => Ok(RestoredProcedure::AlterTable(procedure)),
            Err(error) => Err(error),
        }
    }
}

/// The parse of a procedure that truncates a table.
pub struct TruncateTableLoading;

impl TruncateTableLoading {
    /// The parsed procedure is what was restored; a failure is handed on.
    pub open spec fn after<B: Backend>(
        self,
        reply: Result<B::RestoredTruncateTable, B::ProcedureError>,
    ) -> Result<RestoredProcedure<B>, B::ProcedureError> {
        match reply {
            Ok(procedure) => Ok(RestoredProcedure::TruncateTable(procedure)),
            Err(error) => Err(error),
        }
    }

    /// Goes on with the parsed procedure, or with why it could not be parsed.
    pub fn resume<B: Backend>(self, reply: Result<B::RestoredTruncateTable, B::ProcedureError>) -> (restored:
        Result<RestoredProcedure<B>, B::ProcedureError>)
        ensures
            restored == self.after::<B>(reply),
    {
        match reply {
            Ok(procedure) => Ok(RestoredProcedure::TruncateTable(procedure)),
            Err(error) => Err(error),
        }
    }
}

} // verus!
