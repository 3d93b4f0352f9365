use vstd::prelude::*;

use crate::backend::Backend;

verus! {

/// Why a manager could not be made or a task could not be executed.
pub enum Error<B: Backend> {
    /// The procedure manager refused a loader.
    RegisterProcedureLoader { procedure_type: String, source: B::ProcedureError },
    /// The procedure manager refused the procedure.
    SubmitProcedure { source: B::ProcedureError },
    /// The procedure was submitted and failed.
    WaitProcedure { source: B::ProcedureError },
    /// No table has this name.
    TableNotFound { table_name: String },
    /// The metadata store has no description of the table.
    TableInfoNotFound { table_name: String },
    /// The metadata store has no routes of the table.
    TableRouteNotFound { table_name: String },
    /// The error of a collaborator, handed on unchanged.
    Forwarded(B::Error),
}

/// An [`Error`] with its texts as sequences.
pub enum ErrorView<B: Backend> {
    RegisterProcedureLoader { procedure_type: Seq<char>, source: B::ProcedureError },
    SubmitProcedure { source: B::ProcedureError },
    WaitProcedure { source: B::ProcedureError },
    TableNotFound { table_name: Seq<char> },
    TableInfoNotFound { table_name: Seq<char> },
    TableRouteNotFound { table_name: Seq<char> },
    Forwarded(B::Error),
}

impl<B: Backend> View for Error<B> {
    type V = ErrorView<B>;

    open spec fn view(&self) -> ErrorView<B> {
        match *self {
            Error::RegisterProcedureLoader { procedure_type, source } =>
                ErrorView::RegisterProcedureLoader { procedure_type: procedure_type@, source },
            Error::SubmitProcedure { source } => ErrorView::SubmitProcedure { source },
            Error::WaitProcedure { source } => ErrorView::WaitProcedure { source },
            Error::TableNotFound { table_name } =>
                ErrorView::TableNotFound { table_name: table_name@ },
            Error::TableInfoNotFound { table_name } =>
                ErrorView::TableInfoNotFound { table_name: table_name@ },
            Error::TableRouteNotFound { table_name } =>
                ErrorView::TableRouteNotFound { table_name: table_name@ },
            Error::Forwarded(error) => ErrorView::Forwarded(error),
        }
    }
}

/// A result with the texts of its error as sequences.
pub open spec fn error_view<T, B: Backend>(result: Result<T, Error<B>>) -> Result<T, ErrorView<B>> {
    match result {
        Ok(value) => Ok(value),
        Err(error) => Err(error@),
    }
}

} // verus!
