//! The DDL manager of a distributed table store, with its decisions verified.
//!
//! A [`ddl_manager::DdlManager`] turns a DDL request into one procedure that
//! it submits and waits for. Everything it needs from outside (the procedure
//! manager, the metadata store, the allocator of new tables) is asked for in
//! steps: a step names a call to make and holds what is to be done with the
//! reply, and `resume` takes the reply to the next step. A caller performs the
//! calls; which calls are made, with which arguments, in which order, and what
//! comes out, is decided here.
//!
//! * [`backend`]: the types that a deployment puts behind a manager;
//! * [`table_name`], [`key`], [`rpc`], [`procedure`], [`error`]: the values
//!   that the decisions read and build;
//! * [`ddl_manager`]: the manager, the registration of its loaders and the
//!   submission of a procedure;
//! * [`loader`]: the restoring of stored procedures;
//! * [`handler`]: the steps of a DDL task;
//! * [`run`]: what happens when the steps are followed to the end, whatever
//!   the replies;
//! * [`laws`]: what holds of every run;
//! * [`step_laws`]: what each step does, over the fields of the values.
pub mod backend;
pub mod ddl_manager;
pub mod error;
pub mod handler;
pub mod key;
pub mod laws;
pub mod loader;
pub mod procedure;
pub mod rpc;
pub mod run;
pub mod step_laws;
pub mod table_name;
