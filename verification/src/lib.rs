//! A record store for to-do items kept in program-owned accounts.
//!
//! The store knows one record type, [`Task`], and three instructions on it:
//! create, update and mark-done. Every instruction is a total function from
//! the accounts it is handed, its arguments and the current time to either the
//! changed accounts or an [`ErrorCode`]; a rejected instruction changes nothing.

pub mod error;
pub mod identity;
pub mod instructions;
pub mod layout;
pub mod task;

pub use error::ErrorCode;
pub use instructions::{
    adding_task, deleting_task, updating_task, AddingTask, DeletingTask, UpdatingTask,
};
pub use task::{Task, TaskView};
