//! An in-memory store of todo items and the request handlers of a small
//! JSON service built on it.
//!
//! The crate holds the decisions of the service: what each of the five
//! operations does to the collection and which status each outcome is
//! answered with. Transport, JSON and locking are left to the program that
//! embeds it, which hands the handlers a store and plain values.

pub mod handlers;
pub mod ident;
pub mod laws;
pub mod status;
pub mod store;
pub mod todo;

pub use handlers::{
    handler_404, todos_create, todos_delete, todos_get, todos_index, todos_update,
};
pub use status::{middleware_error, ApiError, Status, REQUEST_TIMEOUT_SECS};
pub use store::TodoStore;
pub use todo::{CreateTodo, NotFoundResponse, Pagination, Todo, UpdateTodo};
