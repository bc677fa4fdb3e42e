//! A todo service: the record model, the text of store ids, the statements that
//! the service sends to its relational store together with a model of what the
//! store does with each, the replies of the request handlers, and the order in
//! which the service starts.

pub mod bootstrap;
pub mod handlers;
pub mod ident;
pub mod laws;
pub mod models;
pub mod store;

pub use models::{CreateTodo, Todo, UpdateTodo};
