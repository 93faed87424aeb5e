//! A task list: tasks with a title, an optional description, a completion
//! flag and a soft-delete flag, kept in an in-memory snapshot that mirrors a
//! durable store, viewed through a filter and edited through a small view
//! model.
pub mod laws;
pub mod store;
pub mod task;
pub mod text;
pub mod view_model;
