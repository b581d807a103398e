//! Request logic of a small todo service: configuration, the greeting,
//! the create and list operations over a single `todos` table.
pub mod config;
pub mod handlers;
pub mod todo;
