//! The decision core of an interactive browser over a shell-history database:
//! which rows are in scope, the query that selects them, how a row is shown,
//! and how a keypress moves the session on.

pub mod clauses;
pub mod environment;
pub mod focus;
pub mod history;
pub mod location;
pub mod query;
pub mod reader;
pub mod render;
pub mod session;
pub mod text;
pub mod title;
