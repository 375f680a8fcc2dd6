//! The session core of a terminal browser for SQLite databases: the table
//! catalog, the query editor with its highlighter, the result model and the
//! frame that is drawn from them.

pub mod data;
pub mod text;
pub mod tui;
