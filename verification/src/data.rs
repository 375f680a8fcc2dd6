//! What the database hands over, as plain values.

pub mod row;
pub mod sqlite_database;
pub mod sqlite_query;
pub mod sqlite_table;
pub mod sqlite_value;
