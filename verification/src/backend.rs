//! What the node keeps in its store, and how it is read back.

pub mod database;
pub mod database_interface;
pub mod directory;
pub mod sql;
