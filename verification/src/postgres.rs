//! PostgreSQL-backed storage: column types, the metadata catalog that tracks
//! tables and data bindings, the SQL statements that change the schema, and
//! the registry of databases by name.

pub mod types;
pub mod catalog;
pub mod schema;
pub mod manager;
pub mod worker;
