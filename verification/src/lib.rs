//! Access to the message store: a bounded pool of SQLite connections on one
//! local file, and the one table that must exist before the store is used.
//!
//! Failures come in two tiers. Building the pool and creating the table
//! happen once at startup; when either fails the service cannot run, and the
//! caller gets a [`StartupError`] to abort with. Leasing a connection happens
//! per request; when it fails the caller gets a [`DatabaseError`] and goes on.

pub mod backend;
pub mod config;
pub mod error;
pub mod storage;

pub use backend::{DatabaseConnection, DatabaseConnectionPool};
pub use config::PoolConfig;
pub use error::{DatabaseError, StartupError, StartupStage};
pub use storage::{
    create_table_if_needed, database_path, fatal_on_failure, get_db_conn, get_db_pool,
    get_db_pool_with, pool_capacity, recover_on_failure, schema_statement,
};
