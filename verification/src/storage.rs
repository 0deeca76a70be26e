use crate::backend::{
    capacity_of, execute_statement, open_pool, pool_checkout, pool_error_text, pool_max_size,
    source_of, sqlite_error_text, DatabaseConnection, DatabaseConnectionPool,
};
use crate::config::{PoolConfig, DEFAULT_MAX_SIZE};
use crate::error::{unavailable_text, DatabaseError, StartupError, StartupStage};
use vstd::prelude::*;
use vstd::string::*;

verus! {

/// The path of the store's file, relative to where the process runs.
pub open spec fn database_path_text() -> Seq<char> {
    "messages.db"@
}

/// The statement that creates the messages table unless it is there: an
/// integer key that keeps row ids stable, and a text payload.
pub open spec fn schema_text() -> Seq<char> {
    "CREATE TABLE IF NOT EXISTS messages (id INTEGER PRIMARY KEY, text TEXT)"@
}

/// The cause given when the limits admit no pool.
pub open spec fn invalid_limits_text() -> Seq<char> {
    "max_size must be from 1 to 1024, connection_timeout_secs from 1 to 86400"@
}

/// The path of the store's file.
pub fn database_path() -> (path: &'static str)
    ensures
        path@ == database_path_text(),
{
    "messages.db"
}

/// The statement that `create_table_if_needed` issues.
pub fn schema_statement() -> (sql: &'static str)
    ensures
        sql@ == schema_text(),
{
    "CREATE TABLE IF NOT EXISTS messages (id INTEGER PRIMARY KEY, text TEXT)"
}

/// The startup tier: a value passes through, a failure becomes the fatal
/// error of `stage` with the cause it came with.
pub fn fatal_on_failure<T>(stage: StartupStage, outcome: Result<T, String>) -> (res: Result<
    T,
    StartupError,
>)
    ensures
        match outcome {
            Ok(value) => res == Ok::<T, StartupError>(value),
            Err(cause) => res matches Err(e) && e.stage == stage && e.cause@ == cause@,
        },
{
    match outcome {
        Ok(value) => Ok(value),
        Err(cause) => Err(StartupError { stage, cause }),
    }
}

/// The request tier: a connection passes through, a failure becomes the
/// recoverable error that carries the framed cause.
pub fn recover_on_failure<C>(outcome: Result<C, String>) -> (res: Result<C, DatabaseError>)
    ensures
        match outcome {
            Ok(connection) => res == Ok::<C, DatabaseError>(connection),
            Err(cause) => res matches Err(e) && e.diagnostic@ == unavailable_text(cause@),
        },
{
    match outcome {
        Ok(connection) => Ok(connection),
        Err(cause) => Err(DatabaseError::unavailable(cause.as_str())),
    }
}

/// Builds a pool on the file at `path` with the limits of `config`.
///
/// Limits that admit no pool are refused before anything is opened. With
/// valid limits the pool opens its connections; one that comes back holds at
/// most `config.max_size` connections on `path`, and a failure is the fatal
/// error of pool construction.
pub fn get_db_pool_with(path: &str, config: &PoolConfig) -> (res: Result<
    DatabaseConnectionPool,
    StartupError,
>)
    ensures
        !config.is_valid() ==> (res matches Err(e) && e.stage == StartupStage::Configuration
            && e.cause@ == invalid_limits_text()),
        config.is_valid() ==> match res {
            Ok(pool) => capacity_of(pool) == config.max_size && source_of(pool) == path@,
            Err(e) => e.stage == StartupStage::PoolConstruction,
        },
{
    if !config.validate() {
        let cause = String::from_str(
            "max_size must be from 1 to 1024, connection_timeout_secs from 1 to 86400",
        );
        return fatal_on_failure(StartupStage::Configuration, Err(cause));
    }
    match open_pool(path, config.max_size, config.connection_timeout_secs) {
        Ok(pool) => fatal_on_failure(StartupStage::PoolConstruction, Ok(pool)),
        Err(error) => fatal_on_failure(
            StartupStage::PoolConstruction,
            Err(pool_error_text(&error)),
        ),
    }
}

/// Builds the standard pool: the standard limits, on the store's fixed path.
/// A failure is fatal to startup.
pub fn get_db_pool() -> (res: Result<DatabaseConnectionPool, StartupError>)
    ensures
        match res {
            Ok(pool) => capacity_of(pool) == DEFAULT_MAX_SIZE && source_of(pool)
                == database_path_text(),
            Err(e) => e.stage == StartupStage::PoolConstruction,
        },
{
    let config = PoolConfig::standard();
    get_db_pool_with(database_path(), &config)
}

/// The most connections that `db_pool` holds at a time.
pub fn pool_capacity(db_pool: &DatabaseConnectionPool) -> (size: u32)
    ensures
        size == capacity_of(*db_pool),
{
    pool_max_size(db_pool)
}

/// Leases a connection from the pool, waiting as long as the pool allows.
///
/// Never fatal: when the pool gives none, the caller gets the recoverable
/// error, whose diagnostic frames the cause that the pool gave.
pub fn get_db_conn(db_pool: &DatabaseConnectionPool) -> (res: Result<
    DatabaseConnection,
    DatabaseError,
>)
    ensures
        res matches Err(e) ==> exists|cause: Seq<char>|
            e.diagnostic@ == #[trigger] unavailable_text(cause),
{
    match pool_checkout(db_pool) {
        Ok(connection) => recover_on_failure(Ok(connection)),
        Err(error) => {
            let cause = pool_error_text(&error);
            let res = recover_on_failure(Err(cause));
            assert(res matches Err(e) && e.diagnostic@ == unavailable_text(cause@));
            res
        },
    }
}

/// Creates the messages table unless it is there, by the schema statement.
/// A failure is the fatal error of schema creation.
pub fn create_table_if_needed(db_conn: &DatabaseConnection) -> (res: Result<(), StartupError>)
    ensures
        res matches Err(e) ==> e.stage == StartupStage::SchemaCreation,
{
    match execute_statement(db_conn.raw(), schema_statement()) {
        Ok(_changed) => fatal_on_failure(StartupStage::SchemaCreation, Ok(())),
        Err(error) => fatal_on_failure(
            StartupStage::SchemaCreation,
            Err(sqlite_error_text(&error)),
        ),
    }
}

} // verus!
