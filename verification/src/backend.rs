use crate::config::{MAX_CONNECTION_TIMEOUT_SECS, MAX_POOL_SIZE};
use vstd::prelude::*;

verus! {

/// `r2d2::Error`, what the pool fails with. It is carried, never read: its
/// `Debug` text is all that is taken from it.
#[verifier::external_type_specification]
#[verifier::external_body]
pub struct ExPoolError(r2d2::Error);

/// `rusqlite::Error`, what the engine fails with. It is carried, never read:
/// its `Debug` text is all that is taken from it.
#[verifier::external_type_specification]
#[verifier::external_body]
pub struct ExSqliteError(rusqlite::Error);

/// `rusqlite::Connection`, the engine's handle under a lease. Nothing is
/// known of what it holds.
#[verifier::external_type_specification]
#[verifier::external_body]
pub struct ExSqliteConnection(rusqlite::Connection);

/// A bounded pool of connections to one SQLite file: an `r2d2::Pool` over an
/// `r2d2_sqlite::SqliteConnectionManager`, held unread. It is safe to share
/// by reference among threads. Its size and its path are fixed when it is
/// built; what it holds at a given moment is not modelled, since every holder
/// of a reference changes it.
#[verifier::external_body]
pub struct DatabaseConnectionPool {
    inner: r2d2::Pool<r2d2_sqlite::SqliteConnectionManager>,
}

/// A connection on lease from the pool: an `r2d2::PooledConnection`. Its
/// holder alone uses it; dropping it hands it back to the pool.
#[verifier::external_body]
pub struct DatabaseConnection {
    inner: r2d2::PooledConnection<r2d2_sqlite::SqliteConnectionManager>,
}

/// The most connections that `pool` was built to hold.
pub uninterp spec fn capacity_of(pool: DatabaseConnectionPool) -> nat;

/// The path of the file that `pool` was built on.
pub uninterp spec fn source_of(pool: DatabaseConnectionPool) -> Seq<char>;

/// `SqliteConnectionManager::file`, then `r2d2::Builder::max_size`,
/// `connection_timeout` and `build`. The builder panics on a zero limit, it
/// schedules one connection per unit of size, and the pool adds the timeout
/// to an `Instant`: so both limits are required positive and within their
/// maxima. A pool that comes back keeps the size and the path it was given;
/// whether one comes back is up to the file system and the clock.
#[verifier::external_body]
pub(crate) fn open_pool(path: &str, max_size: u32, timeout_secs: u64) -> (outcome: Result<
    DatabaseConnectionPool,
    r2d2::Error,
>)
    requires
        0 < max_size <= MAX_POOL_SIZE,
        0 < timeout_secs <= MAX_CONNECTION_TIMEOUT_SECS,
    ensures
        outcome matches Ok(pool) ==> capacity_of(pool) == max_size && source_of(pool) == path@,
{
    let manager = r2d2_sqlite::SqliteConnectionManager::file(path);
    let built = r2d2::Pool::builder()
        .max_size(max_size)
        .connection_timeout(std::time::Duration::from_secs(timeout_secs))
        .build(manager);
    match built {
        Ok(inner) => Ok(DatabaseConnectionPool { inner }),
        Err(error) => Err(error),
    }
}

/// `r2d2::Pool::max_size`: the size the pool was built with.
#[verifier::external_body]
pub(crate) fn pool_max_size(pool: &DatabaseConnectionPool) -> (size: u32)
    ensures
        size == capacity_of(*pool),
{
    pool.inner.max_size()
}

/// `r2d2::Pool::get`: waits for a connection for at most the pool's
/// timeout. Nothing is claimed of which way it ends.
#[verifier::external_body]
pub(crate) fn pool_checkout(pool: &DatabaseConnectionPool) -> (outcome: Result<
    DatabaseConnection,
    r2d2::Error,
>) {
    match pool.inner.get() {
        Ok(inner) => Ok(DatabaseConnection { inner }),
        Err(error) => Err(error),
    }
}

/// `rusqlite::Connection::execute` with no parameters. Nothing is claimed of
/// what the engine answers.
#[verifier::external_body]
pub(crate) fn execute_statement(connection: &rusqlite::Connection, sql: &str) -> (outcome: Result<
    usize,
    rusqlite::Error,
>) {
    connection.execute(sql, ())
}

/// The `Debug` text of an `r2d2::Error`.
#[verifier::external_body]
pub(crate) fn pool_error_text(error: &r2d2::Error) -> (text: String) {
    format!("{:?}", error)
}

/// The `Debug` text of a `rusqlite::Error`.
#[verifier::external_body]
pub(crate) fn sqlite_error_text(error: &rusqlite::Error) -> (text: String) {
    format!("{:?}", error)
}

impl DatabaseConnection {
    /// The `rusqlite::Connection` under the lease, by the lease's `Deref`,
    /// for the holder's statements. Nothing is claimed of it.
    #[verifier::external_body]
    pub fn raw(&self) -> (connection: &rusqlite::Connection) {
        &self.inner
    }
}

} // verus!
