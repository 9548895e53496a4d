use vstd::prelude::*;

verus! {

#[verifier::external_type_specification]
#[verifier::external_body]
pub struct ExConnection(r2d2_sqlite::rusqlite::Connection);

#[verifier::external_type_specification]
#[verifier::external_body]
pub struct ExSqliteConnectionManager(r2d2_sqlite::SqliteConnectionManager);

/// A direct connection to the embedded store.
pub type DbConnection = r2d2_sqlite::rusqlite::Connection;

/// A fixed-size set of reusable connections to one embedded store.
/// Verus refuses the declaration of r2d2's pool type (its generics are
/// bound by an outside trait), so the pool is held opaque here.
#[verifier::external_body]
pub struct ConnectionPool {
    pool: r2d2::Pool<r2d2_sqlite::SqliteConnectionManager>,
}

/// A pooled connection handle: exclusive use while checked out, returned
/// to the pool when dropped. Held opaque for the same reason as
/// `ConnectionPool`.
#[verifier::external_body]
pub struct PooledHandle {
    handle: r2d2::PooledConnection<r2d2_sqlite::SqliteConnectionManager>,
}

/// Relies on rusqlite::Connection::open: opens (creating if absent) the
/// store at the given path and returns the connection, or the error text
/// when the store cannot be opened.
#[verifier::external_body]
pub fn open_connection(path: &str) -> Result<DbConnection, String> {
    r2d2_sqlite::rusqlite::Connection::open(path).map_err(|e| e.to_string())
}

/// Relies on rusqlite::Connection::execute: runs one SQL statement with
/// no parameters against the store; Ok carries the number of rows
/// changed, Err the store's error text (malformed SQL, constraint
/// violation, and the like).
#[verifier::external_body]
pub fn exec_sql(conn: &DbConnection, sql: &str) -> Result<usize, String> {
    conn.execute(sql, []).map_err(|e| e.to_string())
}

/// Relies on rusqlite::Connection::execute: runs one SQL statement,
/// binding the single `?` parameter to the given integer.
#[verifier::external_body]
pub fn exec_sql_i64(conn: &DbConnection, sql: &str, v: i64) -> Result<usize, String> {
    conn.execute(sql, [v]).map_err(|e| e.to_string())
}

/// Relies on rusqlite::Connection::query_row: runs the query and returns
/// the first column of the first row as text; Err carries the store's
/// error text, in particular when the query matches no row at all.
#[verifier::external_body]
pub fn query_first_text(conn: &DbConnection, sql: &str) -> Result<String, String> {
    conn.query_row(sql, [], |row| row.get::<usize, String>(0)).map_err(|e| e.to_string())
}

/// Switches the store at `path` to write-ahead logging, under which
/// readers proceed concurrently with the one writer: opens a connection
/// of its own and asks the store for the journal mode that resulted.
pub fn enable_wal_mode(path: &str) -> Result<String, String> {
    match open_connection(path) {
        Ok(conn) => query_first_text(&conn, "PRAGMA journal_mode=WAL;"),
        Err(e) => Err(e),
    }
}

/// Relies on r2d2_sqlite::SqliteConnectionManager::file: a manager whose
/// connections all open the store file at the given path.
#[verifier::external_body]
pub fn manager_file(path: &str) -> r2d2_sqlite::SqliteConnectionManager {
    r2d2_sqlite::SqliteConnectionManager::file(path)
}

/// Relies on r2d2_sqlite::SqliteConnectionManager::memory: a manager
/// whose connections all share one fresh in-memory store.
#[verifier::external_body]
pub fn manager_memory() -> r2d2_sqlite::SqliteConnectionManager {
    r2d2_sqlite::SqliteConnectionManager::memory()
}

impl ConnectionPool {
    /// Relies on r2d2::Pool::build (via Builder): eagerly opens the
    /// pool's connections; Err carries the error text when the store
    /// cannot be opened, in which case no pool exists at all.
    #[verifier::external_body]
    pub fn new(
        manager: r2d2_sqlite::SqliteConnectionManager,
        size: u32,
    ) -> Result<ConnectionPool, String>
        requires
            size >= 1,
    {
        match r2d2::Pool::builder().max_size(size).build(manager) {
            Ok(pool) => Ok(ConnectionPool { pool }),
            Err(e) => Err(e.to_string()),
        }
    }

    /// Relies on r2d2::Pool::get: blocks the calling task until a
    /// connection is free, then returns exclusive use of it; Err
    /// carries the error text when no connection could be had within
    /// the pool's timeout.
    #[verifier::external_body]
    pub fn checkout(&self) -> Result<PooledHandle, String> {
        match self.pool.get() {
            Ok(handle) => Ok(PooledHandle { handle }),
            Err(e) => Err(e.to_string()),
        }
    }

    /// Relies on r2d2::Pool::clone: the clone draws from the same set
    /// of connections as the original.
    #[verifier::external_body]
    pub fn duplicate(&self) -> ConnectionPool {
        ConnectionPool { pool: self.pool.clone() }
    }
}

/// A pool of `size` connections onto the store file at `path`;
/// construction fails, and the process must not proceed, when the
/// store cannot be opened.
pub fn open_file_pool(path: &str, size: u32) -> Result<ConnectionPool, String>
    requires
        size >= 1,
{
    ConnectionPool::new(manager_file(path), size)
}

/// A pool of `size` connections sharing one fresh in-memory store.
pub fn open_memory_pool(size: u32) -> Result<ConnectionPool, String>
    requires
        size >= 1,
{
    ConnectionPool::new(manager_memory(), size)
}

impl PooledHandle {
    /// Relies on r2d2::PooledConnection's Deref impl: a checked-out
    /// handle is a plain connection for as long as it is held.
    #[verifier::external_body]
    pub fn conn<'a>(&'a self) -> &'a DbConnection {
        &*self.handle
    }
}

} // verus!
