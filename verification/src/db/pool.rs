//! Access to the pooled database connections. The pool and the connections
//! it hands out are values of outside crates whose declarations the
//! verifier refuses (their type parameter carries an outside trait bound),
//! so each is held opaquely in a private field of a struct of this crate,
//! and what the calls do is stated on small trusted wrappers.

use vstd::prelude::*;

verus! {

/// Declares the SQLite connection manager that the pool builds
/// connections with; its contents stay opaque to the verifier.
#[verifier::external_type_specification]
#[verifier::external_body]
pub struct ExSqliteConnectionManager(r2d2_sqlite::SqliteConnectionManager);

/// Declares r2d2's error type, returned when no connection can be had.
#[verifier::external_type_specification]
#[verifier::external_body]
pub struct ExR2d2Error(r2d2::Error);

/// Declares rusqlite's error type, returned by failed catalog and table
/// queries.
#[verifier::external_type_specification]
#[verifier::external_body]
pub struct ExRusqliteError(rusqlite::Error);

/// A pool of equivalent connections to one SQLite database.
#[verifier::external_body]
pub struct SQLiteConnectionPool {
    inner: r2d2::Pool<r2d2_sqlite::SqliteConnectionManager>,
}

/// A connection checked out of the pool.
#[verifier::external_body]
pub struct PooledSqliteConnection {
    pub(crate) inner: r2d2::PooledConnection<r2d2_sqlite::SqliteConnectionManager>,
}

impl SQLiteConnectionPool {
    /// Builds a pool whose connections the given manager opens.
    ///
    /// Relies on r2d2::Pool::new, which fails if no first connection can
    /// be opened.
    #[verifier::external_body]
    pub fn new(manager: r2d2_sqlite::SqliteConnectionManager) -> (r: Result<
        SQLiteConnectionPool,
        r2d2::Error,
    >) {
        Ok(SQLiteConnectionPool { inner: r2d2::Pool::new(manager)? })
    }
}

/// Relies on r2d2::Pool::clone: the clone is a handle to the same pool.
#[verifier::external_body]
pub fn pool_clone(pool: &SQLiteConnectionPool) -> SQLiteConnectionPool {
    SQLiteConnectionPool { inner: pool.inner.clone() }
}

/// Relies on r2d2::Pool::get: a connection from the pool, or an error once
/// the pool's connection timeout has passed.
#[verifier::external_body]
pub(crate) fn pool_get(pool: &SQLiteConnectionPool) -> (r: Result<
    PooledSqliteConnection,
    r2d2::Error,
>) {
    match pool.inner.get() {
        Ok(conn) => Ok(PooledSqliteConnection { inner: conn }),
        Err(e) => Err(e),
    }
}

} // verus!
