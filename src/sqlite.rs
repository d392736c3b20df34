//! The to-do table in SQLite, reached through an r2d2 connection pool.
use vstd::prelude::*;
use r2d2::{Pool, PooledConnection};
use std::time::Duration;
use r2d2_sqlite::SqliteConnectionManager;
use crate::entry::{TodoEntry, entries_view};
use crate::error::{DataAccessError, is_backend_failure};
use crate::order::{entries_in_id_order, rows_view, sorted_by_id};

verus! {

#[verifier::external_type_specification]
#[verifier::external_body]
pub struct ExSqliteConnectionManager(SqliteConnectionManager);

#[verifier::external_type_specification]
#[verifier::external_body]
pub struct ExPoolError(r2d2::Error);

#[verifier::external_type_specification]
#[verifier::external_body]
pub struct ExSqlError(rusqlite::Error);

// r2d2's `Pool` and `PooledConnection` cannot be declared to Verus (their
// `ManageConnection` bound is refused), so each is held in a private field of
// an opaque struct and reached only through the trusted functions below.

/// The pool of connections to the to-do database that every operation
/// borrows from. It is built once at startup and shared by all requests.
#[verifier::external_body]
pub struct TodoPool {
    pool: Pool<SqliteConnectionManager>,
}

/// A connection borrowed from the pool, owned by one operation; it goes back
/// to the pool when dropped, on every path.
#[verifier::external_body]
pub struct TodoConnection {
    conn: PooledConnection<SqliteConnectionManager>,
}

/// Relies on r2d2_sqlite::SqliteConnectionManager::file: a manager whose
/// connections open the database file at `path`. It opens nothing yet.
#[verifier::external_body]
fn file_manager(path: &str) -> (r: SqliteConnectionManager) {
    SqliteConnectionManager::file(path)
}

/// Relies on r2d2_sqlite::SqliteConnectionManager::memory: a manager whose
/// connections all share one fresh in-memory database.
#[verifier::external_body]
fn memory_manager() -> (r: SqliteConnectionManager) {
    SqliteConnectionManager::memory()
}

/// Relies on r2d2's Builder (max_size, connection_timeout, build): a pool of
/// at most `max_size` connections whose acquisitions wait at most
/// `timeout_ms` milliseconds. Building opens the first connections, so it may
/// fail. The builder panics on a zero size or a zero timeout.
#[verifier::external_body]
fn build_pool(manager: SqliteConnectionManager, max_size: u32, timeout_ms: u64) -> (r: Result<
    TodoPool,
    r2d2::Error,
>)
    requires
        max_size > 0,
        timeout_ms > 0,
{
    let pool = Pool::builder().max_size(max_size).connection_timeout(
        Duration::from_millis(timeout_ms),
    ).build(manager)?;
    Ok(TodoPool { pool })
}

impl TodoPool {
    /// A pool of at most `max_size` connections to the database file at
    /// `path`. Acquiring a connection while all of them are in use waits at
    /// most `timeout_ms` milliseconds and then fails with `PoolError`. A zero
    /// size or timeout, or a database that cannot be opened, gives
    /// `PoolError`.
    pub fn open_file(path: &str, max_size: u32, timeout_ms: u64) -> (r: Result<
        TodoPool,
        DataAccessError,
    >)
        ensures
            max_size == 0 || timeout_ms == 0 ==> r matches Err(DataAccessError::PoolError),
            r matches Err(e) ==> e == DataAccessError::PoolError,
    {
        if max_size == 0 || timeout_ms == 0 {
            return Err(DataAccessError::PoolError);
        }
        match build_pool(file_manager(path), max_size, timeout_ms) {
            Ok(p) => Ok(p),
            Err(_) => Err(DataAccessError::PoolError),
        }
    }

    /// As `open_file`, over a fresh in-memory database that the pool's
    /// connections share.
    pub fn open_memory(max_size: u32, timeout_ms: u64) -> (r: Result<TodoPool, DataAccessError>)
        ensures
            max_size == 0 || timeout_ms == 0 ==> r matches Err(DataAccessError::PoolError),
            r matches Err(e) ==> e == DataAccessError::PoolError,
    {
        if max_size == 0 || timeout_ms == 0 {
            return Err(DataAccessError::PoolError);
        }
        match build_pool(memory_manager(), max_size, timeout_ms) {
            Ok(p) => Ok(p),
            Err(_) => Err(DataAccessError::PoolError),
        }
    }
}

/// The statement that creates the to-do table when it is absent. Its
/// `AUTOINCREMENT` makes every new id exceed every id the table ever held,
/// so ids are never reused; `table::add_row` states that rule.
pub fn schema_statement() -> (r: &'static str)
    ensures
        r@ == "CREATE TABLE IF NOT EXISTS todo (id INTEGER PRIMARY KEY AUTOINCREMENT, text TEXT NOT NULL)"@,
{
    "CREATE TABLE IF NOT EXISTS todo (id INTEGER PRIMARY KEY AUTOINCREMENT, text TEXT NOT NULL)"
}

/// The query that reads every row, by ascending id.
pub fn select_statement() -> (r: &'static str)
    ensures
        r@ == "SELECT id, text FROM todo ORDER BY id"@,
{
    "SELECT id, text FROM todo ORDER BY id"
}

/// The insert of one row, with `text` bound as it is to its one parameter;
/// the database assigns the id (`table::add_row`).
pub fn insert_statement<'a>(text: &'a str) -> (r: (&'static str, &'a str))
    ensures
        r.0@ == "INSERT INTO todo (text) VALUES (?1)"@,
        r.1@ == text@,
{
    ("INSERT INTO todo (text) VALUES (?1)", text)
}

/// The delete of the rows whose id is `id`, bound to its one parameter
/// (`table::delete_row`).
pub fn delete_statement(id: i64) -> (r: (&'static str, i64))
    ensures
        r.0@ == "DELETE FROM todo WHERE id = ?1"@,
        r.1 == id,
{
    ("DELETE FROM todo WHERE id = ?1", id)
}

/// Relies on r2d2::Pool::get: it hands out an idle connection, or opens a
/// new one while the pool is below its size, and otherwise waits at most the
/// pool's connection timeout before failing. Nothing is promised of which
/// outcome comes.
#[verifier::external_body]
fn acquire(pool: &TodoPool) -> (r: Result<TodoConnection, r2d2::Error>) {
    let conn = pool.pool.get()?;
    Ok(TodoConnection { conn })
}

/// Relies on rusqlite::Connection::execute_batch: it runs the statements of
/// `sql`, which take no parameters.
#[verifier::external_body]
fn execute_batch(conn: &TodoConnection, sql: &str) -> (r: Result<(), rusqlite::Error>) {
    conn.conn.execute_batch(sql)
}

/// Relies on rusqlite::Connection::execute: it runs `sql` with `text` bound
/// to its one parameter and returns how many rows changed.
#[verifier::external_body]
fn execute_with_text(conn: &TodoConnection, sql: &str, text: &str) -> (r: Result<
    usize,
    rusqlite::Error,
>) {
    conn.conn.execute(sql, [text])
}

/// Relies on rusqlite::Connection::execute: it runs `sql` with `id` bound to
/// its one parameter and returns how many rows changed.
#[verifier::external_body]
fn execute_with_id(conn: &TodoConnection, sql: &str, id: i64) -> (r: Result<
    usize,
    rusqlite::Error,
>) {
    conn.conn.execute(sql, [id])
}

/// Relies on rusqlite's Connection::prepare and Statement::query_map: every
/// row that `sql` selects, read as an integer and a text column.
#[verifier::external_body]
fn query_rows(conn: &TodoConnection, sql: &str) -> (r: Result<
    Vec<(i64, String)>,
    rusqlite::Error,
>) {
    let mut st = conn.conn.prepare(sql)?;
    let rows = st.query_map((), |row| Ok((row.get(0)?, row.get(1)?)))?;
    let all: Result<Vec<(i64, String)>, rusqlite::Error> = rows.collect();
    all
}

/// Borrows a connection for one operation. When every connection is in
/// use, this waits at most the pool's connection timeout, then fails with
/// `PoolError`; it fails the same way when no connection can be opened.
pub fn acquire_connection(pool: &TodoPool) -> (r: Result<TodoConnection, DataAccessError>)
    ensures
        r matches Err(e) ==> e == DataAccessError::PoolError,
{
    match acquire(pool) {
        Ok(c) => Ok(c),
        Err(_) => Err(DataAccessError::PoolError),
    }
}

/// What an operation reports once its statement has run: success, or
/// `QueryError` whatever the database's complaint was.
pub fn statement_outcome<T>(r: Result<T, rusqlite::Error>) -> (o: Result<(), DataAccessError>)
    ensures
        r is Ok ==> o == Ok::<(), DataAccessError>(()),
        r is Err ==> o == Err::<(), _>(DataAccessError::QueryError),
{
    match r {
        Ok(_) => Ok(()),
        Err(_) => Err(DataAccessError::QueryError),
    }
}

/// What a listing reports once the rows have been read: all of them, in
/// ascending id order, or `QueryError` and nothing when the read failed.
pub fn listing_outcome(r: Result<Vec<(i64, String)>, rusqlite::Error>) -> (o: Result<
    Vec<TodoEntry>,
    DataAccessError,
>)
    ensures
        r is Err ==> o matches Err(DataAccessError::QueryError),
        r matches Ok(rows) ==> o matches Ok(v) && sorted_by_id(entries_view(v@))
            && entries_view(v@).to_multiset() == rows_view(rows@).to_multiset(),
{
    match r {
        Ok(rows) => Ok(entries_in_id_order(&rows)),
        Err(_) => Err(DataAccessError::QueryError),
    }
}

/// Creates the to-do table if it is absent, on one connection of the pool.
pub fn create_schema(pool: &TodoPool) -> (r: Result<(), DataAccessError>)
    ensures
        r matches Err(e) ==> is_backend_failure(e),
{
    let conn = match acquire_connection(pool) {
        Ok(c) => c,
        Err(e) => return Err(e),
    };
    statement_outcome(execute_batch(&conn, schema_statement()))
}

/// Reads every stored item, in ascending id order. No partial result is
/// returned: a failed acquisition or query gives an error.
pub fn list_entries(pool: &TodoPool) -> (r: Result<Vec<TodoEntry>, DataAccessError>)
    ensures
        r matches Ok(v) ==> sorted_by_id(entries_view(v@)),
        r matches Err(e) ==> is_backend_failure(e),
{
    let conn = match acquire_connection(pool) {
        Ok(c) => c,
        Err(e) => return Err(e),
    };
    listing_outcome(query_rows(&conn, select_statement()))
}

/// Stores a new item with the given text, unaltered; the database assigns
/// its id.
pub fn add_entry(pool: &TodoPool, text: &str) -> (r: Result<(), DataAccessError>)
    ensures
        r matches Err(e) ==> is_backend_failure(e),
{
    let conn = match acquire_connection(pool) {
        Ok(c) => c,
        Err(e) => return Err(e),
    };
    let (sql, arg) = insert_statement(text);
    statement_outcome(execute_with_text(&conn, sql, arg))
}

/// Removes the item with the given id. An id that no item carries is no
/// error: nothing changes.
pub fn delete_entry(pool: &TodoPool, id: i64) -> (r: Result<(), DataAccessError>)
    ensures
        r matches Err(e) ==> is_backend_failure(e),
{
    let conn = match acquire_connection(pool) {
        Ok(c) => c,
        Err(e) => return Err(e),
    };
    let (sql, arg) = delete_statement(id);
    statement_outcome(execute_with_id(&conn, sql, arg))
}

} // verus!
