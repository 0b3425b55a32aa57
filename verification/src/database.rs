//! The connection pool over the database file, and the statements run on it.

use vstd::prelude::*;

verus! {

/// r2d2's error: the pool timed out waiting for a connection.
#[verifier::external_type_specification]
#[verifier::external_body]
pub struct ExPoolError(r2d2::Error);

/// rusqlite's error: a statement could not be prepared, bound or run.
#[verifier::external_type_specification]
#[verifier::external_body]
pub struct ExSqlError(rusqlite::Error);

/// Creates the ingredients table unless it is there already.
pub const CREATE_TABLE_SQL: &'static str =
    "CREATE TABLE IF NOT EXISTS ingredients (
            name        TEXT PRIMARY KEY,
            quantity    INTEGER NOT NULL,
            unit        TEXT NOT NULL,
            last_edited TEXT NOT NULL
        )";

/// Writes one row, replacing the row of the same name if there is one.
/// Parameters: name, quantity, unit, last-edited text.
pub const UPSERT_SQL: &'static str =
    "INSERT OR REPLACE INTO ingredients (name, quantity, unit, last_edited) VALUES (?1, ?2, ?3, ?4)";

/// Reads every row, in whatever order the engine gives them.
pub const SELECT_ALL_SQL: &'static str = "SELECT name, quantity, unit, last_edited FROM ingredients";

/// Removes the row of one name. Parameter: name.
pub const DELETE_SQL: &'static str = "DELETE FROM ingredients WHERE name = ?1";

/// The database file that `create_pool` opens, relative to the working
/// directory.
pub const DATABASE_FILE: &'static str = "inventory.db";

/// A pool of SQLite connections on one database.
///
/// Holds an `r2d2::Pool` over `r2d2_sqlite::SqliteConnectionManager`; the
/// pool's state is not modelled.
#[verifier::external_body]
pub struct DbPool {
    inner: r2d2::Pool<r2d2_sqlite::SqliteConnectionManager>,
}

/// The path of the database file that a pool was opened on. A pool keeps
/// the path it was made with for as long as it lives: every connection it
/// opens, it opens on that path.
pub uninterp spec fn pool_location(pool: DbPool) -> Seq<char>;

/// A connection lent out by the pool; it goes back when it is dropped.
#[verifier::external_body]
pub struct DbConnection {
    inner: r2d2::PooledConnection<r2d2_sqlite::SqliteConnectionManager>,
}

/// One row of the ingredients table as it is stored: the last-edited time
/// is still text.
#[derive(Debug)]
pub struct StoredRow {
    pub name: String,
    pub quantity: u32,
    pub unit: String,
    pub last_edited: String,
}

/// A stored row as plain values.
pub struct StoredRowView {
    pub name: Seq<char>,
    pub quantity: u32,
    pub unit: Seq<char>,
    pub last_edited: Seq<char>,
}

impl View for StoredRow {
    type V = StoredRowView;

    open spec fn view(&self) -> StoredRowView {
        StoredRowView {
            name: self.name@,
            quantity: self.quantity,
            unit: self.unit@,
            last_edited: self.last_edited@,
        }
    }
}

/// Why a pool could not be set up.
#[derive(Debug)]
pub enum SetupError {
    /// The pool could not open its connections to the database file.
    PoolInit(r2d2::Error),
    /// The ingredients table could not be created.
    Schema(rusqlite::Error),
}

/// Opens a pool of connections on the database file at `path`.
///
/// Calls `r2d2_sqlite::SqliteConnectionManager::file` and `r2d2::Pool::new`
/// with r2d2's default configuration. `Pool::new` waits until the pool has
/// opened its connections, or fails when its timeout has passed; which of
/// the two depends on the file system, so nothing is claimed of that. What
/// is claimed is that a pool that comes back is one on `path`: the manager
/// stores the path it is given, and the pool holds that manager.
#[verifier::external_body]
pub(crate) fn open_pool(path: &str) -> (r: Result<DbPool, r2d2::Error>)
    ensures
        r matches Ok(pool) ==> pool_location(pool) == path@,
{
    match r2d2::Pool::new(r2d2_sqlite::SqliteConnectionManager::file(path)) {
        Ok(inner) => Ok(DbPool { inner }),
        Err(e) => Err(e),
    }
}

/// Lends one connection from the pool.
///
/// Calls `r2d2::Pool::get`, which waits up to the pool's connection timeout
/// and then fails. Nothing is claimed of the outcome.
#[verifier::external_body]
pub(crate) fn checkout(pool: &DbPool) -> (r: Result<DbConnection, r2d2::Error>) {
    match pool.inner.get() {
        Ok(inner) => Ok(DbConnection { inner }),
        Err(e) => Err(e),
    }
}

/// Runs one statement that returns no rows, with `params` bound as text in
/// order, and gives the number of rows it changed.
///
/// Calls `rusqlite::Connection::execute` with `rusqlite::params_from_iter`.
/// What comes back depends on the database, so nothing is claimed of it.
#[verifier::external_body]
pub(crate) fn execute(conn: &DbConnection, sql: &str, params: &Vec<String>) -> (r: Result<
    usize,
    rusqlite::Error,
>) {
    conn.inner.execute(sql, rusqlite::params_from_iter(params.iter()))
}

/// Runs one query without parameters whose rows have the four columns name,
/// quantity, unit and last-edited text, and collects the rows in the order
/// the engine gives them.
///
/// Calls `rusqlite::Connection::prepare`, `Statement::query_map` and, on
/// each row, `Row::get` for the columns 3, 0, 1 and 2; the first error ends
/// the query. What comes back depends on the database, so nothing is
/// claimed of it.
#[verifier::external_body]
pub(crate) fn query_rows(conn: &DbConnection, sql: &str) -> (r: Result<
    Vec<StoredRow>,
    rusqlite::Error,
>) {
    let mut statement = conn.inner.prepare(sql)?;
    let rows = statement.query_map([], |row| {
        let last_edited: String = row.get(3)?;
        Ok(StoredRow { name: row.get(0)?, quantity: row.get(1)?, unit: row.get(2)?, last_edited })
    })?;
    rows.collect()
}

/// Turns the outcome of creating the table into the outcome of setting up
/// the pool: the pool itself where the statement ran, a schema error where
/// it did not.
pub fn setup_outcome(pool: DbPool, created: Result<usize, rusqlite::Error>) -> (r: Result<
    DbPool,
    SetupError,
>)
    ensures
        match created {
            Ok(_) => r == Ok::<DbPool, SetupError>(pool),
            Err(e) => r == Err::<DbPool, SetupError>(SetupError::Schema(e)),
        },
{
    match created {
        Ok(_) => Ok(pool),
        Err(e) => Err(SetupError::Schema(e)),
    }
}

/// Opens a pool on the database file at `path` and makes sure that the
/// ingredients table exists.
///
/// Whether this succeeds is up to the file system and the engine. A pool
/// that cannot open its connections, or cannot lend one, gives
/// `SetupError::PoolInit`; a table that cannot be created gives
/// `SetupError::Schema`. The pool that is returned is one on `path`.
pub fn create_pool_at(path: &str) -> (r: Result<DbPool, SetupError>)
    ensures
        r matches Ok(pool) ==> pool_location(pool) == path@,
{
    let pool = match open_pool(path) {
        Ok(pool) => pool,
        Err(e) => {
            return Err(SetupError::PoolInit(e));
        },
    };
    let created = match checkout(&pool) {
        Ok(conn) => execute(&conn, CREATE_TABLE_SQL, &Vec::new()),
        Err(e) => {
            return Err(SetupError::PoolInit(e));
        },
    };
    setup_outcome(pool, created)
}

/// Opens a pool on the file `inventory.db` and makes sure that the
/// ingredients table exists.
pub fn create_pool() -> (r: Result<DbPool, SetupError>)
    ensures
        r matches Ok(pool) ==> pool_location(pool) == DATABASE_FILE@,
{
    create_pool_at(DATABASE_FILE)
}

} // verus!
