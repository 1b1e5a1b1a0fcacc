//! The calls into SQLite, through `rusqlite`.
//!
//! What these calls return depends on the database file, so nothing is
//! claimed of what SQLite answers: the store's contracts hold whatever comes
//! back. The one thing claimed is decided before SQLite is asked: a path
//! that holds NUL is not opened.

use rusqlite::Connection;
use rusqlite::OpenFlags;
use rusqlite::Statement;
use rusqlite::ToSql;
use vstd::prelude::*;

verus! {

/// `rusqlite::Connection`, an open database. Nothing is known of what is
/// inside.
#[verifier::external_type_specification]
#[verifier::external_body]
pub struct ExConnection(Connection);

/// `rusqlite::Statement`, a compiled statement of a connection. Nothing is
/// known of what is inside.
#[verifier::external_type_specification]
#[verifier::external_body]
pub struct ExStatement<'conn>(Statement<'conn>);

/// `rusqlite::Error`. Nothing is known of what is inside.
#[verifier::external_type_specification]
#[verifier::external_body]
pub struct ExSqliteFailure(rusqlite::Error);

/// A row of the mapping table as it is read: id, long URL, fingerprint,
/// creation time.
pub type RawRow = (i64, String, i64, String);

/// Whether `path` holds the character NUL. Such a text cannot be handed to
/// SQLite, which takes the bytes up to the first NUL for the whole.
pub open spec fn holds_nul(path: Seq<char>) -> bool {
    path.contains('\0')
}

/// `Connection::open_with_flags`: opens the database at `path` for reading
/// and writing, creates the file if there is none, takes `path` as a URI
/// where it is written as one, and leaves locking to the caller. Trusted:
/// a path that holds NUL is refused before SQLite is asked, as the path is
/// first made a C string.
#[verifier::external_body]
pub(crate) fn open_connection(path: &str) -> (opened: Result<Connection, rusqlite::Error>)
    ensures
        holds_nul(path@) ==> opened is Err,
{
    Connection::open_with_flags(
        path,
        OpenFlags::SQLITE_OPEN_READ_WRITE | OpenFlags::SQLITE_OPEN_CREATE
            | OpenFlags::SQLITE_OPEN_URI | OpenFlags::SQLITE_OPEN_NO_MUTEX,
    )
}

/// `Connection::execute` without parameters: runs the one statement `sql`
/// and returns the number of rows it changed.
#[verifier::external_body]
pub(crate) fn execute_unbound(conn: &Connection, sql: &str) -> (changed: Result<
    usize,
    rusqlite::Error,
>) {
    conn.execute(sql, ())
}

/// `Connection::prepare`: compiles `sql`.
#[verifier::external_body]
pub(crate) fn prepare<'conn>(conn: &'conn Connection, sql: &str) -> (prepared: Result<
    Statement<'conn>,
    rusqlite::Error,
>) {
    conn.prepare(sql)
}

/// `Statement::insert` with a text and an integer bound by name: runs the
/// statement and returns the id of the row it inserted.
#[verifier::external_body]
pub(crate) fn insert_text_integer(
    stmt: &mut Statement<'_>,
    text_name: &str,
    text: &str,
    integer_name: &str,
    integer: i64,
) -> (inserted: Result<i64, rusqlite::Error>) {
    let params: &[(&str, &dyn ToSql)] = &[(text_name, &text), (integer_name, &integer)];
    stmt.insert(params)
}

/// `Statement::execute` with an integer bound by name: runs the statement
/// and returns the number of rows it changed.
#[verifier::external_body]
pub(crate) fn execute_integer(stmt: &mut Statement<'_>, name: &str, integer: i64) -> (changed:
    Result<usize, rusqlite::Error>) {
    let params: &[(&str, &dyn ToSql)] = &[(name, &integer)];
    stmt.execute(params)
}

/// `Statement::query_map` without parameters: runs the query and reads
/// the first four columns of every row, in the order the query gives them.
#[verifier::external_body]
pub(crate) fn select_unbound(stmt: &mut Statement<'_>) -> (rows: Result<
    Vec<RawRow>,
    rusqlite::Error,
>) {
    stmt.query_map([], |row| Ok((row.get(0)?, row.get(1)?, row.get(2)?, row.get(3)?)))?.collect()
}

/// `Statement::query_map` with an integer bound by name: runs the query
/// and reads the first four columns of every row, in the order the query
/// gives them.
#[verifier::external_body]
pub(crate) fn select_integer(stmt: &mut Statement<'_>, name: &str, integer: i64) -> (rows: Result<
    Vec<RawRow>,
    rusqlite::Error,
>) {
    let params: &[(&str, &dyn ToSql)] = &[(name, &integer)];
    stmt.query_map(params, |row| Ok((row.get(0)?, row.get(1)?, row.get(2)?, row.get(3)?)))?.collect()
}

/// `Statement::query_map` with a text bound by name: runs the query and
/// reads the first four columns of every row, in the order the query gives
/// them.
#[verifier::external_body]
pub(crate) fn select_text(stmt: &mut Statement<'_>, name: &str, text: &str) -> (rows: Result<
    Vec<RawRow>,
    rusqlite::Error,
>) {
    let params: &[(&str, &dyn ToSql)] = &[(name, &text)];
    stmt.query_map(params, |row| Ok((row.get(0)?, row.get(1)?, row.get(2)?, row.get(3)?)))?.collect()
}

/// `to_string` on a `rusqlite::Error`: the message that its `Display`
/// writes.
#[verifier::external_body]
pub(crate) fn failure_text(failure: &rusqlite::Error) -> (message: String) {
    failure.to_string()
}

} // verus!
