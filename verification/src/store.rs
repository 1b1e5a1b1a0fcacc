//! The mapping store: one SQLite table of long URLs under their
//! fingerprints, and a second table for usage counters.
//!
//! Every operation opens a connection of its own, runs one statement and
//! closes the connection again. What the database answers is outside this
//! library's reach; each function says what it does with every answer, and
//! on which databases it is bound to fail.

use crate::mapping::UrlMapping;
use crate::sqlite::execute_integer;
use crate::sqlite::execute_unbound;
use crate::sqlite::failure_text;
use crate::sqlite::holds_nul;
use crate::sqlite::insert_text_integer;
use crate::sqlite::open_connection;
use crate::sqlite::prepare;
use crate::sqlite::select_integer;
use crate::sqlite::select_text;
use crate::sqlite::select_unbound;
use crate::sqlite::RawRow;
use rusqlite::Connection;
use vstd::prelude::*;

verus! {

/// Creates the mapping table unless it is there.
pub const URL_MAPPINGS_DDSQL: &'static str =
    "CREATE TABLE IF NOT EXISTS url_mappings (
        id INTEGER PRIMARY KEY,
        long_url TEXT NOT NULL,
        url_hash INTEGER NOT NULL UNIQUE,
        created_on TIMESTAMP DEFAULT CURRENT_TIMESTAMP NOT NULL
    )";

/// Creates the usage table unless it is there.
pub const URL_MAPPINGS_INFO_DDSQL: &'static str =
    "CREATE TABLE IF NOT EXISTS url_mappings_info (
        id INTEGER PRIMARY KEY,
        mappings_id INTEGER NOT NULL,
        created_on TIMESTAMP DEFAULT CURRENT_TIMESTAMP NOT NULL,
        requested_from TEXT,
        duplicate_requests INTEGER NOT NULL DEFAULT 0,
        redirects_served INTEGER NOT NULL DEFAULT 0,
        marked_for_deletion TIMESTAMP,
        FOREIGN KEY(mappings_id) REFERENCES url_mappings(id)
    )";

pub const GET_BY_ID_MAPPINGS_SQL: &'static str = "SELECT * FROM url_mappings WHERE id = :id";

pub const GET_BY_URL_HASH_SQL: &'static str =
    "SELECT * FROM url_mappings WHERE url_hash = :url_hash";

pub const GET_BY_LONG_URL_SQL: &'static str =
    "SELECT * FROM url_mappings WHERE long_url = :long_url";

pub const GET_ALL_URL_MAPPINGS: &'static str = "SELECT * FROM url_mappings ORDER BY id ASC";

pub const DELETE_FROM_MAPPINGS_SQL: &'static str =
    "DELETE FROM url_mappings WHERE url_hash = :url_hash";

/// Writes a row, in place of the row of the same fingerprint if there is one.
pub const INSERT_INTO_MAPPINGS_SQL: &'static str =
    "INSERT OR REPLACE INTO url_mappings (long_url, url_hash) VALUES (:long_url, :url_hash)";

/// The step of a store operation.
#[derive(Clone, Copy, Debug, PartialEq, Eq, Structural)]
pub enum StoreStep {
    /// Opening the database.
    Connect,
    /// Compiling the statement.
    Prepare,
    /// Running the statement, or reading its rows.
    Run,
}

/// A store operation that SQLite did not carry out.
#[derive(Clone, Debug, PartialEq, Eq)]
pub struct StoreError {
    /// The step that failed.
    pub step: StoreStep,
    /// SQLite's account of the failure.
    pub message: String,
}

/// The schema could not be created: the store cannot serve.
#[derive(Clone, Debug, PartialEq, Eq)]
pub struct SchemaError {
    pub cause: StoreError,
}

/// The place of the database.
#[derive(Clone, Debug)]
pub struct Db {
    path: String,
}

impl View for Db {
    type V = Seq<char>;

    /// The path, or URI, of the database file.
    closed spec fn view(&self) -> Seq<char> {
        self.path@
    }
}

/// What an operation makes of SQLite's answer at `step`: the value where
/// SQLite gave one, and an error that names `step` where it failed.
pub fn at_step<T>(step: StoreStep, answer: Result<T, rusqlite::Error>) -> (out: Result<
    T,
    StoreError,
>)
    ensures
        answer matches Ok(value) ==> out == Ok::<T, StoreError>(value),
        answer is Err ==> (out matches Err(error) && error.step == step),
{
    match answer {
        Ok(value) => Ok(value),
        Err(why) => Err(StoreError { step, message: failure_text(&why) }),
    }
}

/// Whether `out` is the failure of an operation that could not open its
/// database.
pub open spec fn failed_to_connect<T>(out: Result<T, StoreError>) -> bool {
    out matches Err(error) && error.step == StoreStep::Connect
}

impl Db {
    /// The database at `dbpath`. Nothing is opened yet.
    pub fn new(dbpath: &str) -> (db: Db)
        ensures
            db@ == dbpath@,
    {
        Db { path: dbpath.to_owned() }
    }

    /// A new connection to the database. A path that holds NUL is never
    /// opened; of any other path the file decides.
    pub fn connect(&self) -> (opened: Result<Connection, StoreError>)
        ensures
            opened matches Err(error) ==> error.step == StoreStep::Connect,
            holds_nul(self@) ==> opened is Err,
    {
        at_step(StoreStep::Connect, open_connection(self.path.as_str()))
    }
}

/// Whether every one of `mappings` carries its creation time, as the
/// records read from the table do.
pub open spec fn all_read_from_store(mappings: Seq<UrlMapping>) -> bool {
    forall|i: int| 0 <= i < mappings.len() ==> (#[trigger] mappings[i]).created_on is Some
}

/// The record that a row of the mapping table holds.
pub open spec fn mapping_of_row(row: RawRow) -> UrlMapping {
    UrlMapping { id: row.0, long_url: row.1, url_hash: row.2, created_on: Some(row.3) }
}

/// Whether a statement that changed `changed` rows removed anything; a
/// statement that failed removed nothing.
pub open spec fn spec_rows_removed(changed: Result<usize, rusqlite::Error>) -> bool {
    changed matches Ok(count) && count > 0
}

/// The record that `row` holds.
pub fn mapping_from_row(row: &RawRow) -> (mapping: UrlMapping)
    ensures
        mapping == mapping_of_row(*row),
{
    UrlMapping {
        id: row.0,
        long_url: row.1.clone(),
        url_hash: row.2,
        created_on: Some(row.3.clone()),
    }
}

/// The records that `rows` hold, in the same order.
pub fn mappings_from_rows(rows: &Vec<RawRow>) -> (mappings: Vec<UrlMapping>)
    ensures
        mappings@.len() == rows@.len(),
        forall|i: int| 0 <= i < rows@.len() ==> #[trigger] mappings@[i] == mapping_of_row(rows@[i]),
{
    let mut mappings: Vec<UrlMapping> = Vec::new();
    let mut i: usize = 0;
    while i < rows.len()
        invariant
            i <= rows.len(),
            mappings@.len() == i,
            forall|j: int| 0 <= j < i ==> #[trigger] mappings@[j] == mapping_of_row(rows@[j]),
        decreases rows.len() - i,
    {
        mappings.push(mapping_from_row(&rows[i]));
        i += 1;
    }
    mappings
}

/// The record of the first of `rows`, `None` where there is no row.
pub fn first_mapping(rows: &Vec<RawRow>) -> (found: Option<UrlMapping>)
    ensures
        rows@.len() == 0 ==> found is None,
        rows@.len() > 0 ==> found == Some(mapping_of_row(rows@[0])),
{
    if rows.len() == 0 {
        None
    } else {
        Some(mapping_from_row(&rows[0]))
    }
}

/// Whether a delete that SQLite answered with `changed` removed a row.
pub fn rows_removed(changed: &Result<usize, rusqlite::Error>) -> (removed: bool)
    ensures
        removed == spec_rows_removed(*changed),
{
    match changed {
        Ok(count) => *count > 0,
        Err(_) => false,
    }
}

impl Db {
    /// Creates the two tables unless they are there. An error means that
    /// the store cannot be used: the database could not be opened, or one of
    /// the two statements did not run. A path that holds NUL always fails to
    /// open.
    pub fn init_schema(&self) -> (created: Result<(), SchemaError>)
        ensures
            created matches Err(error) ==> error.cause.step == StoreStep::Connect
                || error.cause.step == StoreStep::Run,
            holds_nul(self@) ==> (created matches Err(error) && error.cause.step
                == StoreStep::Connect),
    {
        let conn = match self.connect() {
            Ok(conn) => conn,
            Err(error) => {
                return Err(SchemaError { cause: error });
            },
        };
        let statements = [URL_MAPPINGS_DDSQL, URL_MAPPINGS_INFO_DDSQL];
        let mut i: usize = 0;
        while i < 2
            invariant
                i <= 2,
                !holds_nul(self@),
            decreases 2 - i,
        {
            match self.create_schema(&conn, statements[i]) {
                Ok(_) => {},
                Err(error) => {
                    return Err(SchemaError { cause: error });
                },
            }
            i += 1;
        }
        Ok(())
    }

    /// Runs one statement that creates a table.
    fn create_schema(&self, conn: &Connection, sql: &str) -> (changed: Result<usize, StoreError>)
        ensures
            changed matches Err(error) ==> error.step == StoreStep::Run,
    {
        at_step(StoreStep::Run, execute_unbound(conn, sql))
    }
}

impl UrlMapping {
    /// Stores `long_url` under `url_hash`, in place of the row that has this
    /// fingerprint if there is one, and returns the id of the new row.
    pub fn insert(db: &Db, long_url: &String, url_hash: i64) -> (inserted: Result<i64, StoreError>)
        ensures
            holds_nul(db@) ==> failed_to_connect(inserted),
    {
        let conn = db.connect()?;
        let mut stmt = at_step(StoreStep::Prepare, prepare(&conn, INSERT_INTO_MAPPINGS_SQL))?;
        at_step(
            StoreStep::Run,
            insert_text_integer(&mut stmt, ":long_url", long_url.as_str(), ":url_hash", url_hash),
        )
    }

    /// Removes the row of `url_hash` and says whether there was one. A
    /// statement that fails while it runs has removed nothing.
    pub fn delete(db: &Db, url_hash: i64) -> (removed: Result<bool, StoreError>)
        ensures
            removed matches Err(error) ==> error.step != StoreStep::Run,
            holds_nul(db@) ==> failed_to_connect(removed),
    {
        let conn = db.connect()?;
        let mut stmt = at_step(StoreStep::Prepare, prepare(&conn, DELETE_FROM_MAPPINGS_SQL))?;
        let changed = execute_integer(&mut stmt, ":url_hash", url_hash);
        Ok(rows_removed(&changed))
    }

    /// The row of `url_hash`, `None` where the table has none.
    pub fn query_by_url_hash(db: &Db, url_hash: i64) -> (found: Result<
        Option<UrlMapping>,
        StoreError,
    >)
        ensures
            found matches Ok(Some(mapping)) ==> mapping.created_on is Some,
            holds_nul(db@) ==> failed_to_connect(found),
    {
        let conn = db.connect()?;
        let mut stmt = at_step(StoreStep::Prepare, prepare(&conn, GET_BY_URL_HASH_SQL))?;
        let rows = at_step(StoreStep::Run, select_integer(&mut stmt, ":url_hash", url_hash))?;
        Ok(first_mapping(&rows))
    }

    /// The row with the given id, `None` where the table has none.
    pub fn query_by_id(db: &Db, id: i64) -> (found: Result<Option<UrlMapping>, StoreError>)
        ensures
            found matches Ok(Some(mapping)) ==> mapping.created_on is Some,
            holds_nul(db@) ==> failed_to_connect(found),
    {
        let conn = db.connect()?;
        let mut stmt = at_step(StoreStep::Prepare, prepare(&conn, GET_BY_ID_MAPPINGS_SQL))?;
        let rows = at_step(StoreStep::Run, select_integer(&mut stmt, ":id", id))?;
        Ok(first_mapping(&rows))
    }

    /// The rows whose long URL is `long_url`.
    pub fn query_by_long_url(db: &Db, long_url: String) -> (found: Result<
        Vec<UrlMapping>,
        StoreError,
    >)
        ensures
            found matches Ok(mappings) ==> all_read_from_store(mappings@),
            holds_nul(db@) ==> failed_to_connect(found),
    {
        let conn = db.connect()?;
        let mut stmt = at_step(StoreStep::Prepare, prepare(&conn, GET_BY_LONG_URL_SQL))?;
        let rows = at_step(StoreStep::Run, select_text(&mut stmt, ":long_url", long_url.as_str()))?;
        Ok(mappings_from_rows(&rows))
    }

    /// Every row of the table, by ascending id.
    pub fn get_all(db: &Db) -> (all: Result<Vec<UrlMapping>, StoreError>)
        ensures
            all matches Ok(mappings) ==> all_read_from_store(mappings@),
            holds_nul(db@) ==> failed_to_connect(all),
    {
        let conn = db.connect()?;
        let mut stmt = at_step(StoreStep::Prepare, prepare(&conn, GET_ALL_URL_MAPPINGS))?;
        let rows = at_step(StoreStep::Run, select_unbound(&mut stmt))?;
        Ok(mappings_from_rows(&rows))
    }
}

} // verus!
