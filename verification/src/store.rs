//! The trusted boundary around the SQLite storage engine.
//!
//! Everything the cache knows about its metadata store it knows through
//! the contracts in this module.  The store is modelled by two names:
//! `db_map`, the committed contents of the `urls` table as a map from URL
//! text to row, and `db_txn`, the contents as seen inside the currently
//! open transaction, or `None` when no transaction is open.  Each wrapper
//! states how the call it makes moves those two values; each maps an
//! engine failure to `Error::Database` carrying the engine's message.
//!
//! The model describes the store as seen through this one connection; as
//! with any shared database file, a concurrent writer on another
//! connection is outside it, and consistency across connections is the
//! engine's own ACID guarantee.

use vstd::prelude::*;

use crate::error::Error;
use crate::record::{spec_row_storable, Row, RowV};
use crate::value::ColumnValue;

verus! {

#[verifier::external_type_specification]
#[verifier::external_body]
pub struct ExConnection(sqlite::Connection);

#[verifier::external_type_specification]
#[verifier::external_body]
pub struct ExStatement<'l>(sqlite::Statement<'l>);

#[verifier::external_type_specification]
#[verifier::external_body]
pub struct ExValue(sqlite::Value);

/// The committed contents of the `urls` table, keyed by the exact stored
/// URL text, each row as the reading layer (`value_from_sql`) returns
/// it.  A table that does not exist yet holds nothing.
pub uninterp spec fn db_map(c: sqlite::Connection) -> Map<Seq<char>, RowV>;

/// The contents of a store with nothing in it.
pub open spec fn empty_contents() -> Map<Seq<char>, RowV> {
    Map::empty()
}

/// The contents of the `urls` table as seen inside the open transaction,
/// or `None` when no transaction is open on the connection.
pub uninterp spec fn db_txn(c: sqlite::Connection) -> Option<Map<Seq<char>, RowV>>;

/// Relies on `sqlite::Connection::open`: opens (creating if absent) the
/// database at `path`, with no transaction open; the in-memory sentinel
/// starts with no tables at all, hence with empty contents.
#[verifier::external_body]
pub(crate) fn open_connection(path: &str) -> (r: Result<sqlite::Connection, Error>)
    ensures
        r matches Ok(c) ==> db_txn(c) is None,
        r matches Ok(c) ==> (path@ == ":memory:"@ ==> db_map(c) == empty_contents()),
        r matches Err(e) ==> e is Database,
{
    sqlite::Connection::open(path).map_err(
        |e| Error::Database(e.message.unwrap_or_else(|| String::from("an SQLite error"))),
    )
}

/// Relies on `sqlite::Connection::execute` running `BEGIN;`: outside a
/// transaction it opens one that initially sees the committed contents,
/// and moves no data either way.
#[verifier::external_body]
pub(crate) fn begin(c: &mut sqlite::Connection) -> (r: Result<(), Error>)
    requires
        db_txn(*old(c)) is None,
    ensures
        db_map(*final(c)) == db_map(*old(c)),
        r matches Ok(_) ==> db_txn(*final(c)) == Some(db_map(*old(c))),
        r matches Err(e) ==> db_txn(*final(c)) is None && e is Database,
{
    c.execute("BEGIN;").map_err(
        |e| Error::Database(e.message.unwrap_or_else(|| String::from("an SQLite error"))),
    )
}

/// Relies on `sqlite::Connection::execute` running `COMMIT;`: on success
/// the contents seen inside the transaction become the committed
/// contents; on failure the committed contents are untouched.
#[verifier::external_body]
pub(crate) fn commit(c: &mut sqlite::Connection) -> (r: Result<(), Error>)
    requires
        db_txn(*old(c)) is Some,
    ensures
        r matches Ok(_) ==> db_map(*final(c)) == db_txn(*old(c)).unwrap() && db_txn(*final(c))
            is None,
        r matches Err(e) ==> db_map(*final(c)) == db_map(*old(c)) && e is Database,
{
    c.execute("COMMIT;").map_err(
        |e| Error::Database(e.message.unwrap_or_else(|| String::from("an SQLite error"))),
    )
}

/// Relies on `sqlite::Connection::execute` running `ROLLBACK;`: whatever
/// state the connection is in afterwards no transaction is open and the
/// committed contents are untouched (a rollback with nothing open fails,
/// changing nothing).
#[verifier::external_body]
pub(crate) fn rollback(c: &mut sqlite::Connection) -> (r: Result<(), Error>)
    ensures
        db_map(*final(c)) == db_map(*old(c)),
        db_txn(*final(c)) is None,
        r matches Err(e) ==> e is Database,
{
    c.execute("ROLLBACK;").map_err(
        |e| Error::Database(e.message.unwrap_or_else(|| String::from("an SQLite error"))),
    )
}

/// Relies on `sqlite::Connection::execute` running `CREATE TABLE urls`:
/// on success the table exists and is empty; on failure (for one, when it
/// already exists) the contents are untouched.
#[verifier::external_body]
pub(crate) fn create_schema(c: &mut sqlite::Connection) -> (r: Result<(), Error>)
    requires
        db_txn(*old(c)) is None,
    ensures
        db_txn(*final(c)) is None,
        r matches Ok(_) ==> db_map(*final(c)) == empty_contents(),
        r matches Err(e) ==> db_map(*final(c)) == db_map(*old(c)) && e is Database,
{
    c.execute(
        "CREATE TABLE urls (url TEXT NOT NULL UNIQUE, path TEXT NOT NULL, last_modified TEXT, etag TEXT, expires TEXT);",
    ).map_err(|e| Error::Database(e.message.unwrap_or_else(|| String::from("an SQLite error"))))
}

/// Relies on `sqlite::Statement::{bind,next}` on a prepared
/// `INSERT OR REPLACE INTO urls`: inside a transaction a successful run
/// replaces the row keyed by `url` in the transaction's view; the
/// committed contents move only at commit.  The staged row is known
/// exactly only when its cells are storable (null, or NUL-free text):
/// the engine converts anything else on the way in — text is read back
/// only up to a NUL, a float binds as null here, and these text-affinity
/// columns turn a bound integer into text.
#[verifier::external_body]
pub(crate) fn upsert_pending(c: &mut sqlite::Connection, url: &str, row: &Row) -> (r: Result<
    (),
    Error,
>)
    requires
        db_txn(*old(c)) is Some,
    ensures
        db_map(*final(c)) == db_map(*old(c)),
        r matches Ok(_) ==> db_txn(*final(c)) is Some,
        r matches Ok(_) ==> (spec_row_storable(row@) ==> db_txn(*final(c)) == Some(
            db_txn(*old(c)).unwrap().insert(url@, row@),
        )),
        r matches Err(e) ==> e is Database,
{
    let mut run = || -> Result<(), sqlite::Error> {
        let sql = "INSERT OR REPLACE INTO urls (url, path, last_modified, etag, expires) VALUES (?1, ?2, ?3, ?4, ?5);";
        let mut stmt = c.prepare(sql)?;
        stmt.bind((1usize, url))?;
        stmt.bind((2usize, &value_to_sql(&row.path)))?;
        stmt.bind((3usize, &value_to_sql(&row.last_modified)))?;
        stmt.bind((4usize, &value_to_sql(&row.etag)))?;
        stmt.bind((5usize, &value_to_sql(&row.expires)))?;
        stmt.next()?;
        Ok(())
    };
    run().map_err(|e| Error::Database(e.message.unwrap_or_else(|| String::from("an SQLite error"))))
}

/// Relies on `sqlite::Statement::{bind,next,read}` on a prepared
/// `SELECT ... FROM urls WHERE url = ?1`: outside a transaction a
/// successful run returns the committed row stored under exactly that URL
/// text, or nothing when there is none (`url` is UNIQUE, so one row at
/// most matches).
#[verifier::external_body]
pub(crate) fn lookup(c: &sqlite::Connection, url: &str) -> (r: Result<Option<Row>, Error>)
    requires
        db_txn(*c) is None,
    ensures
        r matches Ok(Some(row)) ==> db_map(*c).contains_key(url@) && row@ == db_map(*c)[url@],
        r matches Ok(None) ==> !db_map(*c).contains_key(url@),
        r matches Err(e) ==> e is Database,
{
    let mut run = || -> Result<Option<Row>, sqlite::Error> {
        let mut stmt = c.prepare("SELECT path, last_modified, etag, expires FROM urls WHERE url = ?1;")?;
        stmt.bind((1usize, url))?;
        match stmt.next()? {
            sqlite::State::Row => Ok(Some(Row {
                path: value_from_sql(stmt.read::<sqlite::Value, _>(0)?),
                last_modified: value_from_sql(stmt.read::<sqlite::Value, _>(1)?),
                etag: value_from_sql(stmt.read::<sqlite::Value, _>(2)?),
                expires: value_from_sql(stmt.read::<sqlite::Value, _>(3)?),
            })),
            sqlite::State::Done => Ok(None),
        }
    };
    run().map_err(|e| Error::Database(e.message.unwrap_or_else(|| String::from("an SQLite error"))))
}

/// Relies on `sqlite::Statement::{next,read}` on a prepared
/// `SELECT COUNT(*) FROM sqlite_master`: a successful run counts the
/// schema objects; zero of them means no `urls` table either, so the
/// contents are empty.
#[verifier::external_body]
pub(crate) fn count_tables(c: &sqlite::Connection) -> (r: Result<i64, Error>)
    requires
        db_txn(*c) is None,
    ensures
        r matches Ok(n) ==> n >= 0,
        r matches Ok(n) && n == 0 ==> db_map(*c) == empty_contents(),
        r matches Err(e) ==> e is Database,
{
    let mut run = || -> Result<i64, sqlite::Error> {
        let mut stmt = c.prepare("SELECT COUNT(*) FROM sqlite_master;")?;
        stmt.next()?;
        stmt.read::<i64, _>(0)
    };
    run().map_err(|e| Error::Database(e.message.unwrap_or_else(|| String::from("an SQLite error"))))
}

/// Relies on `sqlite::Connection::execute`: runs arbitrary SQL.  Nothing
/// is claimed about the store afterwards; whoever calls this gives up the
/// model until the store is reopened.
#[verifier::external_body]
pub(crate) fn raw_execute(c: &mut sqlite::Connection, sql: &str) -> (r: Result<(), Error>)
    ensures
        r matches Err(e) ==> e is Database,
{
    c.execute(sql).map_err(
        |e| Error::Database(e.message.unwrap_or_else(|| String::from("an SQLite error"))),
    )
}

/// Relies on `sqlite::Connection::prepare`: compiles one SQL statement.
/// While the statement lives it borrows the connection, and nothing is
/// claimed about the store it may go on to read or write.
#[verifier::external_body]
pub(crate) fn prepare_statement<'l>(c: &'l mut sqlite::Connection, sql: &str) -> (r: Result<
    sqlite::Statement<'l>,
    Error,
>)
    ensures
        r matches Err(e) ==> e is Database,
{
    c.prepare(sql).map_err(
        |e| Error::Database(e.message.unwrap_or_else(|| String::from("an SQLite error"))),
    )
}

/// Relies on `sqlite::Statement::bind`: binds `v` to the `i`-th
/// placeholder (the first is 1).  A `Float` placeholder value binds as
/// null; the cache never writes one.
#[verifier::external_body]
pub(crate) fn bind_value(stmt: &mut sqlite::Statement, i: usize, v: &ColumnValue) -> (r: Result<
    (),
    Error,
>)
    ensures
        r matches Err(e) ==> e is Database,
{
    stmt.bind((i, &value_to_sql(v))).map_err(
        |e| Error::Database(e.message.unwrap_or_else(|| String::from("an SQLite error"))),
    )
}

/// Relies on `sqlite::Statement::next` (one `sqlite3_step`): `true` means
/// a row is available to read, `false` that the statement is done.
/// Nothing says the rows ever run out — a row-generating statement need
/// not terminate, so whoever loops over this must bound the loop itself.
#[verifier::external_body]
pub(crate) fn step_statement(stmt: &mut sqlite::Statement) -> (r: Result<bool, Error>)
    ensures
        r matches Err(e) ==> e is Database,
{
    let mut run = || -> Result<bool, sqlite::Error> {
        match stmt.next()? {
            sqlite::State::Row => Ok(true),
            sqlite::State::Done => Ok(false),
        }
    };
    run().map_err(|e| Error::Database(e.message.unwrap_or_else(|| String::from("an SQLite error"))))
}

/// Relies on `sqlite::Statement::column_count`.
#[verifier::external_body]
pub(crate) fn column_count(stmt: &sqlite::Statement) -> usize {
    stmt.column_count()
}

/// Relies on `sqlite::Statement::read` for a column of the current row
/// (the first is 0).
#[verifier::external_body]
pub(crate) fn read_column(stmt: &sqlite::Statement, i: usize) -> (r: Result<ColumnValue, Error>)
    ensures
        r matches Err(e) ==> e is Database,
{
    let mut run = || -> Result<ColumnValue, sqlite::Error> {
        Ok(value_from_sql(stmt.read::<sqlite::Value, _>(i)?))
    };
    run().map_err(|e| Error::Database(e.message.unwrap_or_else(|| String::from("an SQLite error"))))
}

/// Relies on variant-by-variant conversion from `sqlite::Value`; the
/// numeric value of a float cell is dropped, only its kind is kept.
#[verifier::external_body]
fn value_from_sql(v: sqlite::Value) -> ColumnValue {
    match v {
        sqlite::Value::Null => ColumnValue::Null,
        sqlite::Value::Integer(i) => ColumnValue::Integer(i),
        sqlite::Value::String(s) => ColumnValue::String(s),
        sqlite::Value::Binary(b) => ColumnValue::Binary(b),
        sqlite::Value::Float(_) => ColumnValue::Float,
    }
}

/// Relies on variant-by-variant conversion to `sqlite::Value`; a `Float`
/// placeholder becomes null, since no numeric value is kept for it.
#[verifier::external_body]
fn value_to_sql(v: &ColumnValue) -> sqlite::Value {
    match v {
        ColumnValue::Null => sqlite::Value::Null,
        ColumnValue::Integer(i) => sqlite::Value::Integer(*i),
        ColumnValue::String(s) => sqlite::Value::String(s.clone()),
        ColumnValue::Binary(b) => sqlite::Value::Binary(b.clone()),
        ColumnValue::Float => sqlite::Value::Null,
    }
}

} // verus!
