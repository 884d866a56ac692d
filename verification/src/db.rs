//! The metadata store: a durable map from normalized URL to `CacheRecord`.
//!
//! Writes are transactional.  `set` opens a transaction and stages an
//! insert-or-replace; nothing becomes visible until the returned
//! [`Transaction`] handle is passed to [`CacheDB::commit`].  A handle that
//! is dropped instead is void: the staged write is rolled back by the next
//! operation on the store before that operation touches the data, so an
//! uncommitted write can never be observed.

use vstd::prelude::*;

use crate::cache::join_path;
use crate::error::Error;
use crate::record::{
    spec_decode_record, spec_encode_record, spec_record_storable, spec_row_ok,
    decode_record, encode_record, lemma_storable_encode, CacheRecord, RowV,
};
use crate::store;
use crate::store::{db_map, db_txn, empty_contents};
use crate::text::{quoted, spec_quoted};
use crate::urlnorm::{spec_strip_fragment, strip_fragment};
use crate::value::{spec_value_description, ColumnValue};

verus! {

/// A staged, not yet committed, write to the store.
///
/// The handle names the one write its `CacheDB` currently has open; only
/// that store's `commit` can make the write durable.  Dropping the handle
/// abandons the write.
#[must_use]
#[derive(Debug)]
pub struct Transaction {
    seq: u64,
}

/// The database that describes the contents of the cache.
pub struct CacheDB {
    path: String,
    conn: sqlite::Connection,
    txn_live: bool,
    txn_seq: u64,
}

/// Relies on std's `Path::parent`: the path without its final component,
/// a pure path computation.
#[verifier::external_body]
fn path_parent(path: &str) -> Option<String> {
    std::path::Path::new(path).parent().and_then(|p| p.to_str()).map(String::from)
}

/// Relies on std's `Path::file_name`: the final component of the path,
/// a pure path computation.
#[verifier::external_body]
fn path_file_name(path: &str) -> Option<String> {
    std::path::Path::new(path).file_name().and_then(|n| n.to_str()).map(String::from)
}

/// Relies on std's `Path::canonicalize`: the absolute, symlink-free form
/// of an existing path.  The result depends on the filesystem, so
/// nothing more is claimed of it.
#[verifier::external_body]
fn canonical_form(path: &str) -> (r: Result<String, Error>)
    ensures
        r matches Err(e) ==> e is Io,
{
    match std::path::Path::new(path).canonicalize() {
        Ok(p) => match p.to_str() {
            Some(s) => Ok(String::from(s)),
            None => Err(Error::Io(String::from("path is not valid text"))),
        },
        Err(e) => Err(Error::Io(e.to_string())),
    }
}

/// The path a store is opened at: the in-memory sentinel is used as is
/// (it has no filesystem parent to resolve); any other path has its
/// parent directory canonicalized and the file name rejoined, so that
/// stores opened through different spellings of one location compare
/// equal.  The parent must exist; the file itself need not yet.
fn canonicalize_db_path(path: String) -> (r: Result<String, Error>)
    ensures
        path@ == ":memory:"@ ==> (r matches Ok(p) && p@ == path@),
        r matches Err(e) ==> e is Io,
{
    let mem = String::from_str(":memory:");
    if path.eq(&mem) {
        return Ok(path);
    }
    let parent = match path_parent(path.as_str()) {
        Option::Some(p) => p,
        Option::None => String::from_str("."),
    };
    let canon = canonical_form(parent.as_str())?;
    let name = match path_file_name(path.as_str()) {
        Option::Some(n) => n,
        Option::None => String::new(),
    };
    Ok(join_path(canon.as_str(), name.as_str()))
}

impl CacheDB {
    /// The store is in its resting shape: the live-transaction flag agrees
    /// with the connection's actual transaction state.
    pub closed spec fn wf(self) -> bool {
        self.txn_live <==> db_txn(self.conn) is Some
    }

    /// The committed contents: what lookups answer from.
    pub closed spec fn contents(self) -> Map<Seq<char>, RowV> {
        db_map(self.conn)
    }

    /// The staged contents of the open write transaction, if one is open.
    pub closed spec fn pending(self) -> Option<Map<Seq<char>, RowV>> {
        db_txn(self.conn)
    }

    /// The path this store was opened at, as given.
    pub closed spec fn spec_path(self) -> Seq<char> {
        self.path@
    }

    /// Whether `t` is the handle of the currently open write.
    pub closed spec fn accepts(self, t: Transaction) -> bool {
        self.txn_live && t.seq == self.txn_seq
    }

    /// Open (or create) the store at `path`.
    ///
    /// The schema is created only when the file has no tables yet, so
    /// reopening an existing store keeps its data.  The path is
    /// canonicalized first, so two stores opened on the same file compare
    /// equal whatever spelling each was given; the in-memory sentinel
    /// `":memory:"` bypasses that and opens a fresh, empty,
    /// process-lifetime-only store.
    pub fn new(path: String) -> (r: Result<CacheDB, Error>)
        ensures
            r matches Ok(db) ==> db.wf() && db.pending() is None,
            r matches Ok(db) ==> (path@ == ":memory:"@ ==> db.spec_path() == path@
                && db.contents() == empty_contents()),
            r matches Err(e) ==> e is Database || e is Io,
    {
        let path = canonicalize_db_path(path)?;
        let mut conn = store::open_connection(path.as_str())?;
        let n = store::count_tables(&conn)?;
        if n == 0 {
            store::create_schema(&mut conn)?;
        }
        Ok(CacheDB { path, conn, txn_live: false, txn_seq: 0 })
    }

    /// Roll back whatever write is still open, making the store quiet.
    fn discard_pending(&mut self)
        requires
            old(self).wf(),
        ensures
            final(self).wf(),
            !final(self).txn_live,
            final(self).pending() is None,
            final(self).contents() == old(self).contents(),
            final(self).spec_path() == old(self).spec_path(),
            final(self).txn_seq == old(self).txn_seq,
    {
        if self.txn_live {
            let _ = store::rollback(&mut self.conn);
            self.txn_live = false;
        }
    }

    /// Return what the store knows about a URL, if anything.
    ///
    /// The fragment is stripped before the key comparison, so URLs that
    /// differ only in their fragment share one record.  A record whose
    /// `path` column is not text is a hard `WrongPathType` error; optional
    /// columns of the wrong shape are treated as absent.  An uncommitted
    /// write staged earlier is rolled back first and is never visible
    /// here.
    pub fn get(&mut self, url: &str) -> (r: Result<CacheRecord, Error>)
        requires
            old(self).wf(),
        ensures
            final(self).wf(),
            final(self).pending() is None,
            final(self).contents() == old(self).contents(),
            final(self).spec_path() == old(self).spec_path(),
            ({
                let m = old(self).contents();
                let k = spec_strip_fragment(url@);
                match r {
                    Ok(rec) => m.contains_key(k) && spec_row_ok(m[k]) && rec@
                        == spec_decode_record(m[k]),
                    Err(e) => match e {
                        Error::URLNotFound(u) => !m.contains_key(k) && u@ == k,
                        Error::WrongPathType(d) => m.contains_key(k) && !spec_row_ok(m[k]) && d@
                            == spec_value_description(m[k].path),
                        Error::Database(_) => true,
                        _ => false,
                    },
                }
            }),
    {
        self.discard_pending();
        let key = strip_fragment(url);
        match store::lookup(&self.conn, key.as_str()) {
            Err(e) => Err(e),
            Ok(None) => Err(Error::URLNotFound(key)),
            Ok(Some(row)) => decode_record(row),
        }
    }

    /// Stage a record for a URL: open a transaction and issue an
    /// insert-or-replace keyed by the fragment-stripped URL.
    ///
    /// The committed contents do not move; they change only when the
    /// returned handle is passed to `commit`.  Staging a new write first
    /// abandons any write still open.  The staged contents are pinned
    /// down exactly for storable records (all text NUL-free); for any
    /// other record the engine alters the text on the way in, and only
    /// the fact that the write was staged is claimed.
    pub fn set(&mut self, url: &str, record: CacheRecord) -> (r: Result<Transaction, Error>)
        requires
            old(self).wf(),
        ensures
            final(self).wf(),
            final(self).contents() == old(self).contents(),
            final(self).spec_path() == old(self).spec_path(),
            r matches Ok(t) ==> final(self).accepts(t) && final(self).pending() is Some,
            r matches Ok(_) ==> (spec_record_storable(record@) ==> final(self).pending() == Some(
                old(self).contents().insert(
                    spec_strip_fragment(url@),
                    spec_encode_record(record@),
                ),
            )),
            r matches Err(e) ==> e is Database && final(self).pending() is None,
    {
        self.discard_pending();
        store::begin(&mut self.conn)?;
        let key = strip_fragment(url);
        proof {
            lemma_storable_encode(record@);
        }
        let row = encode_record(record);
        match store::upsert_pending(&mut self.conn, key.as_str(), &row) {
            Ok(()) => {
                self.txn_live = true;
                self.txn_seq = self.txn_seq.wrapping_add(1);
                Ok(Transaction { seq: self.txn_seq })
            },
            Err(e) => {
                let _ = store::rollback(&mut self.conn);
                Err(e)
            },
        }
    }

    /// Make the write staged under `t` durable.
    ///
    /// A handle that is not the store's current one is refused with
    /// `StaleTransaction` and nothing moves.  If the engine fails to
    /// commit, a rollback is attempted and the commit failure itself is
    /// surfaced, whether or not the rollback succeeded.
    pub fn commit(&mut self, t: Transaction) -> (r: Result<(), Error>)
        requires
            old(self).wf(),
        ensures
            final(self).wf(),
            final(self).spec_path() == old(self).spec_path(),
            !old(self).accepts(t) ==> (r matches Err(e) && e == Error::StaleTransaction
                && *final(self) == *old(self)),
            old(self).accepts(t) ==> final(self).pending() is None,
            old(self).accepts(t) ==> (r matches Ok(_) ==> final(self).contents() == old(
                self,
            ).pending().unwrap()),
            old(self).accepts(t) ==> (r matches Err(e) ==> e is Database && final(self).contents()
                == old(self).contents()),
    {
        if !self.txn_live || t.seq != self.txn_seq {
            return Err(Error::StaleTransaction);
        }
        self.txn_live = false;
        match store::commit(&mut self.conn) {
            Ok(()) => Ok(()),
            Err(e) => {
                let _ = store::rollback(&mut self.conn);
                Err(e)
            },
        }
    }

    /// Run one raw SQL statement against the store.
    ///
    /// This is a maintenance door: nothing is claimed about the store's
    /// contents afterwards, and the store's well-formedness itself is no
    /// longer known, so verified code that runs raw SQL can say nothing
    /// more about this store until it reopens one.
    pub fn execute(&mut self, sql: &str) -> (r: Result<(), Error>)
        ensures
            r matches Err(e) ==> e is Database,
    {
        store::raw_execute(&mut self.conn, sql)
    }

    /// Run one raw SQL query and collect up to `limit` of its rows of
    /// column values.
    ///
    /// Like `execute`, a maintenance door without claims on the contents.
    /// The bound is what guarantees the collection ends: nothing promises
    /// that an arbitrary statement's rows ever run out, so a statement
    /// still yielding rows after `limit` of them is abandoned there.
    pub fn query(&mut self, sql: &str, params: &Vec<ColumnValue>, limit: usize) -> (r: Result<
        Vec<Vec<ColumnValue>>,
        Error,
    >)
        ensures
            r matches Ok(rows) ==> rows@.len() <= limit,
            r matches Err(e) ==> e is Database,
    {
        let mut stmt = store::prepare_statement(&mut self.conn, sql)?;
        let mut i: usize = 0;
        while i < params.len()
            invariant
                i <= params@.len(),
            decreases params@.len() - i,
        {
            store::bind_value(&mut stmt, i + 1, &params[i])?;
            i += 1;
        }
        let ncols = store::column_count(&stmt);
        let mut rows: Vec<Vec<ColumnValue>> = Vec::new();
        while rows.len() < limit
            invariant
                rows@.len() <= limit,
            decreases limit - rows@.len(),
        {
            let more = store::step_statement(&mut stmt)?;
            if !more {
                break ;
            }
            let mut row: Vec<ColumnValue> = Vec::new();
            let mut j: usize = 0;
            while j < ncols
                invariant
                    j <= ncols,
                decreases ncols - j,
            {
                row.push(store::read_column(&stmt, j)?);
                j += 1;
            }
            rows.push(row);
        }
        Ok(rows)
    }

    /// The store rendered for debugging: its type and the path it was
    /// opened at.
    pub fn debug_string(&self) -> (r: String)
        ensures
            r@ == "CacheDB {path: "@ + spec_quoted(self.spec_path()) + "}"@,
    {
        proof {
            reveal_strlit("CacheDB {path: ");
            reveal_strlit("}");
        }
        let mut out = String::from_str("CacheDB {path: ");
        let q = quoted(self.path.as_str());
        out.append(q.as_str());
        out.append("}");
        out
    }
}

/// Two stores are the same store when they were opened at the same path.
impl PartialEq for CacheDB {
    fn eq(&self, other: &CacheDB) -> (r: bool) {
        self.path.eq(&other.path)
    }
}

impl vstd::std_specs::cmp::PartialEqSpecImpl for CacheDB {
    closed spec fn obeys_eq_spec() -> bool {
        true
    }

    closed spec fn eq_spec(&self, other: &CacheDB) -> bool {
        self.path@ == other.path@
    }
}

} // verus!
