//! Cache metadata records and their stored shape.
//!
//! A `CacheRecord` is what the rest of the crate works with; a `Row` is the
//! four column values as the metadata store holds them.  Encoding a record
//! always produces text (or null) cells.  Decoding a row applies the
//! tolerance policy for damaged stores: a `path` cell of the wrong shape is
//! a hard error, a wrong-shaped optional cell is treated as absent.

use vstd::prelude::*;

use crate::error::Error;
use crate::value::{spec_value_description, ColumnValue, ColumnValueV};

verus! {

/// All the information the cache keeps about one URL.
#[derive(Clone, Debug, PartialEq, Eq)]
pub struct CacheRecord {
    /// Cache-root-relative path to the stored response body.
    pub path: String,
    /// The `Last-Modified` header of the original response, verbatim.
    pub last_modified: Option<String>,
    /// The `ETag` header of the original response, verbatim.
    pub etag: Option<String>,
    /// The `Expires` header of the original response, verbatim; stored but
    /// not consulted when revalidating.
    pub expires: Option<String>,
}

/// The mathematical shape of a `CacheRecord`.
pub ghost struct RecordV {
    pub path: Seq<char>,
    pub last_modified: Option<Seq<char>>,
    pub etag: Option<Seq<char>>,
    pub expires: Option<Seq<char>>,
}

impl View for CacheRecord {
    type V = RecordV;

    open spec fn view(&self) -> RecordV {
        RecordV {
            path: self.path@,
            last_modified: match self.last_modified {
                Option::Some(s) => Option::Some(s@),
                Option::None => Option::None,
            },
            etag: match self.etag {
                Option::Some(s) => Option::Some(s@),
                Option::None => Option::None,
            },
            expires: match self.expires {
                Option::Some(s) => Option::Some(s@),
                Option::None => Option::None,
            },
        }
    }
}

/// One row of the metadata store: the four columns that describe a URL.
#[derive(Clone, Debug, PartialEq)]
pub struct Row {
    pub path: ColumnValue,
    pub last_modified: ColumnValue,
    pub etag: ColumnValue,
    pub expires: ColumnValue,
}

/// The mathematical shape of a `Row`.
pub ghost struct RowV {
    pub path: ColumnValueV,
    pub last_modified: ColumnValueV,
    pub etag: ColumnValueV,
    pub expires: ColumnValueV,
}

impl View for Row {
    type V = RowV;

    open spec fn view(&self) -> RowV {
        RowV {
            path: self.path@,
            last_modified: self.last_modified@,
            etag: self.etag@,
            expires: self.expires@,
        }
    }
}

/// An optional text field as it is stored: the text, or null for absent.
pub open spec fn spec_encode_opt(v: Option<Seq<char>>) -> ColumnValueV {
    match v {
        Option::Some(s) => ColumnValueV::String(s),
        Option::None => ColumnValueV::Null,
    }
}

/// The row a record is stored as.
pub open spec fn spec_encode_record(r: RecordV) -> RowV {
    RowV {
        path: ColumnValueV::String(r.path),
        last_modified: spec_encode_opt(r.last_modified),
        etag: spec_encode_opt(r.etag),
        expires: spec_encode_opt(r.expires),
    }
}

/// How an optional column is read back: text stays, anything else —
/// null included — counts as absent.
pub open spec fn spec_decode_opt(v: ColumnValueV) -> Option<Seq<char>> {
    match v {
        ColumnValueV::String(s) => Option::Some(s),
        _ => Option::None,
    }
}

/// Whether a stored row can be decoded at all: only the `path` cell has a
/// required shape.
pub open spec fn spec_row_ok(row: RowV) -> bool {
    row.path is String
}

/// The record a well-shaped row decodes to.
pub open spec fn spec_decode_record(row: RowV) -> RecordV {
    RecordV {
        path: row.path->String_0,
        last_modified: spec_decode_opt(row.last_modified),
        etag: spec_decode_opt(row.etag),
        expires: spec_decode_opt(row.expires),
    }
}

/// Turn a record into the row that stores it.
pub fn encode_record(record: CacheRecord) -> (row: Row)
    ensures
        row@ == spec_encode_record(record@),
{
    let path = ColumnValue::String(record.path);
    let last_modified = match record.last_modified {
        Option::Some(s) => ColumnValue::String(s),
        Option::None => ColumnValue::Null,
    };
    let etag = match record.etag {
        Option::Some(s) => ColumnValue::String(s),
        Option::None => ColumnValue::Null,
    };
    let expires = match record.expires {
        Option::Some(s) => ColumnValue::String(s),
        Option::None => ColumnValue::Null,
    };
    Row { path, last_modified, etag, expires }
}

fn decode_opt(v: ColumnValue) -> (r: Option<String>)
    ensures
        match r {
            Option::Some(s) => spec_decode_opt(v@) == Option::Some(s@),
            Option::None => spec_decode_opt(v@) is None,
        },
{
    match v {
        ColumnValue::String(s) => Option::Some(s),
        _ => Option::None,
    }
}

/// Turn a stored row back into a record.
///
/// A `path` cell that is not text makes the whole row unusable: the error
/// carries a description of the offending value.  A wrong-shaped optional
/// cell is simply dropped, so a damaged store still serves its content at
/// the price of an unconditional refetch.
pub fn decode_record(row: Row) -> (r: Result<CacheRecord, Error>)
    ensures
        spec_row_ok(row@) ==> (r matches Ok(record) && record@ == spec_decode_record(row@)),
        !spec_row_ok(row@) ==> (r matches Err(e) && e matches Error::WrongPathType(d) && d@
            == spec_value_description(row@.path)),
{
    let path = match row.path {
        ColumnValue::String(s) => s,
        other => {
            return Result::Err(Error::WrongPathType(other.description()));
        },
    };
    let last_modified = decode_opt(row.last_modified);
    let etag = decode_opt(row.etag);
    let expires = decode_opt(row.expires);
    Result::Ok(CacheRecord { path, last_modified, etag, expires })
}

/// Storing a record and reading it back gives the record again: encoding
/// always writes a text `path` and text-or-null optional columns, and
/// decoding such a row restores every field exactly.
pub proof fn lemma_record_round_trip(r: RecordV)
    ensures
        spec_row_ok(spec_encode_record(r)),
        spec_decode_record(spec_encode_record(r)) == r,
{
}

/// Text the storage engine reproduces exactly: its reader stops at an
/// embedded NUL character, so only NUL-free text survives a round trip.
pub open spec fn spec_text_storable(s: Seq<char>) -> bool {
    forall|i: int| 0 <= i < s.len() ==> s[i] != '\u{0}'
}

/// A cell the storage engine stores as given: null, or NUL-free text.
/// Anything else is changed on the way in — the columns have text
/// affinity, so an integer is converted to its text form, and the cache
/// keeps no number for a float cell to bind.
pub open spec fn spec_cell_storable(v: ColumnValueV) -> bool {
    match v {
        ColumnValueV::Null => true,
        ColumnValueV::String(s) => spec_text_storable(s),
        _ => false,
    }
}

/// A row every cell of which the store reproduces exactly.
pub open spec fn spec_row_storable(row: RowV) -> bool {
    spec_cell_storable(row.path) && spec_cell_storable(row.last_modified) && spec_cell_storable(
        row.etag,
    ) && spec_cell_storable(row.expires)
}

pub open spec fn spec_opt_text_storable(o: Option<Seq<char>>) -> bool {
    match o {
        Option::Some(s) => spec_text_storable(s),
        Option::None => true,
    }
}

/// A record the store gives back exactly as written: all its text is
/// NUL-free.
pub open spec fn spec_record_storable(r: RecordV) -> bool {
    spec_text_storable(r.path) && spec_opt_text_storable(r.last_modified)
        && spec_opt_text_storable(r.etag) && spec_opt_text_storable(r.expires)
}

/// A record encodes to storable cells exactly when its own text is
/// storable.
pub proof fn lemma_storable_encode(r: RecordV)
    ensures
        spec_record_storable(r) <==> spec_row_storable(spec_encode_record(r)),
{
}

} // verus!
