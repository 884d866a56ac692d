//! The cache facade: one metadata store, one transport, one root.
//!
//! Resolving a URL is a short session between the caller (who owns the
//! filesystem) and the cache (which owns metadata and transport):
//!
//! 1. [`Cache::plan_fetch`] looks the URL up and, for a hit, revalidates
//!    it against the origin.  It answers either with the relative path of
//!    a cached copy to serve, or with a fresh response whose body must be
//!    stored.
//! 2. For a fresh response the caller writes the body to a newly created
//!    file under the content directory ([`random_name`] supplies the file
//!    name, [`content_rel_path`] its root-relative form), then stages the
//!    metadata with [`Cache::record_response`].
//! 3. Only after the body is fully on disk does the caller
//!    [`Cache::commit`] the staged record.  A crash in between leaves at
//!    worst an orphaned file and the old metadata — never a record that
//!    points at an incomplete file.

use vstd::prelude::*;

use crate::db::{CacheDB, Transaction};
use crate::error::Error;
use crate::http::{
    build_plain_request, build_revalidation_request, revalidation_action, spec_is_error_status,
    Client, HttpResponse, RevalidationAction,
};
use crate::record::{
    spec_decode_record, spec_encode_record, spec_record_storable, spec_row_ok, CacheRecord,
    RecordV, RowV,
};
use crate::text::string_push;
use crate::urlnorm::{lemma_strip_fragment_idempotent, spec_strip_fragment, strip_fragment};

verus! {

/// The characters a content file name is drawn from: the ASCII letters
/// and digits, unambiguous on every filesystem.
pub const NAME_ALPHABET: [char; 62] = [
    'A',
    'B',
    'C',
    'D',
    'E',
    'F',
    'G',
    'H',
    'I',
    'J',
    'K',
    'L',
    'M',
    'N',
    'O',
    'P',
    'Q',
    'R',
    'S',
    'T',
    'U',
    'V',
    'W',
    'X',
    'Y',
    'Z',
    'a',
    'b',
    'c',
    'd',
    'e',
    'f',
    'g',
    'h',
    'i',
    'j',
    'k',
    'l',
    'm',
    'n',
    'o',
    'p',
    'q',
    'r',
    's',
    't',
    'u',
    'v',
    'w',
    'x',
    'y',
    'z',
    '0',
    '1',
    '2',
    '3',
    '4',
    '5',
    '6',
    '7',
    '8',
    '9',
];

/// How many characters a content file name has: wide enough that a
/// collision among randomly drawn names is negligible.
pub const NAME_LENGTH: usize = 20;

/// Relies on rand's `RngExt::random_range` on the thread-local generator:
/// a uniformly drawn index below the bound.
#[verifier::external_body]
fn random_index(bound: usize) -> (r: usize)
    requires
        bound > 0,
    ensures
        r < bound,
{
    rand::RngExt::random_range(&mut rand::rng(), 0..bound)
}

/// Draw a fresh random file name: `NAME_LENGTH` characters, each from
/// `NAME_ALPHABET`.
pub fn random_name() -> (r: String)
    ensures
        r@.len() == NAME_LENGTH,
        forall|i: int| 0 <= i < r@.len() ==> NAME_ALPHABET@.contains(#[trigger] r@[i]),
{
    let mut out = String::new();
    let mut i: usize = 0;
    while i < NAME_LENGTH
        invariant
            0 <= i <= NAME_LENGTH,
            out@.len() == i,
            forall|j: int| 0 <= j < out@.len() ==> NAME_ALPHABET@.contains(#[trigger] out@[j]),
        decreases NAME_LENGTH - i,
    {
        let k = random_index(62);
        let c = NAME_ALPHABET[k];
        assert(NAME_ALPHABET@.contains(c));
        string_push(&mut out, c);
        i += 1;
    }
    out
}

/// `a`, a separator, `b`.
pub fn join_path(a: &str, b: &str) -> (r: String)
    ensures
        r@ == a@ + seq!['/'] + b@,
{
    let mut out = String::from_str(a);
    string_push(&mut out, '/');
    out.append(b);
    out
}

/// The name of the content directory under the cache root.
pub fn content_dir_name() -> (r: String)
    ensures
        r@ == "content"@,
{
    String::from_str("content")
}

/// The root-relative path a content file is recorded under.
pub fn content_rel_path(name: &str) -> (r: String)
    ensures
        r@ == "content"@ + seq!['/'] + name@,
{
    let dir = content_dir_name();
    join_path(dir.as_str(), name)
}

/// The root-relative form of `path`: what follows `root` and the
/// separator.  Fails exactly when `path` does not lie under `root`.
pub fn strip_root_prefix(root: &str, path: &str) -> (r: Result<String, Error>)
    ensures
        ({
            let under = path@.len() > root@.len() && path@.take(root@.len() as int) == root@
                && path@[root@.len() as int] == '/';
            match r {
                Ok(rel) => under && rel@ == path@.skip(root@.len() + 1int),
                Err(e) => !under && (e matches Error::Path(p) && p@ == path@),
            }
        }),
{
    let root_len = root.unicode_len();
    let path_len = path.unicode_len();
    if path_len <= root_len {
        return Err(Error::Path(String::from_str(path)));
    }
    let mut i: usize = 0;
    while i < root_len
        invariant
            0 <= i <= root_len,
            root_len == root@.len(),
            path_len == path@.len(),
            path_len > root_len,
            forall|j: int| 0 <= j < i ==> path@[j] == root@[j],
        decreases root_len - i,
    {
        if path.get_char(i) != root.get_char(i) {
            return Err(Error::Path(String::from_str(path)));
        }
        i += 1;
    }
    if path.get_char(root_len) != '/' {
        return Err(Error::Path(String::from_str(path)));
    }
    proof {
        assert(path@.take(root@.len() as int) =~= root@);
    }
    let rel = path.substring_char(root_len + 1, path_len);
    proof {
        assert(rel@ =~= path@.skip(root@.len() + 1int));
    }
    Ok(String::from_str(rel))
}

/// What a `fetch` should do next, as decided from the metadata store and
/// the origin.
#[derive(Debug)]
pub enum FetchPlan {
    /// Serve the already cached body at this root-relative path.
    UseCached { rel_path: String },
    /// Store this fresh response's body, record it, then serve it.
    Fetch { response: HttpResponse },
}

/// The record that a stored response is remembered under.
pub open spec fn spec_response_record(rel_path: Seq<char>, response: HttpResponse) -> RecordV {
    RecordV {
        path: rel_path,
        last_modified: match response.last_modified {
            Option::Some(s) => Option::Some(s@),
            Option::None => Option::None,
        },
        etag: match response.etag {
            Option::Some(s) => Option::Some(s@),
            Option::None => Option::None,
        },
        expires: Option::None,
    }
}

/// A recorded response reads back exactly: the row a fresh response is
/// stored as is well shaped, and decodes to the record of that response.
/// So once a fresh response with new validators is committed, the next
/// revalidation of the URL is conditioned on exactly those validators.
pub proof fn lemma_fresh_overwrite_round_trip(rel_path: Seq<char>, response: HttpResponse)
    ensures
        ({
            let row = spec_encode_record(spec_response_record(rel_path, response));
            spec_row_ok(row) && spec_decode_record(row) == spec_response_record(
                rel_path,
                response,
            )
        }),
{
    crate::record::lemma_record_round_trip(spec_response_record(rel_path, response));
}

/// A local cache of HTTP resources.
///
/// Whenever it is asked for the contents of a URL it re-uses a
/// previously downloaded copy if the origin confirms (or must be assumed)
/// to still serve the same bytes; otherwise the fresh response is stored
/// and used instead.
pub struct Cache<C: Client> {
    root: String,
    db: CacheDB,
    client: C,
}

impl<C: Client> Cache<C> {
    /// The cache is in its resting shape.
    pub closed spec fn wf(self) -> bool {
        self.db.wf()
    }

    /// The committed metadata contents.
    pub closed spec fn contents(self) -> Map<Seq<char>, RowV> {
        self.db.contents()
    }

    /// The staged contents of the open write, if one is open.
    pub closed spec fn pending(self) -> Option<Map<Seq<char>, RowV>> {
        self.db.pending()
    }

    /// Whether `t` is the handle of the currently open write.
    pub closed spec fn accepts(self, t: Transaction) -> bool {
        self.db.accepts(t)
    }

    /// The cache root directory, as given.
    pub closed spec fn spec_root(self) -> Seq<char> {
        self.root@
    }

    /// A cache rooted at the directory `root`, wrapping `client`.
    ///
    /// The directory itself must exist; the metadata store is opened (or
    /// created) at the well-known name `cache.db` directly under it.
    /// Instances sharing a root, concurrently or in series, re-use each
    /// other's downloads.
    pub fn new(root: String, client: C) -> (r: Result<Cache<C>, Error>)
        ensures
            r matches Ok(cache) ==> cache.wf() && cache.pending() is None && cache.spec_root()
                == root@,
            r matches Err(e) ==> e is Database || e is Io,
    {
        let db_path = join_path(root.as_str(), "cache.db");
        let db = CacheDB::new(db_path)?;
        Ok(Cache { root, db, client })
    }

    /// The absolute (root-joined) form of a recorded relative path: where
    /// the caller finds the body file.
    pub fn content_path(&self, rel_path: &str) -> (r: String)
        ensures
            r@ == self.spec_root() + seq!['/'] + rel_path@,
    {
        join_path(self.root.as_str(), rel_path)
    }

    /// Decide what to do for `url`.
    ///
    /// A cached record is revalidated with a conditional GET carrying its
    /// stored `Last-Modified` and `ETag`; the cached copy is served on a
    /// 304, on an HTTP error status and on transport failure, and a fresh
    /// response replaces it otherwise.  With nothing cached (or a record
    /// the store cannot read) an unconditional GET is issued, and an HTTP
    /// error status is fatal, there being nothing to fall back to.  The
    /// metadata store is never written here.
    pub fn plan_fetch(&mut self, url: &str) -> (r: Result<FetchPlan, Error>)
        requires
            old(self).wf(),
        ensures
            final(self).wf(),
            final(self).pending() is None,
            final(self).contents() == old(self).contents(),
            final(self).spec_root() == old(self).spec_root(),
            ({
                let m = old(self).contents();
                let k = spec_strip_fragment(url@);
                match r {
                    Ok(plan) => match plan {
                        FetchPlan::UseCached { rel_path } => m.contains_key(k) && spec_row_ok(
                            m[k],
                        ) && rel_path@ == spec_decode_record(m[k]).path,
                        FetchPlan::Fetch { response } => !spec_is_error_status(response.status),
                    },
                    Err(_) => true,
                }
            }),
    {
        let key = strip_fragment(url);
        proof {
            lemma_strip_fragment_idempotent(url@);
        }
        match self.db.get(key.as_str()) {
            Ok(record) => {
                let rel_path = record.path.clone();
                let request = build_revalidation_request(key, &record);
                let outcome = self.client.execute(&request);
                match revalidation_action(outcome) {
                    RevalidationAction::ServeCached => Ok(FetchPlan::UseCached { rel_path }),
                    RevalidationAction::StoreFresh(response) => Ok(FetchPlan::Fetch { response }),
                }
            },
            Err(_) => {
                let request = build_plain_request(key);
                let response = match self.client.execute(&request) {
                    Ok(response) => response,
                    Err(e) => {
                        return Err(e);
                    },
                };
                let response = response.error_for_status()?;
                Ok(FetchPlan::Fetch { response })
            },
        }
    }

    /// Stage the metadata for a freshly stored response body.
    ///
    /// `rel_path` is where the caller put the body, relative to the cache
    /// root.  The record keeps the response's `Last-Modified` and `ETag`
    /// verbatim, absent when the response had none.  Nothing becomes
    /// visible until the returned handle is committed; committing only
    /// after the body is fully written is what keeps metadata and content
    /// from ever diverging.  The staged contents are pinned down exactly
    /// for storable records (all text NUL-free; true of every name
    /// `random_name` draws and of well-formed header values).
    pub fn record_response(&mut self, url: &str, rel_path: String, response: &HttpResponse) -> (r:
        Result<Transaction, Error>)
        requires
            old(self).wf(),
        ensures
            final(self).wf(),
            final(self).contents() == old(self).contents(),
            final(self).spec_root() == old(self).spec_root(),
            r matches Ok(t) ==> final(self).accepts(t) && final(self).pending() is Some,
            r matches Ok(_) ==> (spec_record_storable(spec_response_record(rel_path@, *response))
                ==> final(self).pending() == Some(
                old(self).contents().insert(
                    spec_strip_fragment(url@),
                    spec_encode_record(spec_response_record(rel_path@, *response)),
                ),
            )),
            r matches Err(e) ==> e is Database && final(self).pending() is None,
    {
        let last_modified = match &response.last_modified {
            Option::Some(s) => Option::Some(s.clone()),
            Option::None => Option::None,
        };
        let etag = match &response.etag {
            Option::Some(s) => Option::Some(s.clone()),
            Option::None => Option::None,
        };
        let record = CacheRecord { path: rel_path, last_modified, etag, expires: None };
        self.db.set(url, record)
    }

    /// The transport this cache sends its requests through.
    pub fn client(&self) -> &C {
        &self.client
    }

    /// Replace the transport, keeping root and metadata store.
    pub fn set_client(&mut self, client: C)
        requires
            old(self).wf(),
        ensures
            final(self).wf(),
            final(self).contents() == old(self).contents(),
            final(self).pending() == old(self).pending(),
            final(self).spec_root() == old(self).spec_root(),
    {
        self.client = client;
    }

    /// Make the staged record durable; see [`CacheDB::commit`].
    pub fn commit(&mut self, t: Transaction) -> (r: Result<(), Error>)
        requires
            old(self).wf(),
        ensures
            final(self).wf(),
            final(self).spec_root() == old(self).spec_root(),
            !old(self).accepts(t) ==> (r matches Err(e) && e == Error::StaleTransaction
                && final(self).contents() == old(self).contents() && final(self).pending() == old(
                self,
            ).pending()),
            old(self).accepts(t) ==> final(self).pending() is None,
            old(self).accepts(t) ==> (r matches Ok(_) ==> final(self).contents() == old(
                self,
            ).pending().unwrap()),
            old(self).accepts(t) ==> (r matches Err(e) ==> e is Database && final(self).contents()
                == old(self).contents()),
    {
        self.db.commit(t)
    }
}

} // verus!
