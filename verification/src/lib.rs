//! A local, persistent cache for static HTTP resources.
//!
//! The crate keeps one metadata record per URL in an embedded SQLite
//! store and expects the downloaded bodies to live as files under a cache
//! root.  Given a URL it decides whether the stored copy may be served as
//! is, revalidates it against the origin with conditional request headers
//! (`If-Modified-Since`, `If-None-Match`), or calls for a fresh fetch; a
//! fresh body is recorded only after it is fully written, so metadata and
//! content never diverge.
//!
//! The cache speaks to the network through the [`Client`] trait — an
//! adapter over an HTTP library, or a test double — and leaves the
//! filesystem work (creating content files, opening them for the caller)
//! to the embedding program, to which it hands plain values and exact
//! instructions; see [`cache`] for the session an embedding drives.

use vstd::prelude::*;

pub mod cache;
pub mod db;
pub mod error;
pub mod http;
pub mod record;
pub mod store;
pub mod text;
pub mod urlnorm;
pub mod value;

verus! {

pub use cache::{Cache, FetchPlan};
pub use db::{CacheDB, Transaction};
pub use error::Error;
pub use http::{Client, HttpRequest, HttpResponse};
pub use record::CacheRecord;
pub use urlnorm::strip_fragment;
pub use value::ColumnValue;

} // verus!
