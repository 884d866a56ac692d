//! The transport boundary, as plain values.
//!
//! The cache does not speak HTTP itself; it builds an [`HttpRequest`],
//! hands it to whatever [`Client`] it was given, and interprets the
//! [`HttpResponse`] that comes back.  A client is typically an adapter
//! over an HTTP library, or a test double; the cache asks nothing of it
//! and handles every outcome.

use vstd::prelude::*;

use crate::error::Error;
use crate::record::CacheRecord;

verus! {

/// The status code an origin uses for "your copy is still current".
pub const NOT_MODIFIED: u16 = 304;

/// One GET request, with the two preconditions the cache may attach.
#[derive(Clone, Debug, PartialEq, Eq)]
pub struct HttpRequest {
    /// The normalized (fragment-stripped) URL to fetch.
    pub url: String,
    /// The stored `Last-Modified` date, sent as `If-Modified-Since`.
    pub if_modified_since: Option<String>,
    /// The stored entity tag, sent as `If-None-Match`.
    pub if_none_match: Option<String>,
}

/// What came back: the status, the two headers the cache records, and the
/// full body.
#[derive(Clone, Debug, PartialEq, Eq)]
pub struct HttpResponse {
    /// The HTTP status code.
    pub status: u16,
    /// The response's `Last-Modified` header, if present, verbatim.
    pub last_modified: Option<String>,
    /// The response's `ETag` header, if present, verbatim.
    pub etag: Option<String>,
    /// The response body.
    pub body: Vec<u8>,
}

/// A thing that can send requests: an HTTP library adapter or a test
/// double.  The cache promises nothing about what an implementation
/// returns and copes with every answer.
pub trait Client {
    /// Send the request and hand back the response, or the transport's
    /// failure.
    fn execute(&self, request: &HttpRequest) -> Result<HttpResponse, Error>;
}

/// Whether a status code denotes an HTTP error (a client or server
/// error, 400 through 599).
pub open spec fn spec_is_error_status(status: u16) -> bool {
    400 <= status < 600
}

pub fn is_error_status(status: u16) -> (r: bool)
    ensures
        r == spec_is_error_status(status),
{
    400 <= status && status < 600
}

impl HttpResponse {
    /// Pass the response through if its status is no HTTP error, fail
    /// with that status otherwise.
    pub fn error_for_status(self) -> (r: Result<HttpResponse, Error>)
        ensures
            !spec_is_error_status(self.status) ==> r == Ok::<HttpResponse, Error>(self),
            spec_is_error_status(self.status) ==> r == Err::<HttpResponse, Error>(
                Error::HttpStatus(self.status),
            ),
    {
        if is_error_status(self.status) {
            Err(Error::HttpStatus(self.status))
        } else {
            Ok(self)
        }
    }
}

/// The conditional GET that revalidates a cached record: whichever of the
/// record's `Last-Modified` and `ETag` values are present are attached as
/// preconditions, both when both are there (the origin applies its own
/// precedence), and neither is ever synthesized.
pub fn build_revalidation_request(url: String, record: &CacheRecord) -> (r: HttpRequest)
    ensures
        r.url == url,
        r.if_modified_since == record.last_modified,
        r.if_none_match == record.etag,
{
    HttpRequest {
        url,
        if_modified_since: record.last_modified.clone(),
        if_none_match: record.etag.clone(),
    }
}

/// The unconditional GET used when nothing is cached.
pub fn build_plain_request(url: String) -> (r: HttpRequest)
    ensures
        r.url == url,
        r.if_modified_since is None,
        r.if_none_match is None,
{
    HttpRequest { url, if_modified_since: None, if_none_match: None }
}

/// What the revalidation round decided.
pub enum RevalidationAction {
    /// Keep serving the cached copy.
    ServeCached,
    /// The origin sent a fresh representation; store and serve it.
    StoreFresh(HttpResponse),
}

/// Interpret the outcome of a revalidation request sent for an existing
/// record.
///
/// The cached copy is served as is when the origin answers 304 (the
/// precondition matched), when the origin answers with an HTTP error
/// status (a failing origin is no reason to drop a present copy), and
/// when the transport itself fails (unreachable origin: the best
/// available data is what is already here).  Any other answer is a fresh
/// representation to store; it is used directly, never fetched twice.
pub fn revalidation_action(outcome: Result<HttpResponse, Error>) -> (r: RevalidationAction)
    ensures
        match r {
            RevalidationAction::StoreFresh(resp) => outcome == Ok::<HttpResponse, Error>(resp)
                && !spec_is_error_status(resp.status) && resp.status != NOT_MODIFIED,
            RevalidationAction::ServeCached => match outcome {
                Ok(resp) => spec_is_error_status(resp.status) || resp.status == NOT_MODIFIED,
                Err(_) => true,
            },
        },
{
    match outcome {
        Ok(resp) => {
            if is_error_status(resp.status) {
                RevalidationAction::ServeCached
            } else if resp.status == NOT_MODIFIED {
                RevalidationAction::ServeCached
            } else {
                RevalidationAction::StoreFresh(resp)
            }
        },
        Err(_) => RevalidationAction::ServeCached,
    }
}

} // verus!
