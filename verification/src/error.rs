//! The crate's error type.
//!
//! Every failure the cache can surface is one of these variants; payloads
//! are plain values so callers can match on them.  The type has no
//! `Display`; `message` renders the same text a display impl would.

use vstd::prelude::*;

use crate::text::{spec_quoted, spec_udec, quoted, u64_to_string};

verus! {

/// Everything that can go wrong while opening or querying the cache.
#[derive(Clone, Debug, PartialEq, Eq)]
pub enum Error {
    /// A filesystem operation failed; the payload is its description.
    Io(String),
    /// A freshly written content file does not lie under the cache root.
    Path(String),
    /// The transport could not complete the request at all (network-level
    /// failure, not an HTTP status).
    Transport(String),
    /// The origin answered with an error status (400-599).
    HttpStatus(u16),
    /// The metadata store engine failed; the payload is its message.
    Database(String),
    /// The stored `path` column has a shape other than text.
    WrongPathType(String),
    /// No record exists for the URL.
    URLNotFound(String),
    /// The write-transaction handle is not the store's current one.
    StaleTransaction,
}

/// The message text of each error variant.
pub open spec fn spec_message(e: Error) -> Seq<char> {
    match e {
        Error::Io(m) => "io error: "@ + m@,
        Error::Path(p) => "path is outside the cache root: "@ + spec_quoted(p@),
        Error::Transport(m) => m@,
        Error::HttpStatus(code) => "HTTP error status: "@ + spec_udec(code as nat),
        Error::Database(m) => "database error: "@ + m@,
        Error::WrongPathType(d) => "path had wrong type: "@ + d@,
        Error::URLNotFound(u) => "URL not found in cache: "@ + spec_quoted(u@),
        Error::StaleTransaction => "transaction is no longer current"@,
    }
}

impl Error {
    /// The error rendered as text, as a display impl would show it.
    pub fn message(&self) -> (r: String)
        ensures
            r@ == spec_message(*self),
    {
        proof {
            reveal_strlit("io error: ");
            reveal_strlit("path is outside the cache root: ");
            reveal_strlit("HTTP error status: ");
            reveal_strlit("database error: ");
            reveal_strlit("path had wrong type: ");
            reveal_strlit("URL not found in cache: ");
            reveal_strlit("transaction is no longer current");
        }
        match self {
            Error::Io(m) => {
                let mut out = String::from_str("io error: ");
                out.append(m.as_str());
                out
            },
            Error::Path(p) => {
                let mut out = String::from_str("path is outside the cache root: ");
                let q = quoted(p.as_str());
                out.append(q.as_str());
                out
            },
            Error::Transport(m) => m.clone(),
            Error::HttpStatus(code) => {
                let mut out = String::from_str("HTTP error status: ");
                let digits = u64_to_string(*code as u64);
                out.append(digits.as_str());
                out
            },
            Error::Database(m) => {
                let mut out = String::from_str("database error: ");
                out.append(m.as_str());
                out
            },
            Error::WrongPathType(d) => {
                let mut out = String::from_str("path had wrong type: ");
                out.append(d.as_str());
                out
            },
            Error::URLNotFound(u) => {
                let mut out = String::from_str("URL not found in cache: ");
                let q = quoted(u.as_str());
                out.append(q.as_str());
                out
            },
            Error::StaleTransaction => String::from_str("transaction is no longer current"),
        }
    }
}

} // verus!
