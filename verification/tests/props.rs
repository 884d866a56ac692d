//! Tests for the crate's smaller pieces: URL normalization, path
//! handling, name generation, error rendering, and store persistence.

use static_http_cache::cache::{content_rel_path, join_path, random_name, strip_root_prefix};
use static_http_cache::http::{build_plain_request, build_revalidation_request};
use static_http_cache::{CacheDB, CacheRecord, ColumnValue, Error, HttpResponse, strip_fragment};

#[test]
fn strip_fragment_removes_first_hash_and_rest() {
    assert_eq!(strip_fragment("http://example.com/#frag"), "http://example.com/");
    assert_eq!(strip_fragment("http://example.com/"), "http://example.com/");
    assert_eq!(strip_fragment(""), "");
    assert_eq!(strip_fragment("#only"), "");
    assert_eq!(strip_fragment("a#b#c"), "a");
}

#[test]
fn strip_fragment_is_idempotent_on_samples() {
    for url in ["http://example.com/#frag", "plain", "", "a#b#c"] {
        let once = strip_fragment(url);
        assert_eq!(strip_fragment(&once), once);
    }
}

#[test]
fn reopening_a_store_preserves_committed_data() {
    let root = tempdir::TempDir::new("cachedb-test").unwrap().into_path();
    let db_path = root.join("cache.db").to_str().unwrap().to_string();

    let record = CacheRecord {
        path: "path/to/data".to_string(),
        last_modified: Some("Thu, 01 Jan 1970 00:00:00 GMT".to_string()),
        etag: Some("some-etag".to_string()),
        expires: None,
    };

    {
        let mut db = CacheDB::new(db_path.clone()).unwrap();
        let t = db.set("http://example.com/", record.clone()).unwrap();
        db.commit(t).unwrap();
    }

    // A second open of the same location must not recreate the schema
    // and must still answer from the committed data.
    let mut db = CacheDB::new(db_path).unwrap();
    assert_eq!(db.get("http://example.com/").unwrap(), record);
}

#[test]
fn error_messages_render_each_variant() {
    assert_eq!(Error::Io("no space".to_string()).message(), "io error: no space");
    assert_eq!(
        Error::Path("/elsewhere/file".to_string()).message(),
        format!("path is outside the cache root: {:?}", "/elsewhere/file")
    );
    assert_eq!(Error::Transport("FakeError".to_string()).message(), "FakeError");
    assert_eq!(Error::HttpStatus(404).message(), "HTTP error status: 404");
    assert_eq!(
        Error::Database("disk I/O error".to_string()).message(),
        "database error: disk I/O error"
    );
    assert_eq!(
        Error::WrongPathType("Binary([97, 98, 99])".to_string()).message(),
        "path had wrong type: Binary([97, 98, 99])"
    );
    assert_eq!(
        Error::URLNotFound("http://example.com/".to_string()).message(),
        format!("URL not found in cache: {:?}", "http://example.com/")
    );
    assert_eq!(
        Error::StaleTransaction.message(),
        "transaction is no longer current"
    );
}

#[test]
fn quoted_strings_escape_like_a_debug_rendering() {
    let odd = "he said \"hi\" and c:\\path";
    assert_eq!(
        Error::URLNotFound(odd.to_string()).message(),
        format!("URL not found in cache: {:?}", odd)
    );
}

#[test]
fn column_value_descriptions_name_kind_and_payload() {
    assert_eq!(ColumnValue::Null.description(), "Null");
    assert_eq!(ColumnValue::Integer(7).description(), "Integer(7)");
    assert_eq!(ColumnValue::Integer(-5).description(), "Integer(-5)");
    assert_eq!(
        ColumnValue::Integer(i64::MIN).description(),
        format!("Integer({})", i64::MIN)
    );
    assert_eq!(
        ColumnValue::String("abc".to_string()).description(),
        format!("String({:?})", "abc")
    );
    assert_eq!(ColumnValue::Binary(vec![]).description(), "Binary([])");
    assert_eq!(
        ColumnValue::Binary(vec![97, 98, 99]).description(),
        "Binary([97, 98, 99])"
    );
    assert_eq!(ColumnValue::Float.description(), "Float");
}

#[test]
fn random_names_are_twenty_alphanumeric_characters() {
    let name = random_name();
    assert_eq!(name.len(), 20);
    assert!(name.chars().all(|c| c.is_ascii_alphanumeric()));

    // Names are drawn at random; two draws colliding would be beyond
    // unlikely.
    assert_ne!(random_name(), name);
}

#[test]
fn content_paths_join_with_forward_slashes() {
    assert_eq!(join_path("/tmp/cache", "content/abc"), "/tmp/cache/content/abc");
    assert_eq!(content_rel_path("abcdef"), "content/abcdef");
}

#[test]
fn strip_root_prefix_returns_the_relative_part() {
    assert_eq!(
        strip_root_prefix("/tmp/cache", "/tmp/cache/content/abc").unwrap(),
        "content/abc"
    );

    let err = strip_root_prefix("/tmp/cache", "/elsewhere/content/abc").unwrap_err();
    assert!(matches!(err, Error::Path(_)));

    // The root itself is not under the root.
    assert!(strip_root_prefix("/tmp/cache", "/tmp/cache").is_err());
    // A sibling whose name extends the root is not under it either.
    assert!(strip_root_prefix("/tmp/cache", "/tmp/cachex/file").is_err());
}

#[test]
fn error_for_status_fails_exactly_on_http_errors() {
    let mk = |status: u16| HttpResponse {
        status,
        last_modified: None,
        etag: None,
        body: b"x".to_vec(),
    };

    assert!(mk(200).error_for_status().is_ok());
    assert!(mk(304).error_for_status().is_ok());
    assert!(mk(399).error_for_status().is_ok());
    assert!(matches!(
        mk(400).error_for_status().unwrap_err(),
        Error::HttpStatus(400)
    ));
    assert!(matches!(
        mk(500).error_for_status().unwrap_err(),
        Error::HttpStatus(500)
    ));
    assert!(matches!(
        mk(599).error_for_status().unwrap_err(),
        Error::HttpStatus(599)
    ));
    assert!(mk(600).error_for_status().is_ok());
}

#[test]
fn revalidation_requests_carry_exactly_the_stored_preconditions() {
    let record = CacheRecord {
        path: "content/abc".to_string(),
        last_modified: Some("Thu, 01 Jan 1970 00:00:00 GMT".to_string()),
        etag: Some("abcd".to_string()),
        expires: None,
    };
    let request = build_revalidation_request("http://example.com/".to_string(), &record);
    assert_eq!(request.url, "http://example.com/");
    assert_eq!(
        request.if_modified_since.as_deref(),
        Some("Thu, 01 Jan 1970 00:00:00 GMT")
    );
    assert_eq!(request.if_none_match.as_deref(), Some("abcd"));

    let bare = build_plain_request("http://example.com/".to_string());
    assert_eq!(bare.if_modified_since, None);
    assert_eq!(bare.if_none_match, None);
}
