//! Tests for the metadata store: opening, lookup, transactional writes.

use static_http_cache::{CacheDB, CacheRecord, ColumnValue, Error};

fn memory_db() -> CacheDB {
    CacheDB::new(":memory:".to_string()).unwrap()
}

fn plain_record(path: &str) -> CacheRecord {
    CacheRecord {
        path: path.to_string(),
        last_modified: None,
        etag: None,
        expires: None,
    }
}

#[test]
fn create_fresh_db() {
    let mut db = memory_db();

    let rows = db
        .query(
            "SELECT name FROM sqlite_master WHERE TYPE = ?1",
            &vec![ColumnValue::String("table".to_string())],
            100,
        )
        .unwrap();

    assert_eq!(rows, vec![vec![ColumnValue::String("urls".to_string())]]);
}

#[test]
fn reopen_existing_db() {
    let root = tempdir::TempDir::new("cachedb-test").unwrap().into_path();
    let db_path = root.join("cache.db").to_str().unwrap().to_string();

    let mut db1 = CacheDB::new(db_path.clone()).unwrap();
    let rows = db1
        .query(
            "SELECT name FROM sqlite_master WHERE TYPE = ?1",
            &vec![ColumnValue::String("table".to_string())],
            100,
        )
        .unwrap();
    assert_eq!(rows, vec![vec![ColumnValue::String("urls".to_string())]]);

    let mut db2 = CacheDB::new(db_path).unwrap();
    let rows = db2
        .query(
            "SELECT name FROM sqlite_master WHERE TYPE = ?1",
            &vec![ColumnValue::String("table".to_string())],
            100,
        )
        .unwrap();
    assert_eq!(rows, vec![vec![ColumnValue::String("urls".to_string())]]);
}

#[test]
fn open_bogus_db() {
    let res = CacheDB::new("does/not/exist".to_string());

    assert!(res.is_err());
}

#[test]
fn get_from_empty_db() {
    let mut db = memory_db();

    let err = db.get("http://example.com/").unwrap_err();

    assert_eq!(
        err.message(),
        format!("URL not found in cache: {:?}", "http://example.com/")
    );
}

#[test]
fn get_unknown_url() {
    let mut db = memory_db();

    let t = db
        .set("http://example.com/one", plain_record("path/to/data"))
        .unwrap();
    db.commit(t).unwrap();

    let err = db.get("http://example.com/two").unwrap_err();

    assert_eq!(
        err.message(),
        format!("URL not found in cache: {:?}", "http://example.com/two")
    );
}

#[test]
fn get_known_url() {
    let mut db = memory_db();

    let orig_record = plain_record("path/to/data");

    let t = db.set("http://example.com/", orig_record.clone()).unwrap();
    db.commit(t).unwrap();

    let new_record = db.get("http://example.com/").unwrap();

    assert_eq!(new_record, orig_record);
}

#[test]
fn get_known_url_with_headers() {
    let mut db = memory_db();

    let orig_record = CacheRecord {
        path: "path/to/data".to_string(),
        last_modified: Some("Thu, 01 Jan 1970 00:00:00 GMT".to_string()),
        etag: Some("some-etag".to_string()),
        expires: None,
    };

    let t = db.set("http://example.com/", orig_record.clone()).unwrap();
    db.commit(t).unwrap();

    let new_record = db.get("http://example.com/").unwrap();

    assert_eq!(new_record, orig_record);
}

#[test]
fn get_url_with_invalid_path() {
    let mut db = memory_db();

    db.execute(
        "
        INSERT INTO urls
            ( url
            , path
            , last_modified
            , etag
            , expires
            )
        VALUES
            ( 'http://example.com/'
            , CAST('abc' AS BLOB)
            , NULL
            , NULL
            , NULL
            )
        ;
    ",
    )
    .unwrap();

    let err = db.get("http://example.com/").unwrap_err();

    assert_eq!(err.message(), "path had wrong type: Binary([97, 98, 99])");
}

#[test]
fn get_url_with_invalid_last_modified_and_etag() {
    let mut db = memory_db();

    db.execute(
        "
        INSERT INTO urls
            ( url
            , path
            , last_modified
            , etag
            , expires
            )
        VALUES
            ( 'http://example.com/'
            , 'path/to/data'
            , CAST('abc' AS BLOB)
            , CAST('def' AS BLOB)
            , CAST('ghi' AS BLOB)
            )
        ;
    ",
    )
    .unwrap();

    let record = db.get("http://example.com/").unwrap();

    assert_eq!(
        record,
        CacheRecord {
            path: "path/to/data".to_string(),
            // Text or null is expected; a blob value is treated as null.
            last_modified: None,
            etag: None,
            expires: None,
        }
    );
}

#[test]
fn get_ignores_fragments() {
    let mut db = memory_db();

    let orig_record = plain_record("path/to/data");

    let t = db.set("http://example.com/", orig_record.clone()).unwrap();
    db.commit(t).unwrap();

    let new_record = db.get("http://example.com/#top").unwrap();

    assert_eq!(new_record, orig_record);
}

#[test]
fn insert_data_with_commit() {
    let url = "http://example.com/";
    let record = plain_record("path/to/data");

    let mut db = memory_db();

    // Add data into the DB, inside a block so we can be sure all the
    // intermediates have been dropped afterward.
    {
        let t = db.set(url, record.clone()).unwrap();
        db.commit(t).unwrap();
    }

    let rows = db.query("SELECT * FROM urls;", &vec![], 100).unwrap();
    println!("Table content: {:?}", rows);

    // Did our data make it into the DB?
    assert_eq!(db.get(url).unwrap(), record);
}

#[test]
fn insert_data_with_all_fields() {
    let url = "http://example.com/";
    let record = CacheRecord {
        path: "path/to/data".to_string(),
        last_modified: Some("Thu, 01 Jan 1970 00:00:00 GMT".to_string()),
        etag: Some("some-etag".to_string()),
        expires: None,
    };

    let mut db = memory_db();

    let t = db.set(url, record.clone()).unwrap();
    db.commit(t).unwrap();

    // Did our data make it into the DB?
    assert_eq!(db.get(url).unwrap(), record);
}

#[test]
fn insert_data_without_commit() {
    let url = "http://example.com/";
    let record = plain_record("path/to/data");

    let mut db = memory_db();

    // Stage data, inside a block so the handle is dropped uncommitted.
    {
        let _ = db.set(url, record).unwrap();

        // Don't commit before the end of the block!
    }

    // The staged write must have left no trace.
    assert_eq!(
        db.get(url).unwrap_err().message(),
        format!("URL not found in cache: {:?}", url)
    );
}

#[test]
fn overwrite_data() {
    let url = "http://example.com/";

    let record_one = CacheRecord {
        path: "path/to/data/one".to_string(),
        last_modified: None,
        etag: Some("one".to_string()),
        expires: None,
    };

    let record_two = CacheRecord {
        path: "path/to/data/two".to_string(),
        last_modified: None,
        etag: Some("two".to_string()),
        expires: None,
    };

    let mut db = memory_db();

    // Our example URL just returned record one.
    let t = db.set(url, record_one.clone()).unwrap();
    db.commit(t).unwrap();

    // We recorded that correctly, right?
    assert_eq!(db.get(url).unwrap(), record_one);

    // Oh, the URL got updated!
    let t = db.set(url, record_two.clone()).unwrap();
    db.commit(t).unwrap();

    // We recorded that correctly too, right?
    assert_eq!(db.get(url).unwrap(), record_two);
}

#[test]
fn insert_data_ignores_url_fragment() {
    let record_one = CacheRecord {
        path: "path/to/data/one".to_string(),
        last_modified: None,
        etag: Some("one".to_string()),
        expires: None,
    };

    let record_two = CacheRecord {
        path: "path/to/data/two".to_string(),
        last_modified: None,
        etag: Some("two".to_string()),
        expires: None,
    };

    let mut db = memory_db();

    // Try to insert data with a fragment
    let t = db
        .set("http://example.com/#frag", record_one.clone())
        .unwrap();
    db.commit(t).unwrap();

    // Try to insert different data without a fragment
    let t = db.set("http://example.com/", record_two.clone()).unwrap();
    db.commit(t).unwrap();

    // Querying with any fragment, or without a fragment, will always
    // give us the same information.
    assert_eq!(db.get("http://example.com/#frag").unwrap(), record_two);
    assert_eq!(db.get("http://example.com/#garf").unwrap(), record_two);
    assert_eq!(db.get("http://example.com/").unwrap(), record_two);

    // If we insert data with a fragment, the new data is returned for
    // all queries.
    let t = db
        .set("http://example.com/#boop", record_one.clone())
        .unwrap();
    db.commit(t).unwrap();

    assert_eq!(db.get("http://example.com/#frag").unwrap(), record_one);
    assert_eq!(db.get("http://example.com/#garf").unwrap(), record_one);
    assert_eq!(db.get("http://example.com/").unwrap(), record_one);
}

#[test]
fn dbs_are_equal_if_paths_are_equal() {
    let root = tempdir::TempDir::new("cachedb-test").unwrap().into_path();
    let db_path = root.join("cache.db").to_str().unwrap().to_string();

    let db1 = CacheDB::new(db_path.clone()).unwrap();
    let db2 = CacheDB::new(db_path).unwrap();

    assert!(db1 == db2);
}

#[test]
fn dbs_not_equal_if_paths_are_different() {
    let root = tempdir::TempDir::new("cachedb-test").unwrap().into_path();

    let db1 = CacheDB::new(root.join("cache-1.db").to_str().unwrap().to_string()).unwrap();
    let db2 = CacheDB::new(root.join("cache-2.db").to_str().unwrap().to_string()).unwrap();

    assert!(db1 != db2);
}

#[test]
fn db_debug_prints_path() {
    let root = tempdir::TempDir::new("cachedb-test").unwrap().into_path();
    let path = root.join("cache.db");

    let db = CacheDB::new(path.to_str().unwrap().to_string()).unwrap();

    assert_eq!(
        format!("my db: {}", db.debug_string()),
        format!(
            "my db: CacheDB {{path: {:?}}}",
            path.canonicalize().unwrap()
        )
    );
}

#[test]
fn dbs_are_equal_across_path_spellings() {
    let root = tempdir::TempDir::new("cachedb-test").unwrap().into_path();

    // Two spellings of the same location: straight, and through ".".
    let straight = root.join("cache.db");
    let dotted = root.join(".").join("cache.db");

    let db1 = CacheDB::new(straight.to_str().unwrap().to_string()).unwrap();
    let db2 = CacheDB::new(dotted.to_str().unwrap().to_string()).unwrap();

    assert!(db1 == db2);
}

#[test]
fn commit_of_stale_handle_is_refused() {
    let mut db = memory_db();

    let stale = db
        .set("http://example.com/", plain_record("path/one"))
        .unwrap();
    // Staging a second write abandons the first; its handle goes stale.
    let current = db
        .set("http://example.com/", plain_record("path/two"))
        .unwrap();

    let err = db.commit(stale).unwrap_err();
    assert!(matches!(err, Error::StaleTransaction));
    assert_eq!(err.message(), "transaction is no longer current");

    // The current handle still works, and its record is the one kept.
    db.commit(current).unwrap();
    assert_eq!(db.get("http://example.com/").unwrap().path, "path/two");
}
