use viewcount::store::CounterStore;
use viewcount::store::StoreError;

fn fresh_store() -> CounterStore {
    let conn = rusqlite::Connection::open_in_memory().expect("Failed to open database");
    CounterStore::new(conn).expect("Failed to create table")
}

#[test]
fn test_initial_page_view() {
    let mut store = fresh_store();
    assert_eq!(store.record_view("test-page"), Ok(1));
}

#[test]
fn test_multiple_page_views() {
    let mut store = fresh_store();
    for expected_count in 1..=3 {
        assert_eq!(store.record_view("multiple-test"), Ok(expected_count));
    }
}

#[test]
fn test_multiple_pages() {
    let mut store = fresh_store();
    let pages = vec!["page1", "page2", "page3"];
    for page in pages {
        assert_eq!(store.record_view(page), Ok(1));
    }
}

#[test]
fn test_special_characters_in_path() {
    let mut store = fresh_store();
    // The decoded form of a percent-encoded request path.
    assert_eq!(store.record_view("special path!@#"), Ok(1));
}

#[test]
fn test_concurrent_requests() {
    let file = tempfile::NamedTempFile::new().expect("Failed to create temp file");
    let conn = rusqlite::Connection::open(file.path()).expect("Failed to open database");
    let store = CounterStore::new(conn).expect("Failed to create table");
    let store = std::sync::Arc::new(tokio::sync::Mutex::new(store));

    let rt = tokio::runtime::Builder::new_multi_thread()
        .worker_threads(4)
        .build()
        .expect("Failed to build runtime");

    // Create 10 concurrent requests.
    let mut results: Vec<i64> = rt.block_on(async {
        let mut handles = Vec::new();
        for _ in 0..10 {
            let shared = store.clone();
            handles.push(tokio::spawn(async move {
                shared.lock().await.record_view("concurrent-test").unwrap()
            }));
        }
        let mut counts = Vec::new();
        for handle in handles {
            counts.push(handle.await.unwrap());
        }
        counts
    });

    // The ten calls must have returned {1, ..., 10}: no duplicates, no gaps.
    results.sort();
    assert_eq!(results, (1..=10).collect::<Vec<i64>>());

    // Should be exactly 11 views (10 concurrent + 1 final check).
    let final_count = rt.block_on(async { store.lock().await.record_view("concurrent-test") });
    assert_eq!(final_count, Ok(11));
}

#[test]
fn test_key_independence() {
    let mut store = fresh_store();
    assert_eq!(store.record_view("test-page"), Ok(1));
    assert_eq!(store.record_view("test-page"), Ok(2));
    assert_eq!(store.record_view("test-page"), Ok(3));
    // A different key starts at 1, unaffected by the other key's views.
    assert_eq!(store.record_view("other-page"), Ok(1));
    assert_eq!(store.record_view("test-page"), Ok(4));
    assert_eq!(store.record_view("other-page"), Ok(2));
}

#[test]
fn test_empty_key() {
    let mut store = fresh_store();
    // Any string is a valid key, the empty one included.
    assert_eq!(store.record_view(""), Ok(1));
    assert_eq!(store.record_view(""), Ok(2));
}

#[test]
fn test_reinitialization_is_idempotent() {
    let file = tempfile::NamedTempFile::new().expect("Failed to create temp file");
    let conn = rusqlite::Connection::open(file.path()).expect("Failed to open database");
    let mut store = CounterStore::new(conn).expect("Failed to create table");
    assert_eq!(store.record_view("test-page"), Ok(1));
    drop(store);

    // Opening the store again runs schema creation against an initialized
    // database: a no-op that must keep every count.
    let conn = rusqlite::Connection::open(file.path()).expect("Failed to open database");
    let mut store = CounterStore::new(conn).expect("Failed to create table");
    assert_eq!(store.record_view("test-page"), Ok(2));
}

#[test]
fn test_durability_across_reopen() {
    let file = tempfile::NamedTempFile::new().expect("Failed to create temp file");

    let conn = rusqlite::Connection::open(file.path()).expect("Failed to open database");
    let mut store = CounterStore::new(conn).expect("Failed to create table");
    assert_eq!(store.record_view("persistent-page"), Ok(1));
    assert_eq!(store.record_view("persistent-page"), Ok(2));
    drop(store);

    // A new store over the same database file sees the committed counts:
    // the next view is 3, not 1.
    let conn = rusqlite::Connection::open(file.path()).expect("Failed to open database");
    let mut store = CounterStore::new(conn).expect("Failed to create table");
    assert_eq!(store.record_view("persistent-page"), Ok(3));
}

#[test]
fn test_error_on_readonly_database() {
    // Schema creation against an empty read-only database cannot commit.
    let file = tempfile::NamedTempFile::new().expect("Failed to create temp file");
    let conn = rusqlite::Connection::open_with_flags(
        file.path(),
        rusqlite::OpenFlags::SQLITE_OPEN_READ_ONLY,
    )
    .expect("Failed to open database");
    assert!(matches!(CounterStore::new(conn), Err(StoreError::Io)));
}

#[test]
fn test_failed_view_changes_nothing() {
    let file = tempfile::NamedTempFile::new().expect("Failed to create temp file");
    let conn = rusqlite::Connection::open(file.path()).expect("Failed to open database");
    let mut store = CounterStore::new(conn).expect("Failed to create table");
    assert_eq!(store.record_view("test-page"), Ok(1));
    drop(store);

    // Against a read-only connection the write cannot commit: the call
    // reports Io and the stored count is untouched.
    let conn = rusqlite::Connection::open_with_flags(
        file.path(),
        rusqlite::OpenFlags::SQLITE_OPEN_READ_ONLY,
    )
    .expect("Failed to open database");
    let mut store = CounterStore::new(conn).expect("Failed to create table");
    assert_eq!(store.record_view("test-page"), Err(StoreError::Io));
    drop(store);

    let conn = rusqlite::Connection::open(file.path()).expect("Failed to open database");
    let mut store = CounterStore::new(conn).expect("Failed to create table");
    assert_eq!(store.record_view("test-page"), Ok(2));
}
