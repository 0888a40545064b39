//! The durable layer: the SQLite database that holds the counts, reached
//! through rusqlite behind trusted declarations.
//!
//! The database owned by one connection is modelled by `db_views`: the map
//! from page key to recorded view count that its `pageviews` table holds, an
//! absent table counting the same as an empty one. The store owns its
//! connection exclusively and this design assumes a single process owns the
//! database, so those contents change only through the calls below.

use vstd::prelude::*;
use crate::model::Views;
use crate::model::views_of;

verus! {

/// A SQLite database connection, as rusqlite provides it.
#[verifier::external_type_specification]
#[verifier::external_body]
pub struct ExConnection(rusqlite::Connection);

/// An error reported by rusqlite. Opaque here; the store maps every one of
/// them to its own error type.
#[verifier::external_type_specification]
#[verifier::external_body]
pub struct ExRusqliteError(rusqlite::Error);

/// The view counts the database behind `conn` holds: one entry per row of
/// its `pageviews` table, keyed by `page_path`, valued by `views`.
pub uninterp spec fn db_views(conn: rusqlite::Connection) -> Views;

/// Whether the database behind `conn` has the `pageviews` table in place.
pub uninterp spec fn db_ready(conn: rusqlite::Connection) -> bool;

/// Relies on rusqlite::Connection::execute running the one statement it is
/// given — here `CREATE TABLE IF NOT EXISTS pageviews ...`, which creates an
/// empty table or leaves an existing one alone, so on success the table
/// exists afterwards. Succeed or fail, the statement adds, removes and
/// changes no row, so the recorded counts stay as they were.
#[verifier::external_body]
pub(crate) fn create_views_table(conn: &mut rusqlite::Connection) -> (r: Result<
    (),
    rusqlite::Error,
>)
    ensures
        db_views(*final(conn)) == db_views(*old(conn)),
        r matches Ok(_) ==> db_ready(*final(conn)),
{
    let outcome = conn.execute(
        "CREATE TABLE IF NOT EXISTS pageviews (
            page_path TEXT PRIMARY KEY,
            views INTEGER DEFAULT 0,
            last_viewed TIMESTAMP
        )",
        [],
    );
    match outcome {
        Ok(_) => Ok(()),
        Err(e) => Err(e),
    }
}

/// Relies on rusqlite::Connection::query_one running the one upsert
/// statement below and mapping its single returned row with rusqlite's
/// Row::get on column 0. query_one steps the statement to completion, so an
/// error at commit time — which SQLite reports only when a statement with a
/// RETURNING clause is stepped past its row — surfaces as `Err` instead of a
/// silently uncommitted `Ok`; the upsert yields exactly one row, so the
/// more-than-one-row error cannot occur. SQLite's `INSERT ... ON
/// CONFLICT(page_path) DO UPDATE ... RETURNING views` touches no row but the
/// key's own in any outcome. Below i64::MAX — above it `views + 1` leaves
/// SQLite's integer range — a success leaves the key's row at one view more
/// than it had (a missing row counting as zero), committed durably in
/// autocommit mode before the call returns, and returns exactly that count,
/// while a failure rolls the statement back, changing no row at all.
#[verifier::external_body]
pub(crate) fn upsert_view(conn: &mut rusqlite::Connection, key: &str) -> (r: Result<
    i64,
    rusqlite::Error,
>)
    ensures
        db_views(*final(conn)).remove(key@) == db_views(*old(conn)).remove(key@),
        db_ready(*final(conn)) == db_ready(*old(conn)),
        match r {
            Ok(n) => views_of(db_views(*old(conn)), key@) < i64::MAX ==> (n == views_of(
                db_views(*old(conn)),
                key@,
            ) + 1 && db_views(*final(conn)) == db_views(*old(conn)).insert(key@, n as nat)),
            Err(_) => views_of(db_views(*old(conn)), key@) < i64::MAX ==> db_views(*final(conn))
                == db_views(*old(conn)),
        },
{
    conn.query_one(
        "INSERT INTO pageviews (page_path, views, last_viewed)
         VALUES (?1, 1, CURRENT_TIMESTAMP)
         ON CONFLICT(page_path) DO UPDATE SET
            views = views + 1,
            last_viewed = CURRENT_TIMESTAMP
         RETURNING views",
        [key],
        |row| row.get(0),
    )
}

} // verus!
