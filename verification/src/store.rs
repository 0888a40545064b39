//! The counter store: atomic, durable increment-and-read per page key.

use vstd::prelude::*;
use crate::db;
use crate::model::Views;
use crate::model::views_of;
use crate::model::view_result;
use crate::model::bumped;

verus! {

/// The one error the store reports: the underlying storage could not
/// complete the operation. It is never retried here; retrying is the
/// caller's choice and is safe, since a failed call changes nothing.
#[derive(Clone, Copy, Debug, PartialEq, Eq, Structural)]
pub enum StoreError {
    Io,
}

/// A durable page-view counter keyed by opaque page strings.
///
/// Abstractly (`self@`) the store is a map from page key to the number of
/// views recorded for it; concretely the counts live in the `pageviews`
/// table of a SQLite database, behind the one connection the store owns.
/// Every call takes `&mut self`, so access is serialized: two calls never
/// interleave on one store.
pub struct CounterStore {
    conn: rusqlite::Connection,
}

impl View for CounterStore {
    type V = Views;

    closed spec fn view(&self) -> Views {
        db::db_views(self.conn)
    }
}

impl CounterStore {
    /// Whether the store's database has the `pageviews` schema in place.
    /// `new` establishes it and every call keeps it.
    pub closed spec fn ready(&self) -> bool {
        db::db_ready(self.conn)
    }

    /// Opens the store over `conn`, creating the `pageviews` schema first if
    /// it is absent. On success the schema is in place and initialization
    /// was idempotent: the store's contents are exactly the counts the
    /// database already held.
    pub fn new(conn: rusqlite::Connection) -> (r: Result<CounterStore, StoreError>)
        ensures
            r matches Ok(s) ==> s@ == db::db_views(conn) && s.ready(),
    {
        let mut conn = conn;
        match db::create_views_table(&mut conn) {
            Ok(()) => Ok(CounterStore { conn }),
            Err(_) => Err(StoreError::Io),
        }
    }

    /// Records one view of `key` and reports the key's new count: a key
    /// never seen before gets a count of 1, any other exactly one more than
    /// it had. Any string is a valid key and is treated as an opaque
    /// identifier — no normalization, no trimming. Whatever the outcome, no
    /// key but `key` itself is ever touched, and on failure — below the
    /// machine limit of the i64 counter — nothing changed at all: every
    /// count is exactly as it was before the call.
    pub fn record_view(&mut self, key: &str) -> (r: Result<i64, StoreError>)
        ensures
            final(self)@.remove(key@) == old(self)@.remove(key@),
            final(self).ready() == old(self).ready(),
            r matches Ok(n) ==> views_of(old(self)@, key@) < i64::MAX ==> (n == view_result(
                old(self)@,
                key@,
            ) && final(self)@ == bumped(old(self)@, key@)),
            r matches Err(e) ==> e == StoreError::Io && (views_of(old(self)@, key@) < i64::MAX
                ==> final(self)@ == old(self)@),
    {
        match db::upsert_view(&mut self.conn, key) {
            Ok(n) => Ok(n),
            Err(_) => Err(StoreError::Io),
        }
    }
}

} // verus!
