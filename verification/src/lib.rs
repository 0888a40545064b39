//! A durable page-view counter: each page key maps to the number of views
//! recorded for it, and every successful `record_view` call bumps that count
//! by exactly one and reports the new value.

pub mod db;
pub mod model;
pub mod store;
