//! An expiring key-value cache: tables of entries with a time to live, a
//! scheduler that sweeps expired entries and re-arms itself for the next
//! expiry, lazy filling of misses through a data loader, and lifecycle
//! callbacks fired in a fixed order.
//!
//! Time is handed in as nanoseconds of a monotonic clock. Callbacks are
//! named by ids; each operation queues, as notices, the callbacks it fires
//! in the order they must run.

pub mod error;
pub mod item;
pub mod laws;
pub mod table;
pub mod typed;
