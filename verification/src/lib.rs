//! Synchronous query façade and item cache for an asynchronous,
//! callback-driven content-catalog SDK.
//!
//! The façade logic (request validation, response reconciliation, cache
//! population, wait/cancellation decisions) is verified; the SDK itself and
//! all I/O stay outside, handing this crate plain values.

pub mod cache;
pub mod digits;
pub mod item;
pub mod paths;
pub mod slot;
pub mod user;
pub mod util;
pub mod workshop;
