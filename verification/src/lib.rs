//! Bounded persistent collection manager.
//!
//! Small application-state collections (a settings singleton, an append-only
//! command log, a deduplicated scan cache) that live as one document per
//! namespace in a key-value store. This crate holds the logic with invariants:
//! retention caps, eviction order, dedup-by-identifier, and the
//! read-modify-write semantics over a decoded document. The store itself
//! (file access, JSON encoding, locking) is the host application's concern;
//! it hands this crate plain decoded values and persists what comes back.

use vstd::prelude::*;

pub mod bounded;
pub mod cache;
pub mod commands;
pub mod history;
pub mod laws;
pub mod records;
pub mod settings;

verus! {

/// Maximum number of entries retained in the voice command history log.
pub const HISTORY_CAP: usize = 1000;

/// Maximum number of entries retained in the document scan cache.
pub const CACHE_CAP: usize = 50;

} // verus!
