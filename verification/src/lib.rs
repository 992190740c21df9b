//! Verified core of a two-tier authentication session store.
//!
//! The library models one authenticated identity's token material
//! (`user_identity`), serializes it with a verified codec (`codec`), and keeps
//! session records in a bounded local cache (`cache`) backed by an
//! authoritative durable row table (`table`).  A validator state machine
//! (`validator`) decides, for each loaded record, whether it is fresh, stale,
//! expired or invalid, and which identity-provider call to make next; the
//! store (`session_store`) drives it and writes the outcome through both
//! tiers.  Identity-provider calls themselves are asynchronous network I/O
//! and stay outside the library: their results enter as plain values.

pub mod auth;
pub mod cache;
pub mod codec;
pub mod error;
pub mod laws;
pub mod prefs;
pub mod provider;
pub mod query;
pub mod session_record;
pub mod session_store;
pub mod strutil;
pub mod table;
pub mod user_identity;
pub mod validator;
pub mod wrappers;
