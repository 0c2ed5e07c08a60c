//! Core of a personal-site backend: a TTL cache for slow upstream APIs,
//! cache-aside resolvers for repository metadata and the currently playing
//! track, an ordered fail-fast join for batched lookups, and the pure
//! display helpers the page handlers use.
//!
//! All network and file I/O lives outside this crate; the functions here
//! take the upstream responses as plain values and decide what to cache,
//! what to return, and how to render it.

pub mod aggregate;
pub mod cache;
pub mod elapsed;
pub mod error;
pub mod photos;
pub mod repo;
pub mod song;
pub mod state;
pub mod text;
