//! The core of a cache that sits in front of a slower store of data.
//!
//! The cache has two tiers. A shared network tier is asked first; a local
//! tier in this process takes over where the network tier is absent or
//! fails. This crate holds everything that is decided along the way, and
//! proves what it decides:
//!
//! - `cache::cache_keys` names the cached values, one key for each query,
//!   and fingerprints filter texts;
//! - `cache::metrics` counts hits, misses, errors and invalidations;
//! - `cache::memory_cache` is the local tier;
//! - `cache::redis_cache` is the store over both tiers;
//! - `services::cache_invalidation` says what has to leave the cache when
//!   the data behind it changes;
//! - `api::cached_handlers` shows the state of the cache to the outside.
//!
//! Nothing here talks to a network, reads a clock or shares state between
//! threads. The caller does: it asks the network tier, reads the time, and
//! hands both to the store, which then says what follows. What holds of
//! the whole, for every answer the network tier may give, is stated in
//! `cache::store_laws`, `cache::key_laws` and `services::invalidation_laws`.

pub mod api;
pub mod cache;
pub mod services;
