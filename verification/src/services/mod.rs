//! What sits on top of the cache.

pub mod cache_invalidation;
pub mod invalidation_laws;
