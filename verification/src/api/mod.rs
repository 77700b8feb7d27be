//! What the cache shows of itself to the outside.

pub mod cached_handlers;
