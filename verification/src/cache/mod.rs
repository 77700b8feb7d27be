//! The cache itself: keys, counters and the two-tier store.

pub mod cache_keys;
pub mod decimal;
pub mod hex;
pub mod key_laws;
pub mod memory_cache;
pub mod metrics;
pub mod network_sweep;
pub mod pattern;
pub mod redis_cache;
pub mod store_laws;

pub use cache_keys::CacheKey;
pub use metrics::CacheMetrics;
pub use redis_cache::RedisCache;
