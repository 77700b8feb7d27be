//! The state of the cache as a caller may see it: whether the network tier
//! has a handle, and the counts.

use crate::cache::metrics::CacheMetricsSummary;
use crate::cache::redis_cache::RedisCache;
use vstd::prelude::*;

verus! {

/// A snapshot of the cache: the connectivity flag and the counts.
#[derive(Clone, Copy, Debug, PartialEq, Eq, Structural)]
pub struct CacheStatsResponse {
    pub redis_connected: bool,
    pub metrics: CacheMetricsSummary,
}

/// Takes the snapshot. It changes nothing.
pub fn get_cache_stats<C>(cache: &RedisCache<C>) -> (stats: CacheStatsResponse)
    ensures
        stats.redis_connected == cache@.connection.is_some(),
        stats.metrics.shows(cache@.metrics),
{
    CacheStatsResponse { redis_connected: cache.is_redis_connected(), metrics: cache.metrics() }
}

} // verus!
