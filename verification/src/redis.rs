//! Redis connection settings.
use vstd::prelude::*;

verus! {

/// The size of the Redis connection pool when none is configured.
pub fn default_redis_pool_size() -> (r: u32)
    ensures
        r == 10,
{
    10
}

/// Connection settings of a Redis server.
#[derive(Debug, Clone)]
pub struct RedisConfig {
    /// Redis connection URL.
    pub redis_url: String,
    /// Connection pool size.
    pub pool_size: u32,
}

} // verus!
