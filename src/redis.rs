//! Settings of the cache connection pool.

use vstd::prelude::*;

verus! {

/// How to reach the cache server.
#[derive(Debug)]
pub struct RedisConfig {
    /// The server's URL, such as `redis://127.0.0.1/`.
    pub url: String,
}

} // verus!
