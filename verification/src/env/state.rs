//! What the service holds while it runs.

use crate::cache::{CacheView, Entries, GithubCache};
use crate::env::app::Env;
use vstd::prelude::*;

verus! {

/// The seconds for which fetched data counts.
pub const CACHE_TTL_SECS: u64 = 86400;

pub struct AppState {
    pub host: String,
    pub port: u16,
    pub token: String,
    pub cache: GithubCache,
}

impl AppState {
    /// The state of a service that starts with these settings: an empty
    /// cache whose entries count for `ticks_per_second` ticks for each of
    /// the [`CACHE_TTL_SECS`] seconds.
    pub fn from_env(env: Env, ticks_per_second: u32) -> (state: Self)
        ensures
            state.host == env.host,
            state.port == env.port,
            state.token == env.token,
            state.cache@ == (CacheView {
                entries: Entries::empty(),
                ttl: (CACHE_TTL_SECS * ticks_per_second) as u64,
            }),
    {
        let Env { port, host, token } = env;
        Self { host, port, token, cache: GithubCache::new(CACHE_TTL_SECS * ticks_per_second as u64) }
    }
}

} // verus!
