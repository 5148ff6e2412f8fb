//! Gateway settings and the cached resolution of user ids.
use vstd::prelude::*;

use crate::text::{opt_str_view, parse_decimal, parse_unsigned};

verus! {

/// A resolved internal user id and when it stops being valid (milliseconds
/// on the caller's monotonic clock).
#[derive(Debug, Clone, Copy, PartialEq, Eq, Structural)]
pub struct CachedUserId {
    pub user_id: u128,
    pub expires_at: u64,
}

impl CachedUserId {
    /// The id resolved at `now`, valid for `ttl_seconds`.
    pub fn new(user_id: u128, ttl_seconds: u64, now: u64) -> (r: Self)
        requires
            now + ttl_seconds * 1000 <= u64::MAX,
        ensures
            r.user_id == user_id,
            r.expires_at == now + ttl_seconds * 1000,
    {
        CachedUserId { user_id, expires_at: now + ttl_seconds * 1000 }
    }

    /// Whether an id resolved at `now` can be kept for `ttl_seconds` within
    /// the clock's range.
    pub fn lifetime_fits(ttl_seconds: u64, now: u64) -> (r: bool)
        ensures
            r == (now + ttl_seconds * 1000 <= u64::MAX),
    {
        match ttl_seconds.checked_mul(1000) {
            Some(ms) => now.checked_add(ms).is_some(),
            None => false,
        }
    }

    /// Whether the entry has expired at `now`.
    pub fn is_expired(&self, now: u64) -> (r: bool)
        ensures
            r == (now >= self.expires_at),
    {
        now >= self.expires_at
    }
}

/// Where the caller's internal user id comes from.
#[derive(Debug, Clone, Copy, PartialEq, Eq, Structural)]
pub enum UserIdSource {
    /// The id found in the cache, served without asking the users service.
    Cached(u128),
    /// No entry: the users service is asked, and its answer is then cached
    /// (`CachedUserId::new`) with the configured lifetime.
    Resolve,
}

/// Where the user id comes from, given the cache's entry for the caller: a
/// cached entry is served as it is (expired entries are swept from the
/// cache, not checked here), else the id is resolved.
pub fn user_id_source(cached: Option<CachedUserId>) -> (r: UserIdSource)
    ensures
        match cached {
            Some(e) => r == UserIdSource::Cached(e.user_id),
            None => r == UserIdSource::Resolve,
        },
{
    match cached {
        Some(e) => UserIdSource::Cached(e.user_id),
        None => UserIdSource::Resolve,
    }
}

/// An entry stays valid for exactly its lifetime after it was resolved.
pub proof fn cached_user_id_lifetime(user_id: u128, ttl_seconds: u64, now: u64, t: u64)
    requires
        now + ttl_seconds * 1000 <= u64::MAX,
        now <= t,
    ensures
        (t >= (CachedUserId { user_id, expires_at: (now + ttl_seconds * 1000) as u64 }).expires_at)
            <==> t - now >= ttl_seconds * 1000,
{
}

/// A positive setting: the value `str::parse` reads, unless it is absent,
/// not a number, too large or zero, in which case `default`.
pub open spec fn positive_setting(raw: Option<Seq<char>>, max: nat, default: nat) -> nat {
    match raw {
        Some(s) => match parse_unsigned(s, max) {
            Some(v) => if v > 0 {
                v
            } else {
                default
            },
            None => default,
        },
        None => default,
    }
}

/// A positive `u64` setting, else `default`.
pub fn parse_u64_setting(raw: Option<&str>, default: u64) -> (r: u64)
    ensures
        r as nat == positive_setting(opt_str_view(raw), u64::MAX as nat, default as nat),
{
    match raw {
        Some(s) => match parse_decimal(s, u64::MAX) {
            Some(v) => if v > 0 {
                v
            } else {
                default
            },
            None => default,
        },
        None => default,
    }
}

/// A positive `u32` setting, else `default`.
pub fn parse_u32_setting(raw: Option<&str>, default: u32) -> (r: u32)
    ensures
        r as nat == positive_setting(opt_str_view(raw), u32::MAX as nat, default as nat),
{
    match raw {
        Some(s) => match parse_decimal(s, u32::MAX as u64) {
            Some(v) => if v > 0 {
                v as u32
            } else {
                default
            },
            None => default,
        },
        None => default,
    }
}

/// The gateway's tuning settings.
#[derive(Debug, Clone, Copy, PartialEq, Eq, Structural)]
pub struct GatewaySettings {
    /// Lifetime of a resolved user id, in seconds.
    pub user_cache_ttl_seconds: u64,
    /// Period of the sweep of expired user ids, in seconds (at least 1).
    pub user_cache_cleanup_interval_seconds: u64,
    /// Attempts per upstream call (at least 1).
    pub upstream_retry_max_attempts: u32,
    /// First backoff delay, in milliseconds (at least 1).
    pub upstream_retry_base_delay_ms: u64,
}

impl GatewaySettings {
    /// The settings read from `USER_ID_CACHE_TTL_SECONDS` (default 300),
    /// `USER_ID_CACHE_CLEANUP_INTERVAL_SECONDS` (default 60),
    /// `UPSTREAM_RETRY_MAX_ATTEMPTS` (default 3) and
    /// `UPSTREAM_RETRY_BASE_DELAY_MS` (default 100); each must be a positive
    /// number, else it takes its default.
    pub fn from_settings(
        user_cache_ttl: Option<&str>,
        cleanup_interval: Option<&str>,
        retry_max_attempts: Option<&str>,
        retry_base_delay: Option<&str>,
    ) -> (r: Self)
        ensures
            r.user_cache_ttl_seconds as nat == positive_setting(
                opt_str_view(user_cache_ttl),
                u64::MAX as nat,
                300,
            ),
            r.user_cache_cleanup_interval_seconds as nat == positive_setting(
                opt_str_view(cleanup_interval),
                u64::MAX as nat,
                60,
            ),
            r.upstream_retry_max_attempts as nat == positive_setting(
                opt_str_view(retry_max_attempts),
                u32::MAX as nat,
                3,
            ),
            r.upstream_retry_base_delay_ms as nat == positive_setting(
                opt_str_view(retry_base_delay),
                u64::MAX as nat,
                100,
            ),
            r.user_cache_cleanup_interval_seconds >= 1,
            r.upstream_retry_max_attempts >= 1,
            r.upstream_retry_base_delay_ms >= 1,
    {
        GatewaySettings {
            user_cache_ttl_seconds: parse_u64_setting(user_cache_ttl, 300),
            user_cache_cleanup_interval_seconds: parse_u64_setting(cleanup_interval, 60),
            upstream_retry_max_attempts: parse_u32_setting(retry_max_attempts, 3),
            upstream_retry_base_delay_ms: parse_u64_setting(retry_base_delay, 100),
        }
    }
}

} // verus!
