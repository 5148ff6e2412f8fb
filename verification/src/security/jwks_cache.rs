//! The cache of the identity provider's signing keys (JWKS).
//!
//! The cache holds the last key set fetched, when it stops being fresh, and
//! until when it may still serve as a fallback if a refresh fails. Times are
//! milliseconds on a monotonic clock chosen by the caller; lifetimes are
//! configured in seconds.
use vstd::prelude::*;
use vstd::string::*;

use crate::error::{invalid_response_error, unauthorized_error, unavailable_error, ApiError};
use crate::text::{
    opt_str_view, parse_decimal, parse_unsigned, split, split_char, str_eq, strip_prefix,
    stripped_prefix, trim, trim_ws, views,
};

verus! {

/// One signing key of the key set.
#[derive(Debug)]
pub struct Jwk {
    pub kid: String,
    pub kty: String,
    pub n: String,
    pub e: String,
}

/// What a [`Jwk`] holds.
pub struct JwkView {
    pub kid: Seq<char>,
    pub kty: Seq<char>,
    pub n: Seq<char>,
    pub e: Seq<char>,
}

impl View for Jwk {
    type V = JwkView;

    open spec fn view(&self) -> JwkView {
        JwkView { kid: self.kid@, kty: self.kty@, n: self.n@, e: self.e@ }
    }
}

/// A key set, as the identity provider publishes it.
#[derive(Debug)]
pub struct Jwks {
    pub keys: Vec<Jwk>,
}

impl View for Jwks {
    type V = Seq<JwkView>;

    open spec fn view(&self) -> Seq<JwkView> {
        self.keys@.map_values(|k: Jwk| k@)
    }
}

impl Jwk {
    /// A copy of the key.
    pub fn duplicate(&self) -> (r: Jwk)
        ensures
            r@ == self@,
    {
        Jwk { kid: self.kid.clone(), kty: self.kty.clone(), n: self.n.clone(), e: self.e.clone() }
    }
}

impl Jwks {
    /// A copy of the key set.
    pub fn duplicate(&self) -> (r: Jwks)
        ensures
            r@ == self@,
    {
        let mut keys: Vec<Jwk> = Vec::new();
        let mut i: usize = 0;
        while i < self.keys.len()
            invariant
                i <= self.keys@.len(),
                keys@.len() == i,
                forall|j: int| 0 <= j < i ==> (#[trigger] keys@[j])@ == self.keys@[j]@,
            decreases self.keys.len() - i,
        {
            keys.push(self.keys[i].duplicate());
            i = i + 1;
        }
        let r = Jwks { keys };
        assert(r@ =~= self@);
        r
    }
}

/// Lifetimes of the cached key set, in seconds.
#[derive(Debug, Clone, Copy, PartialEq, Eq, Structural)]
pub struct JwksCacheConfig {
    /// Lifetime when the answer names no `max-age`.
    pub ttl_seconds: u64,
    /// How long past its lifetime an entry may still answer when a refresh fails.
    pub stale_if_error_seconds: u64,
    /// Shortest lifetime accepted.
    pub min_ttl_seconds: u64,
    /// Longest lifetime accepted.
    pub max_ttl_seconds: u64,
}

/// `ttl` raised to at least `lo`, then lowered to at most `hi`.
pub open spec fn clamp(ttl: u64, lo: u64, hi: u64) -> u64 {
    let raised = if ttl < lo {
        lo
    } else {
        ttl
    };
    if raised > hi {
        hi
    } else {
        raised
    }
}

/// A setting read as `str::parse::<u64>` reads it, or `default` when it is
/// absent or does not parse.
pub open spec fn setting_or(raw: Option<Seq<char>>, default: u64) -> u64 {
    match raw {
        Some(s) => match parse_unsigned(s, u64::MAX as nat) {
            Some(v) => v as u64,
            None => default,
        },
        None => default,
    }
}

/// A setting as `str::parse::<u64>` reads it, or `default`.
pub fn read_setting(raw: Option<&str>, default: u64) -> (r: u64)
    ensures
        r == setting_or(opt_str_view(raw), default),
{
    match raw {
        Some(s) => match parse_decimal(s, u64::MAX) {
            Some(v) => v,
            None => default,
        },
        None => default,
    }
}

impl JwksCacheConfig {
    /// The configuration with the given lifetimes.
    pub fn new(
        ttl_seconds: u64,
        stale_if_error_seconds: u64,
        min_ttl_seconds: u64,
        max_ttl_seconds: u64,
    ) -> (r: Self)
        ensures
            r == (JwksCacheConfig {
                ttl_seconds,
                stale_if_error_seconds,
                min_ttl_seconds,
                max_ttl_seconds,
            }),
    {
        JwksCacheConfig { ttl_seconds, stale_if_error_seconds, min_ttl_seconds, max_ttl_seconds }
    }

    /// The configuration read from the raw settings `JWKS_TTL_SECONDS`,
    /// `JWKS_STALE_IF_ERROR_SECONDS`, `JWKS_CACHE_MIN_TTL_SECONDS` and
    /// `JWKS_CACHE_MAX_TTL_SECONDS`; a setting that is absent or not a
    /// number takes its default: 300, 120, 30 and 3600 seconds.
    pub fn from_settings(
        ttl: Option<&str>,
        stale_if_error: Option<&str>,
        min_ttl: Option<&str>,
        max_ttl: Option<&str>,
    ) -> (r: Self)
        ensures
            r.ttl_seconds == setting_or(opt_str_view(ttl), 300),
            r.stale_if_error_seconds == setting_or(opt_str_view(stale_if_error), 120),
            r.min_ttl_seconds == setting_or(opt_str_view(min_ttl), 30),
            r.max_ttl_seconds == setting_or(opt_str_view(max_ttl), 3600),
    {
        JwksCacheConfig {
            ttl_seconds: read_setting(ttl, 300),
            stale_if_error_seconds: read_setting(stale_if_error, 120),
            min_ttl_seconds: read_setting(min_ttl, 30),
            max_ttl_seconds: read_setting(max_ttl, 3600),
        }
    }

    /// `ttl` raised to the shortest accepted lifetime, then lowered to the
    /// longest.
    pub fn clamp_ttl(&self, ttl: u64) -> (r: u64)
        ensures
            r == clamp(ttl, self.min_ttl_seconds, self.max_ttl_seconds),
    {
        let raised = if ttl < self.min_ttl_seconds {
            self.min_ttl_seconds
        } else {
            ttl
        };
        if raised > self.max_ttl_seconds {
            self.max_ttl_seconds
        } else {
            raised
        }
    }
}

/// The first key of `keys` with the id `kid` and the type `RSA`.
pub open spec fn first_rsa_key(keys: Seq<JwkView>, kid: Seq<char>) -> Option<JwkView>
    decreases keys.len(),
{
    if keys.len() == 0 {
        None
    } else if keys[0].kid == kid && keys[0].kty == "RSA"@ {
        Some(keys[0])
    } else {
        first_rsa_key(keys.drop_first(), kid)
    }
}

/// The first RSA key of the set with the id `kid`, if any.
pub fn find_rsa_key(jwks: &Jwks, kid: &str) -> (r: Option<Jwk>)
    ensures
        match r {
            Some(k) => first_rsa_key(jwks@, kid@) == Some(k@),
            None => first_rsa_key(jwks@, kid@) is None,
        },
{
    let mut i: usize = 0;
    assert(jwks@.skip(0) =~= jwks@);
    while i < jwks.keys.len()
        invariant
            i <= jwks.keys@.len(),
            jwks@.len() == jwks.keys@.len(),
            first_rsa_key(jwks@, kid@) == first_rsa_key(jwks@.skip(i as int), kid@),
        decreases jwks.keys.len() - i,
    {
        let k = &jwks.keys[i];
        assert(jwks@.skip(i as int)[0] == k@);
        if str_eq(k.kid.as_str(), kid) && str_eq(k.kty.as_str(), "RSA") {
            return Some(k.duplicate());
        }
        assert(jwks@.skip(i as int).drop_first() =~= jwks@.skip(i + 1));
        i = i + 1;
    }
    None
}

/// The value after the first `max-age=` directive among the comma-separated
/// directives (each trimmed), if any.
pub open spec fn first_max_age(parts: Seq<Seq<char>>) -> Option<Seq<char>>
    decreases parts.len(),
{
    if parts.len() == 0 {
        None
    } else {
        match stripped_prefix(trim_ws(parts[0]), "max-age="@) {
            Some(v) => Some(v),
            None => first_max_age(parts.drop_first()),
        }
    }
}

/// The lifetime that a `cache-control` header grants, in seconds: the value
/// of its first `max-age` directive, when that value is a number.
pub open spec fn max_age_seconds(cache_control: Seq<char>) -> Option<nat> {
    match first_max_age(split_char(cache_control, ',')) {
        Some(v) => parse_unsigned(v, u64::MAX as nat),
        None => None,
    }
}

/// The lifetime that a `cache-control` header grants, in seconds.
pub fn parse_max_age_seconds(cache_control: &str) -> (r: Option<u64>)
    ensures
        match r {
            Some(v) => max_age_seconds(cache_control@) == Some(v as nat),
            None => max_age_seconds(cache_control@) is None,
        },
{
    let parts = split(cache_control, ',');
    let ghost ps = views(parts@);
    let mut i: usize = 0;
    assert(ps.skip(0) =~= ps);
    while i < parts.len()
        invariant
            i <= parts@.len(),
            ps == views(parts@),
            ps == split_char(cache_control@, ','),
            first_max_age(ps) == first_max_age(ps.skip(i as int)),
        decreases parts.len() - i,
    {
        let part = trim(parts[i].as_str());
        assert(ps.skip(i as int)[0] == parts@[i as int]@);
        match strip_prefix(part, "max-age=") {
            Some(v) => {
                return parse_decimal(v, u64::MAX);
            },
            None => {},
        }
        assert(ps.skip(i as int).drop_first() =~= ps.skip(i + 1));
        i = i + 1;
    }
    None
}

/// A key set in the cache, with the end of its lifetime and the end of its
/// fallback window (milliseconds).
pub struct CachedJwks {
    pub jwks: Jwks,
    pub expires_at: u64,
    pub stale_until: u64,
}

/// What a cache entry holds.
pub struct CachedJwksView {
    pub jwks: Seq<JwkView>,
    pub expires_at: u64,
    pub stale_until: u64,
}

impl View for CachedJwks {
    type V = CachedJwksView;

    open spec fn view(&self) -> CachedJwksView {
        CachedJwksView {
            jwks: self.jwks@,
            expires_at: self.expires_at,
            stale_until: self.stale_until,
        }
    }
}

/// The signing-key cache: its configuration and its entry, if any.
pub struct JwksCache {
    pub config: JwksCacheConfig,
    pub cached: Option<CachedJwks>,
}

/// What the cache holds.
pub struct JwksCacheView {
    pub config: JwksCacheConfig,
    pub cached: Option<CachedJwksView>,
}

impl View for JwksCache {
    type V = JwksCacheView;

    open spec fn view(&self) -> JwksCacheView {
        JwksCacheView {
            config: self.config,
            cached: match self.cached {
                Some(c) => Some(c@),
                None => None,
            },
        }
    }
}

/// The key set that the cache answers at `now` without a refresh: its entry,
/// while the entry's lifetime has not ended.
pub open spec fn fresh_keys(c: JwksCacheView, now: u64) -> Option<Seq<JwkView>> {
    match c.cached {
        Some(e) => if e.expires_at > now {
            Some(e.jwks)
        } else {
            None
        },
        None => None,
    }
}

/// The lifetime, in seconds, of a key set fetched with the given `max-age`.
pub open spec fn refreshed_ttl(config: JwksCacheConfig, max_age: Option<u64>) -> u64 {
    clamp(
        match max_age {
            Some(m) => m,
            None => config.ttl_seconds,
        },
        config.min_ttl_seconds,
        config.max_ttl_seconds,
    )
}

/// Whether a key set fetched at `now` with the given `max-age` has its
/// lifetime and fallback window within the clock's range.
pub open spec fn refresh_fits(config: JwksCacheConfig, now: u64, max_age: Option<u64>) -> bool {
    now + (refreshed_ttl(config, max_age) + config.stale_if_error_seconds) * 1000 <= u64::MAX
}

/// The cache after a key set fetched at `now` has been stored.
pub open spec fn after_refresh(
    c: JwksCacheView,
    now: u64,
    jwks: Seq<JwkView>,
    max_age: Option<u64>,
) -> JwksCacheView {
    let ttl = refreshed_ttl(c.config, max_age);
    JwksCacheView {
        config: c.config,
        cached: Some(
            CachedJwksView {
                jwks,
                expires_at: (now + ttl * 1000) as u64,
                stale_until: (now + (ttl + c.config.stale_if_error_seconds) * 1000) as u64,
            },
        ),
    }
}

/// The key set that answers at `now` when a refresh has failed: the entry,
/// while its fallback window lasts.
pub open spec fn stale_keys(c: JwksCacheView, now: u64) -> Option<Seq<JwkView>> {
    match c.cached {
        Some(e) => if e.stale_until > now {
            Some(e.jwks)
        } else {
            None
        },
        None => None,
    }
}

impl JwksCache {
    /// An empty cache.
    pub fn new(config: JwksCacheConfig) -> (r: Self)
        ensures
            r@ == (JwksCacheView { config, cached: None }),
    {
        JwksCache { config, cached: None }
    }

    /// The lifetime, in seconds, of a key set fetched with the given
    /// `max-age`: the `max-age`, else the default, clamped.
    pub fn refreshed_ttl_seconds(&self, max_age: Option<u64>) -> (r: u64)
        ensures
            r == refreshed_ttl(self.config, max_age),
    {
        self.config.clamp_ttl(
            match max_age {
                Some(m) => m,
                None => self.config.ttl_seconds,
            },
        )
    }

    /// Whether a key set fetched at `now` with the given `max-age` can be
    /// stored: its lifetime and fallback window end within the clock's range.
    pub fn refresh_fits_at(&self, now: u64, max_age: Option<u64>) -> (r: bool)
        ensures
            r == refresh_fits(self.config, now, max_age),
    {
        let ttl = self.refreshed_ttl_seconds(max_age);
        match ttl.checked_add(self.config.stale_if_error_seconds) {
            Some(window) => match window.checked_mul(1000) {
                Some(ms) => now.checked_add(ms).is_some(),
                None => false,
            },
            None => false,
        }
    }

    /// The cached key set, while its lifetime has not ended at `now`.
    pub fn fresh_jwks(&self, now: u64) -> (r: Option<Jwks>)
        ensures
            match r {
                Some(j) => fresh_keys(self@, now) == Some(j@),
                None => fresh_keys(self@, now) is None,
            },
    {
        match &self.cached {
            Some(e) => if e.expires_at > now {
                Some(e.jwks.duplicate())
            } else {
                None
            },
            None => None,
        }
    }

    /// What a refresh answers without fetching: unless it is forced, a key
    /// set that is still fresh at `now` (another request may have just
    /// refreshed it); a forced refresh always fetches.
    pub fn refresh_shortcut(&self, now: u64, force: bool) -> (r: Option<Jwks>)
        ensures
            force ==> r is None,
            !force ==> match r {
                Some(j) => fresh_keys(self@, now) == Some(j@),
                None => fresh_keys(self@, now) is None,
            },
    {
        if force {
            None
        } else {
            self.fresh_jwks(now)
        }
    }

    /// Stores the outcome of a refresh made at `now` and answers with the key
    /// set to use. A fetched set replaces the entry, with a lifetime taken
    /// from its `max-age` (or the default) and clamped; after a failed fetch
    /// the entry is kept and answers while its fallback window lasts, else
    /// the fetch's error is answered.
    pub fn complete_refresh(
        &mut self,
        now: u64,
        fetched: Result<(Jwks, Option<u64>), ApiError>,
    ) -> (r: Result<Jwks, ApiError>)
        requires
            match fetched {
                Ok((_, max_age)) => refresh_fits(old(self).config, now, max_age),
                Err(_) => true,
            },
        ensures
            match fetched {
                Ok((jwks, max_age)) => {
                    &&& final(self)@ == after_refresh(old(self)@, now, jwks@, max_age)
                    &&& r matches Ok(j) && j@ == jwks@
                },
                Err(e) => {
                    &&& final(self)@ == old(self)@
                    &&& match stale_keys(old(self)@, now) {
                        Some(keys) => r matches Ok(j) && j@ == keys,
                        None => r matches Err(e2) && e2@ == e@,
                    }
                },
            },
    {
        match fetched {
            Ok((jwks, max_age)) => {
                let requested = match max_age {
                    Some(m) => m,
                    None => self.config.ttl_seconds,
                };
                let ttl = self.config.clamp_ttl(requested);
                let answer = jwks.duplicate();
                let expires_at = now + ttl * 1000;
                let stale_until = now + (ttl + self.config.stale_if_error_seconds) * 1000;
                self.cached = Some(CachedJwks { jwks, expires_at, stale_until });
                Ok(answer)
            },
            Err(e) => {
                match &self.cached {
                    Some(stale) => if stale.stale_until > now {
                        return Ok(stale.jwks.duplicate());
                    },
                    None => {},
                }
                Err(e)
            },
        }
    }
}

/// The outcome of asking the identity provider for its key set: no answer
/// (`status` is `None`), an answer whose status is not a success, an answer
/// whose body is not a key set (`jwks` is `None`), or the set together with
/// the `max-age` of the answer's `cache-control` header.
pub fn jwks_fetch_result(
    status: Option<u16>,
    cache_control: Option<&str>,
    jwks: Option<Jwks>,
) -> (r: Result<(Jwks, Option<u64>), ApiError>)
    ensures
        match status {
            None => r matches Err(e) && e@ == unavailable_error("keycloak"@),
            Some(s) => if !(200 <= s < 300) {
                r matches Err(e) && e@ == invalid_response_error("keycloak"@)
            } else {
                match jwks {
                    None => r matches Err(e) && e@ == invalid_response_error("keycloak"@),
                    Some(j) => r matches Ok((k, max_age)) && k@ == j@ && match cache_control {
                        None => max_age is None,
                        Some(cc) => match max_age_seconds(cc@) {
                            Some(v) => max_age == Some(v as u64),
                            None => max_age is None,
                        },
                    },
                }
            },
        },
{
    match status {
        None => Err(ApiError::upstream_unavailable("keycloak")),
        Some(s) => {
            if !(200 <= s && s < 300) {
                return Err(ApiError::upstream_invalid_response("keycloak"));
            }
            match jwks {
                None => Err(ApiError::upstream_invalid_response("keycloak")),
                Some(j) => {
                    let max_age = match cache_control {
                        Some(cc) => parse_max_age_seconds(cc),
                        None => None,
                    };
                    Ok((j, max_age))
                },
            }
        },
    }
}

/// The key for `kid` in a key set just refreshed because `kid` was unknown;
/// 401 when the set still lacks it.
pub fn jwk_after_forced_refresh(refreshed: &Jwks, kid: &str) -> (r: Result<Jwk, ApiError>)
    ensures
        match first_rsa_key(refreshed@, kid@) {
            Some(k) => r matches Ok(j) && j@ == k,
            None => r matches Err(e) && e@ == unauthorized_error("Unknown signing key (kid)"@),
        },
{
    match find_rsa_key(refreshed, kid) {
        Some(k) => Ok(k),
        None => Err(ApiError::unauthorized("Unknown signing key (kid)")),
    }
}

/// Where the search for a signing key stands.
pub enum KidPhase {
    /// Waiting for what the cache holds while fresh.
    Start,
    /// Waiting for a refresh, forced or not.
    Refreshing { force: bool },
    Done,
}

/// What the search learned.
pub enum KidEvent {
    /// The cached key set, when it is still fresh.
    Cached(Option<Jwks>),
    /// The outcome of the refresh that was asked for.
    Refreshed(Result<Jwks, ApiError>),
}

/// What the search does next.
pub enum KidAction {
    /// The key is found.
    Found(Jwk),
    /// Refresh the key set (a forced refresh bypasses a fresh cache).
    Refresh { force: bool },
    /// The search failed.
    Failed(ApiError),
}

/// The search for the signing key `kid`: the fresh cache first, else a
/// refresh; a key id that the key set lacks forces one more refresh before
/// the search gives up.
pub struct KidLookup {
    pub kid: String,
    pub phase: KidPhase,
}

impl KidLookup {
    /// A search for `kid`, waiting for the cache.
    pub fn start(kid: &str) -> (r: Self)
        ensures
            r.kid@ == kid@,
            r.phase is Start,
    {
        KidLookup { kid: String::from_str(kid), phase: KidPhase::Start }
    }

    /// Whether the search waits for an event of this kind.
    pub open spec fn expects(&self, event: &KidEvent) -> bool {
        match (self.phase, event) {
            (KidPhase::Start, KidEvent::Cached(_)) => true,
            (KidPhase::Refreshing { .. }, KidEvent::Refreshed(_)) => true,
            _ => false,
        }
    }

    /// Whether the search waits for an event of this kind.
    pub fn accepts(&self, event: &KidEvent) -> (r: bool)
        ensures
            r == self.expects(event),
    {
        match (&self.phase, event) {
            (KidPhase::Start, KidEvent::Cached(_)) => true,
            (KidPhase::Refreshing { .. }, KidEvent::Refreshed(_)) => true,
            _ => false,
        }
    }

    /// Takes the next event and says what to do.
    pub fn step(&mut self, event: KidEvent) -> (r: KidAction)
        requires
            old(self).expects(&event),
        ensures
            final(self).kid@ == old(self).kid@,
            match (old(self).phase, event) {
                (KidPhase::Start, KidEvent::Cached(None)) => {
                    &&& r matches KidAction::Refresh { force } && !force
                    &&& final(self).phase matches KidPhase::Refreshing { force } && !force
                },
                (KidPhase::Start, KidEvent::Cached(Some(jwks))) => match first_rsa_key(
                    jwks@,
                    old(self).kid@,
                ) {
                    Some(k) => r matches KidAction::Found(j) && j@ == k && final(self).phase is Done,
                    None => {
                        &&& r matches KidAction::Refresh { force } && force
                        &&& final(self).phase matches KidPhase::Refreshing { force } && force
                    },
                },
                (KidPhase::Refreshing { force }, KidEvent::Refreshed(outcome)) => match outcome {
                    Err(e) => r matches KidAction::Failed(e2) && e2@ == e@ && final(self).phase is Done,
                    Ok(jwks) => match first_rsa_key(jwks@, old(self).kid@) {
                        Some(k) => r matches KidAction::Found(j) && j@ == k && final(self).phase is Done,
                        None => if force {
                            &&& r matches KidAction::Failed(e) && e@ == unauthorized_error(
                                "Unknown signing key (kid)"@,
                            )
                            &&& final(self).phase is Done
                        } else {
                            &&& r matches KidAction::Refresh { force: f } && f
                            &&& final(self).phase matches KidPhase::Refreshing { force: f } && f
                        },
                    },
                },
                _ => false,
            },
            // A forced refresh is asked for at most once: never after one.
            old(self).phase matches KidPhase::Refreshing { force } && force ==> !(r is Refresh),
    {
        let mut phase = KidPhase::Done;
        std::mem::swap(&mut phase, &mut self.phase);
        match (phase, event) {
            (KidPhase::Start, KidEvent::Cached(None)) => {
                self.phase = KidPhase::Refreshing { force: false };
                KidAction::Refresh { force: false }
            },
            (KidPhase::Start, KidEvent::Cached(Some(jwks))) => {
                match find_rsa_key(&jwks, self.kid.as_str()) {
                    Some(k) => KidAction::Found(k),
                    None => {
                        self.phase = KidPhase::Refreshing { force: true };
                        KidAction::Refresh { force: true }
                    },
                }
            },
            (KidPhase::Refreshing { force }, KidEvent::Refreshed(outcome)) => match outcome {
                Err(e) => KidAction::Failed(e),
                Ok(jwks) => {
                    if force {
                        match jwk_after_forced_refresh(&jwks, self.kid.as_str()) {
                            Ok(k) => KidAction::Found(k),
                            Err(e) => KidAction::Failed(e),
                        }
                    } else {
                        match find_rsa_key(&jwks, self.kid.as_str()) {
                            Some(k) => KidAction::Found(k),
                            None => {
                                self.phase = KidPhase::Refreshing { force: true };
                                KidAction::Refresh { force: true }
                            },
                        }
                    }
                },
            },
            _ => KidAction::Failed(ApiError::unauthorized("Unknown signing key (kid)")),
        }
    }
}

/// A clamped lifetime lies between the shortest and the longest accepted
/// lifetimes, and a lifetime already between them is kept.
pub proof fn clamp_within_bounds(ttl: u64, lo: u64, hi: u64)
    requires
        lo <= hi,
    ensures
        lo <= clamp(ttl, lo, hi) <= hi,
        lo <= ttl <= hi ==> clamp(ttl, lo, hi) == ttl,
{
}

/// A key set stored by a refresh at `now` is answered from the cache, without
/// a new fetch, at every instant before its lifetime ends and at none after.
pub proof fn refreshed_keys_served_until_expiry(
    c: JwksCacheView,
    now: u64,
    jwks: Seq<JwkView>,
    max_age: Option<u64>,
    t: u64,
)
    requires
        refresh_fits(c.config, now, max_age),
    ensures
        now <= t < now + refreshed_ttl(c.config, max_age) * 1000 ==> fresh_keys(
            after_refresh(c, now, jwks, max_age),
            t,
        ) == Some(jwks),
        t >= now + refreshed_ttl(c.config, max_age) * 1000 ==> fresh_keys(
            after_refresh(c, now, jwks, max_age),
            t,
        ) is None,
{
}

/// After a refresh at `now`, a failed refresh at `t` still answers with the
/// stored key set exactly while `t` is within its lifetime plus the
/// configured fallback window.
pub proof fn stale_keys_served_within_window(
    c: JwksCacheView,
    now: u64,
    jwks: Seq<JwkView>,
    max_age: Option<u64>,
    t: u64,
)
    requires
        refresh_fits(c.config, now, max_age),
    ensures
        stale_keys(after_refresh(c, now, jwks, max_age), t) == (if t < now + (refreshed_ttl(
            c.config,
            max_age,
        ) + c.config.stale_if_error_seconds) * 1000 {
            Some(jwks)
        } else {
            None
        }),
{
}

/// Whatever is fresh is also within the fallback window: the fallback never
/// ends before the lifetime.
pub proof fn fresh_entry_is_within_fallback(
    c: JwksCacheView,
    now: u64,
    jwks: Seq<JwkView>,
    max_age: Option<u64>,
    t: u64,
)
    requires
        refresh_fits(c.config, now, max_age),
        fresh_keys(after_refresh(c, now, jwks, max_age), t) is Some,
    ensures
        stale_keys(after_refresh(c, now, jwks, max_age), t) == fresh_keys(
            after_refresh(c, now, jwks, max_age),
            t,
        ),
{
}

/// A key returned for `kid` has that id and is an RSA key.
pub proof fn found_key_matches(keys: Seq<JwkView>, kid: Seq<char>)
    ensures
        first_rsa_key(keys, kid) matches Some(k) ==> k.kid == kid && k.kty == "RSA"@,
    decreases keys.len(),
{
    if keys.len() > 0 {
        found_key_matches(keys.drop_first(), kid);
    }
}

} // verus!
