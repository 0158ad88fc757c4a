//! Cached metadata and capabilities of anchors.

use crate::calls::{Call, Moment};
use crate::contract::{carried_out, first_of, unless, AnchorKitContract};
use crate::data::{Address, Comparable, Duplicate, Text};
use crate::env::{Env, State};
use crate::stores::{CachesState, InstanceState};
use crate::table::{erased, put, read, written};
use crate::types::{
    AnchorMetadata, AnchorMetadataView, CapabilitiesCache, CapabilitiesCacheView, ErrorCode,
    MetadataCache, MetadataCacheState, MetadataCacheView, BASIS_POINTS, MIN_TEMP_TTL,
};
use vstd::prelude::*;

verus! {

/// For how many ledgers an entry with a lifetime in seconds is kept: as many
/// as the low 32 bits of the lifetime say, and at least [`MIN_TEMP_TTL`].
pub open spec fn kept_ledgers(seconds: u64) -> u32 {
    let low = seconds as int % 0x1_0000_0000;
    if low > MIN_TEMP_TTL {
        low as u32
    } else {
        MIN_TEMP_TTL
    }
}

/// The sum of two lifetimes, capped at the largest there is.
pub open spec fn capped_sum(a: u64, b: u64) -> u64 {
    if a + b > u64::MAX {
        u64::MAX
    } else {
        (a + b) as u64
    }
}

/// The time since `then`, zero if `then` lies ahead.
pub open spec fn elapsed(now: u64, then: u64) -> u64 {
    if now < then {
        0
    } else {
        (now - then) as u64
    }
}

/// Why an entry cached at a time for a lifetime is not served at `now`: from
/// the end of the lifetime on it has expired.
pub open spec fn expiry_refusal(cached_at: u64, lifetime: u64, now: u64) -> Option<ErrorCode> {
    first_of(
        unless(cached_at + lifetime <= u64::MAX, ErrorCode::ArithmeticOverflow),
        unless(now < cached_at + lifetime, ErrorCode::CacheExpired),
    )
}

impl MetadataCacheView {
    /// Where the entry stands in its lifetime at `now`.
    pub open spec fn state_at(self, now: u64) -> MetadataCacheState {
        let age = elapsed(now, self.cached_at);
        if age <= self.ttl_seconds {
            MetadataCacheState::Fresh
        } else if age <= self.ttl_seconds + self.stale_ttl_seconds {
            MetadataCacheState::Stale
        } else {
            MetadataCacheState::Expired
        }
    }
}

impl AnchorMetadataView {
    /// Whether the metadata is acceptable for `anchor`.
    pub open spec fn acceptable_for(self, anchor: Seq<u8>) -> bool {
        self.anchor == anchor && self.uptime_percentage <= BASIS_POINTS
    }
}

impl State {
    /// How many metadata entries there may be.
    pub open spec fn cache_limit(self) -> u32 {
        match self.instance.capacity {
            Some(c) => c.max_cache_entries,
            None => u32::MAX,
        }
    }

    /// Why metadata of `anchor` cannot be cached: it would be one entry too many.
    pub open spec fn cache_room_refusal(self, anchor: Seq<u8>) -> Option<ErrorCode> {
        unless(
            read(self.caches.metadata, anchor) is Some || self.instance.cache_count
                < self.cache_limit(),
            ErrorCode::CapacityExceeded,
        )
    }

    /// Why `cache_metadata`, `cache_metadata_swr` and `force_refresh_metadata`
    /// are refused.
    pub open spec fn cache_metadata_refusal(self, anchor: Seq<u8>) -> Option<ErrorCode> {
        first_of(self.admin_refusal(), self.cache_room_refusal(anchor))
    }

    /// The state in which metadata of `anchor` has been cached now.
    pub open spec fn cache_metadata_effect(
        self,
        anchor: Seq<u8>,
        metadata: AnchorMetadataView,
        ttl_seconds: u64,
        stale_ttl_seconds: u64,
    ) -> State {
        let entry = MetadataCacheView {
            metadata,
            cached_at: self.now(),
            ttl_seconds,
            stale_ttl_seconds,
            needs_refresh: false,
        };
        State {
            caches: CachesState {
                metadata: put(
                    self.caches.metadata,
                    anchor,
                    entry,
                    kept_ledgers(capped_sum(ttl_seconds, stale_ttl_seconds)),
                ),
                ..self.caches
            },
            instance: InstanceState {
                cache_count: if read(self.caches.metadata, anchor) is Some {
                    self.instance.cache_count
                } else {
                    (self.instance.cache_count + 1) as u32
                },
                ..self.instance
            },
            ..self
        }
    }

    /// The metadata of `anchor` by its primary lifetime alone, or why it is not
    /// served.
    pub open spec fn cached_metadata(self, anchor: Seq<u8>) -> Result<
        AnchorMetadataView,
        ErrorCode,
    > {
        match read(self.caches.metadata, anchor) {
            None => Err(ErrorCode::CacheNotFound),
            Some(entry) => match expiry_refusal(entry.cached_at, entry.ttl_seconds, self.now()) {
                Some(e) => Err(e),
                None => Ok(entry.metadata),
            },
        }
    }

    /// The state without cached metadata of `anchor`.
    pub open spec fn drop_metadata_effect(self, anchor: Seq<u8>) -> State {
        State {
            caches: CachesState {
                metadata: self.caches.metadata.remove(anchor),
                ..self.caches
            },
            instance: InstanceState {
                cache_count: if read(self.caches.metadata, anchor) is Some
                    && self.instance.cache_count > 0 {
                    (self.instance.cache_count - 1) as u32
                } else {
                    self.instance.cache_count
                },
                ..self.instance
            },
            ..self
        }
    }

    /// Where the cached metadata of `anchor` stands in its lifetime.
    pub open spec fn metadata_state(self, anchor: Seq<u8>) -> MetadataCacheState {
        match read(self.caches.metadata, anchor) {
            None => MetadataCacheState::Missing,
            Some(entry) => entry.state_at(self.now()),
        }
    }

    /// Why `get_cached_metadata_swr` is refused.
    pub open spec fn serve_metadata_refusal(self, anchor: Seq<u8>) -> Option<ErrorCode> {
        match self.metadata_state(anchor) {
            MetadataCacheState::Missing => Some(ErrorCode::CacheNotFound),
            MetadataCacheState::Expired => Some(ErrorCode::CacheExpired),
            _ => None,
        }
    }

    /// The state after `get_cached_metadata_swr`: a stale entry is marked for a
    /// refresh.
    pub open spec fn serve_metadata_effect(self, anchor: Seq<u8>) -> State {
        match self.metadata_state(anchor) {
            MetadataCacheState::Stale => State {
                caches: CachesState {
                    metadata: put(
                        self.caches.metadata,
                        anchor,
                        MetadataCacheView {
                            needs_refresh: true,
                            ..read(self.caches.metadata, anchor)->0
                        },
                        0,
                    ),
                    ..self.caches
                },
                ..self
            },
            _ => self,
        }
    }

    /// Whether a refresh with `metadata` has nothing to do: the cached entry is
    /// fresh and says the same.
    pub open spec fn already_cached(self, anchor: Seq<u8>, metadata: AnchorMetadataView) -> bool {
        &&& self.metadata_state(anchor) == MetadataCacheState::Fresh
        &&& (read(self.caches.metadata, anchor)->0).metadata == metadata
    }

    /// Why `refresh_metadata_cache_swr` is refused.
    pub open spec fn refresh_swr_refusal(
        self,
        anchor: Seq<u8>,
        metadata: AnchorMetadataView,
    ) -> Option<ErrorCode> {
        first_of(
            self.admin_refusal(),
            first_of(
                unless(metadata.acceptable_for(anchor), ErrorCode::ValidationError),
                self.cache_room_refusal(anchor),
            ),
        )
    }

    /// The state after `refresh_metadata_cache_swr`.
    pub open spec fn refresh_swr_effect(
        self,
        anchor: Seq<u8>,
        metadata: AnchorMetadataView,
        ttl_seconds: u64,
        stale_ttl_seconds: u64,
    ) -> State {
        if self.already_cached(anchor, metadata) {
            self
        } else {
            self.cache_metadata_effect(anchor, metadata, ttl_seconds, stale_ttl_seconds)
        }
    }

    /// The state in which capabilities of `anchor` have been cached now.
    pub open spec fn cache_capabilities_effect(
        self,
        anchor: Seq<u8>,
        toml_url: Seq<u8>,
        capabilities: Seq<u8>,
        ttl_seconds: u64,
    ) -> State {
        State {
            caches: CachesState {
                capabilities: put(
                    self.caches.capabilities,
                    anchor,
                    CapabilitiesCacheView {
                        toml_url,
                        capabilities,
                        cached_at: self.now(),
                        ttl_seconds,
                    },
                    kept_ledgers(ttl_seconds),
                ),
                ..self.caches
            },
            ..self
        }
    }

    /// The cached capabilities of `anchor`, or why they are not served.
    pub open spec fn cached_capabilities(self, anchor: Seq<u8>) -> Result<
        CapabilitiesCacheView,
        ErrorCode,
    > {
        match read(self.caches.capabilities, anchor) {
            None => Err(ErrorCode::CacheNotFound),
            Some(entry) => match expiry_refusal(entry.cached_at, entry.ttl_seconds, self.now()) {
                Some(e) => Err(e),
                None => Ok(entry),
            },
        }
    }

    /// The state without cached capabilities of `anchor`.
    pub open spec fn drop_capabilities_effect(self, anchor: Seq<u8>) -> State {
        State {
            caches: CachesState {
                capabilities: self.caches.capabilities.remove(anchor),
                ..self.caches
            },
            ..self
        }
    }
}

/// For how many ledgers an entry with a lifetime in seconds is kept.
pub(crate) fn ledger_ttl(seconds: u64) -> (r: u32)
    ensures
        r == kept_ledgers(seconds),
{
    let low: u32 = (seconds % 0x1_0000_0000) as u32;
    if low > MIN_TEMP_TTL {
        low
    } else {
        MIN_TEMP_TTL
    }
}

/// Refuses an entry whose lifetime is over.
pub(crate) fn check_expiry(env: &Env, cached_at: u64, lifetime: u64) -> (r: Result<(), ErrorCode>)
    ensures
        match r {
            Ok(_) => expiry_refusal(cached_at, lifetime, env@.now()) is None,
            Err(e) => expiry_refusal(cached_at, lifetime, env@.now()) == Some(e),
        },
{
    if cached_at > u64::MAX - lifetime {
        Err(ErrorCode::ArithmeticOverflow)
    } else if cached_at + lifetime <= env.ledger.timestamp {
        Err(ErrorCode::CacheExpired)
    } else {
        Ok(())
    }
}

impl MetadataCache {
    /// Where the entry stands in its lifetime at `now`.
    pub fn state_at(&self, now: u64) -> (r: MetadataCacheState)
        ensures
            r == self@.state_at(now),
    {
        let age: u64 = if now < self.cached_at {
            0
        } else {
            now - self.cached_at
        };
        if age <= self.ttl_seconds {
            MetadataCacheState::Fresh
        } else if age <= self.ttl_seconds.saturating_add(self.stale_ttl_seconds) {
            MetadataCacheState::Stale
        } else {
            MetadataCacheState::Expired
        }
    }
}

impl AnchorKitContract {
    /// Refuses a metadata entry that would be one too many.
    fn check_cache_room(env: &Env, anchor: &Address) -> (r: Result<(), ErrorCode>)
        ensures
            match r {
                Ok(_) => env@.cache_room_refusal(anchor@) is None,
                Err(e) => env@.cache_room_refusal(anchor@) == Some(e),
            },
    {
        let limit: u32 = match env.instance.capacity {
            Some(c) => c.max_cache_entries,
            None => u32::MAX,
        };
        if !env.caches.metadata.has(anchor) && env.instance.cache_count >= limit {
            Err(ErrorCode::CapacityExceeded)
        } else {
            Ok(())
        }
    }

    /// Caches metadata of `anchor`.
    fn store_metadata(
        env: &mut Env,
        anchor: Address,
        metadata: AnchorMetadata,
        ttl_seconds: u64,
        stale_ttl_seconds: u64,
    )
        requires
            old(env)@.cache_room_refusal(anchor@) is None,
        ensures
            final(env)@ == old(env)@.cache_metadata_effect(
                anchor@,
                metadata@,
                ttl_seconds,
                stale_ttl_seconds,
            ),
    {
        if !env.caches.metadata.has(&anchor) {
            env.instance.cache_count = env.instance.cache_count + 1;
        }
        let entry = MetadataCache {
            metadata,
            cached_at: env.ledger.timestamp,
            ttl_seconds,
            stale_ttl_seconds,
            needs_refresh: false,
        };
        let ttl: u32 = ledger_ttl(ttl_seconds.saturating_add(stale_ttl_seconds));
        env.caches.metadata.set(anchor, entry, ttl);
    }

    /// Caches metadata of `anchor` for a lifetime. Only the administrator may.
    pub fn cache_metadata(
        env: &mut Env,
        anchor: Address,
        metadata: AnchorMetadata,
        ttl_seconds: u64,
    ) -> (r: Result<(), ErrorCode>)
        ensures
            carried_out(
                r,
                old(env)@,
                final(env)@,
                old(env)@.cache_metadata_refusal(anchor@),
                old(env)@.cache_metadata_effect(anchor@, metadata@, ttl_seconds, 0),
            ),
    {
        Self::cache_metadata_swr(env, anchor, metadata, ttl_seconds, 0)
    }

    /// The cached metadata of `anchor` while its primary lifetime lasts.
    pub fn get_cached_metadata(env: &Env, anchor: Address) -> (r: Result<AnchorMetadata, ErrorCode>)
        ensures
            match r {
                Ok(metadata) => env@.cached_metadata(anchor@) == Ok::<AnchorMetadataView, ErrorCode>(
                    metadata@,
                ),
                Err(e) => env@.cached_metadata(anchor@) == Err::<AnchorMetadataView, ErrorCode>(e),
            },
    {
        match env.caches.metadata.get(&anchor) {
            None => Err(ErrorCode::CacheNotFound),
            Some(entry) => match check_expiry(env, entry.cached_at, entry.ttl_seconds) {
                Ok(_) => Ok(entry.metadata),
                Err(e) => Err(e),
            },
        }
    }

    /// Drops the cached metadata of `anchor`. Only the administrator may.
    pub fn refresh_metadata_cache(env: &mut Env, anchor: Address) -> (r: Result<(), ErrorCode>)
        ensures
            carried_out(
                r,
                old(env)@,
                final(env)@,
                old(env)@.admin_refusal(),
                old(env)@.drop_metadata_effect(anchor@),
            ),
    {
        match env.require_admin() {
            Ok(_) => {},
            Err(e) => return Err(e),
        }
        if env.caches.metadata.has(&anchor) && env.instance.cache_count > 0 {
            env.instance.cache_count = env.instance.cache_count - 1;
        }
        env.caches.metadata.remove(&anchor);
        Ok(())
    }

    /// Caches metadata of `anchor` with a grace period: past `ttl_seconds` it is
    /// stale, and past the grace period of `stale_ttl_seconds` it has expired.
    /// Only the administrator may.
    pub fn cache_metadata_swr(
        env: &mut Env,
        anchor: Address,
        metadata: AnchorMetadata,
        ttl_seconds: u64,
        stale_ttl_seconds: u64,
    ) -> (r: Result<(), ErrorCode>)
        ensures
            carried_out(
                r,
                old(env)@,
                final(env)@,
                old(env)@.cache_metadata_refusal(anchor@),
                old(env)@.cache_metadata_effect(
                    anchor@,
                    metadata@,
                    ttl_seconds,
                    stale_ttl_seconds,
                ),
            ),
    {
        match env.require_admin() {
            Ok(_) => {},
            Err(e) => return Err(e),
        }
        match Self::check_cache_room(env, &anchor) {
            Ok(_) => {},
            Err(e) => return Err(e),
        }
        Self::store_metadata(env, anchor, metadata, ttl_seconds, stale_ttl_seconds);
        Ok(())
    }

    /// The cached metadata of `anchor`, and whether it is due for a refresh: a
    /// stale entry is served, and marked so.
    pub fn get_cached_metadata_swr(env: &mut Env, anchor: Address) -> (r: Result<
        (AnchorMetadata, bool),
        ErrorCode,
    >)
        ensures
            carried_out(
                r,
                old(env)@,
                final(env)@,
                old(env)@.serve_metadata_refusal(anchor@),
                old(env)@.serve_metadata_effect(anchor@),
            ),
            r matches Ok(served) ==> {
                &&& served.0@ == (read(old(env)@.caches.metadata, anchor@)->0).metadata
                &&& served.1 == (old(env)@.metadata_state(anchor@) == MetadataCacheState::Stale)
            },
    {
        let mut entry: MetadataCache = match env.caches.metadata.get(&anchor) {
            Some(entry) => entry,
            None => return Err(ErrorCode::CacheNotFound),
        };
        match entry.state_at(env.ledger.timestamp) {
            MetadataCacheState::Fresh => Ok((entry.metadata, false)),
            MetadataCacheState::Stale => {
                entry.needs_refresh = true;
                env.caches.metadata.set(anchor, entry.dup(), 0);
                Ok((entry.metadata, true))
            },
            _ => Err(ErrorCode::CacheExpired),
        }
    }

    /// Replaces the cached metadata of `anchor` and restarts its lifetime. Only
    /// the administrator may.
    pub fn force_refresh_metadata(
        env: &mut Env,
        anchor: Address,
        metadata: AnchorMetadata,
        ttl_seconds: u64,
        stale_ttl_seconds: u64,
    ) -> (r: Result<(), ErrorCode>)
        ensures
            carried_out(
                r,
                old(env)@,
                final(env)@,
                old(env)@.cache_metadata_refusal(anchor@),
                old(env)@.cache_metadata_effect(
                    anchor@,
                    metadata@,
                    ttl_seconds,
                    stale_ttl_seconds,
                ),
            ),
    {
        Self::cache_metadata_swr(env, anchor, metadata, ttl_seconds, stale_ttl_seconds)
    }

    /// Where the cached metadata of `anchor` stands in its lifetime. Nothing is
    /// marked.
    pub fn get_metadata_cache_state(env: &Env, anchor: Address) -> (r: MetadataCacheState)
        ensures
            r == env@.metadata_state(anchor@),
    {
        match env.caches.metadata.get(&anchor) {
            Some(entry) => entry.state_at(env.ledger.timestamp),
            None => MetadataCacheState::Missing,
        }
    }

    /// Refuses metadata that is not of `anchor`, or whose uptime is more than
    /// the whole.
    fn validate_metadata(anchor: &Address, metadata: &AnchorMetadata) -> (r: Result<(), ErrorCode>)
        ensures
            match r {
                Ok(_) => metadata@.acceptable_for(anchor@),
                Err(e) => !metadata@.acceptable_for(anchor@) && e == ErrorCode::ValidationError,
            },
    {
        if !metadata.anchor.same(anchor) {
            return Err(ErrorCode::ValidationError);
        }
        if metadata.uptime_percentage > BASIS_POINTS {
            return Err(ErrorCode::ValidationError);
        }
        Ok(())
    }

    /// Completes a refresh with newly fetched metadata. Metadata that is not
    /// acceptable is refused, and the entry in place stays. Metadata that a
    /// fresh entry already holds changes nothing; otherwise it replaces the
    /// entry and restarts its lifetime. Only the administrator may.
    pub fn refresh_metadata_cache_swr(
        env: &mut Env,
        anchor: Address,
        metadata: AnchorMetadata,
        ttl_seconds: u64,
        stale_ttl_seconds: u64,
    ) -> (r: Result<(), ErrorCode>)
        ensures
            carried_out(
                r,
                old(env)@,
                final(env)@,
                old(env)@.refresh_swr_refusal(anchor@, metadata@),
                old(env)@.refresh_swr_effect(anchor@, metadata@, ttl_seconds, stale_ttl_seconds),
            ),
            r is Ok ==> *final(env) == *old(env) || read(
                final(env)@.caches.metadata,
                anchor@,
            ) == Some(
                (MetadataCacheView {
                    metadata: metadata@,
                    cached_at: old(env)@.now(),
                    ttl_seconds,
                    stale_ttl_seconds,
                    needs_refresh: false,
                }),
            ),
    {
        match env.require_admin() {
            Ok(_) => {},
            Err(e) => return Err(e),
        }
        match Self::validate_metadata(&anchor, &metadata) {
            Ok(_) => {},
            Err(e) => return Err(e),
        }
        match Self::check_cache_room(env, &anchor) {
            Ok(_) => {},
            Err(e) => return Err(e),
        }
        match env.caches.metadata.get(&anchor) {
            Some(existing) => {
                let state = existing.state_at(env.ledger.timestamp);
                if state == MetadataCacheState::Fresh && existing.metadata.same(&metadata) {
                    return Ok(());
                }
            },
            None => {},
        }
        Self::store_metadata(env, anchor, metadata, ttl_seconds, stale_ttl_seconds);
        Ok(())
    }

    /// How many metadata entries count towards the limit: those that were cached
    /// anew and have not been dropped since. One that the host has let lapse still
    /// counts.
    pub fn get_cache_count(env: &Env) -> (r: u32)
        ensures
            r == env@.instance.cache_count,
    {
        env.instance.cache_count
    }

    /// Caches capabilities of `anchor` for a lifetime. Only the administrator
    /// may.
    pub fn cache_capabilities(
        env: &mut Env,
        anchor: Address,
        toml_url: Text,
        capabilities: Text,
        ttl_seconds: u64,
    ) -> (r: Result<(), ErrorCode>)
        ensures
            carried_out(
                r,
                old(env)@,
                final(env)@,
                old(env)@.admin_refusal(),
                old(env)@.cache_capabilities_effect(
                    anchor@,
                    toml_url@,
                    capabilities@,
                    ttl_seconds,
                ),
            ),
    {
        match env.require_admin() {
            Ok(_) => {},
            Err(e) => return Err(e),
        }
        let entry = CapabilitiesCache {
            toml_url,
            capabilities,
            cached_at: env.ledger.timestamp,
            ttl_seconds,
        };
        env.caches.capabilities.set(anchor, entry, ledger_ttl(ttl_seconds));
        Ok(())
    }

    /// The cached capabilities of `anchor` while their lifetime lasts.
    pub fn get_cached_capabilities(env: &Env, anchor: Address) -> (r: Result<
        CapabilitiesCache,
        ErrorCode,
    >)
        ensures
            match r {
                Ok(entry) => env@.cached_capabilities(anchor@) == Ok::<
                    CapabilitiesCacheView,
                    ErrorCode,
                >(entry@),
                Err(e) => env@.cached_capabilities(anchor@) == Err::<
                    CapabilitiesCacheView,
                    ErrorCode,
                >(e),
            },
    {
        match env.caches.capabilities.get(&anchor) {
            None => Err(ErrorCode::CacheNotFound),
            Some(entry) => match check_expiry(env, entry.cached_at, entry.ttl_seconds) {
                Ok(_) => Ok(entry),
                Err(e) => Err(e),
            },
        }
    }

    /// Drops the cached capabilities of `anchor`. Only the administrator may.
    pub fn refresh_capabilities_cache(env: &mut Env, anchor: Address) -> (r: Result<(), ErrorCode>)
        ensures
            carried_out(
                r,
                old(env)@,
                final(env)@,
                old(env)@.admin_refusal(),
                old(env)@.drop_capabilities_effect(anchor@),
            ),
    {
        match env.require_admin() {
            Ok(_) => {},
            Err(e) => return Err(e),
        }
        env.caches.capabilities.remove(&anchor);
        Ok(())
    }
}

/// Cached metadata is fresh up to the end of its lifetime, then stale up to the
/// end of its grace period, then expired. Read by its lifetime alone it is
/// served until just before the end. An entry that has lapsed is missing.
pub proof fn metadata_ages(
    s: State,
    anchor: Seq<u8>,
    metadata: AnchorMetadataView,
    ttl_seconds: u64,
    stale_ttl_seconds: u64,
    moment: Moment,
)
    requires
        s.now() <= moment.ledger.timestamp,
        s.now() + ttl_seconds <= u64::MAX,
    ensures
        ({
            let t = s.cache_metadata_effect(
                anchor,
                metadata,
                ttl_seconds,
                stale_ttl_seconds,
            ).at(moment);
            let age = t.now() - s.now();
            let lapsed = moment.lapsed.metadata.contains(anchor);
            &&& lapsed <==> read(t.caches.metadata, anchor) is None
            &&& !lapsed ==> (read(t.caches.metadata, anchor) matches Some(entry)
                && entry.metadata == metadata && !entry.needs_refresh)
            &&& t.metadata_state(anchor) == (if lapsed {
                MetadataCacheState::Missing
            } else if age <= ttl_seconds {
                MetadataCacheState::Fresh
            } else if age <= ttl_seconds + stale_ttl_seconds {
                MetadataCacheState::Stale
            } else {
                MetadataCacheState::Expired
            })
            &&& t.cached_metadata(anchor) == (if lapsed {
                Err(ErrorCode::CacheNotFound)
            } else if age < ttl_seconds {
                Ok::<AnchorMetadataView, ErrorCode>(metadata)
            } else {
                Err(ErrorCode::CacheExpired)
            })
            &&& t.serve_metadata_refusal(anchor) == first_of(
                unless(!lapsed, ErrorCode::CacheNotFound),
                unless(age <= ttl_seconds + stale_ttl_seconds, ErrorCode::CacheExpired),
            )
        }),
{
}

/// Serving metadata changes nothing but the mark on a stale entry, and that
/// once: what is served next is the same.
pub proof fn serving_changes_the_mark_alone(s: State, anchor: Seq<u8>, other: Seq<u8>)
    requires
        s.serve_metadata_refusal(anchor) is None,
    ensures
        ({
            let t = s.serve_metadata_effect(anchor);
            let before = read(s.caches.metadata, anchor)->0;
            &&& read(t.caches.metadata, anchor) == Some(
                MetadataCacheView {
                    needs_refresh: before.needs_refresh || s.metadata_state(anchor)
                        == MetadataCacheState::Stale,
                    ..before
                },
            )
            &&& t.metadata_state(anchor) == s.metadata_state(anchor)
            &&& t.serve_metadata_effect(anchor) == t
            &&& other != anchor ==> read(t.caches.metadata, other) == read(
                s.caches.metadata,
                other,
            )
        }),
{
    let t = s.serve_metadata_effect(anchor);
    assert(t.serve_metadata_effect(anchor).caches.metadata =~= t.caches.metadata);
}

/// A refused refresh leaves the entry in place, and metadata of another anchor
/// or with an impossible uptime is refused.
pub proof fn bad_refresh_is_refused(
    s: State,
    anchor: Seq<u8>,
    metadata: AnchorMetadataView,
    ttl_seconds: u64,
    stale_ttl_seconds: u64,
)
    requires
        !metadata.acceptable_for(anchor),
    ensures
        s.refresh_swr_refusal(anchor, metadata) is Some,
        s.admin_refusal() is None ==> s.refresh_swr_refusal(anchor, metadata) == Some(
            ErrorCode::ValidationError,
        ),
        s.after(
            Call::RefreshMetadata { anchor, metadata, ttl_seconds, stale_ttl_seconds },
        ) == s,
{
}

/// Refreshing twice with the same metadata is refreshing once, as long as the
/// entry stays fresh. A refresh leaves the entry fresh and holding the metadata.
pub proof fn refresh_is_idempotent(
    s: State,
    anchor: Seq<u8>,
    metadata: AnchorMetadataView,
    ttl_seconds: u64,
    stale_ttl_seconds: u64,
    moment: Moment,
    other_ttl: u64,
    other_stale_ttl: u64,
)
    ensures
        ({
            let t = s.refresh_swr_effect(anchor, metadata, ttl_seconds, stale_ttl_seconds);
            &&& t.metadata_state(anchor) == MetadataCacheState::Fresh
            &&& (read(t.caches.metadata, anchor)->0).metadata == metadata
            &&& t.at(moment).metadata_state(anchor) == MetadataCacheState::Fresh ==> t.at(
                moment,
            ).refresh_swr_effect(anchor, metadata, other_ttl, other_stale_ttl) == t.at(moment)
        }),
{
}

/// Dropped metadata is missing, and dropping what was newly cached restores the
/// count.
pub proof fn dropped_metadata_is_missing(
    s: State,
    anchor: Seq<u8>,
    metadata: AnchorMetadataView,
    ttl_seconds: u64,
    stale_ttl_seconds: u64,
)
    ensures
        s.drop_metadata_effect(anchor).metadata_state(anchor) == MetadataCacheState::Missing,
        s.drop_metadata_effect(anchor).cached_metadata(anchor) == Err::<
            AnchorMetadataView,
            ErrorCode,
        >(ErrorCode::CacheNotFound),
        read(s.caches.metadata, anchor) is None && s.instance.cache_count < u32::MAX
            ==> s.cache_metadata_effect(
            anchor,
            metadata,
            ttl_seconds,
            stale_ttl_seconds,
        ).drop_metadata_effect(anchor) == s,
{
    let t = s.cache_metadata_effect(
        anchor,
        metadata,
        ttl_seconds,
        stale_ttl_seconds,
    ).drop_metadata_effect(anchor);
    if read(s.caches.metadata, anchor) is None {
        assert(t.caches.metadata =~= s.caches.metadata);
    }
}

/// A full cache takes no entry of another anchor, and caching once more what is
/// cached does not count.
pub proof fn full_cache_refuses(
    s: State,
    anchor: Seq<u8>,
    metadata: AnchorMetadataView,
    ttl_seconds: u64,
    stale_ttl_seconds: u64,
)
    ensures
        s.instance.cache_count >= s.cache_limit() && read(s.caches.metadata, anchor) is None
            ==> s.cache_room_refusal(anchor) == Some(ErrorCode::CapacityExceeded),
        read(s.caches.metadata, anchor) is Some ==> s.cache_room_refusal(anchor) is None
            && s.cache_metadata_effect(
            anchor,
            metadata,
            ttl_seconds,
            stale_ttl_seconds,
        ).instance.cache_count == s.instance.cache_count,
        s.cache_metadata_refusal(anchor) is None && read(s.caches.metadata, anchor) is None
            ==> s.cache_metadata_effect(
            anchor,
            metadata,
            ttl_seconds,
            stale_ttl_seconds,
        ).instance.cache_count <= s.cache_limit(),
{
}

/// Cached capabilities are served until the end of their lifetime, and not once
/// they are dropped or have lapsed.
pub proof fn capabilities_age(
    s: State,
    anchor: Seq<u8>,
    toml_url: Seq<u8>,
    capabilities: Seq<u8>,
    ttl_seconds: u64,
    moment: Moment,
)
    requires
        s.now() <= moment.ledger.timestamp,
        s.now() + ttl_seconds <= u64::MAX,
    ensures
        ({
            let t = s.cache_capabilities_effect(anchor, toml_url, capabilities, ttl_seconds).at(
                moment,
            );
            &&& t.cached_capabilities(anchor) == (if moment.lapsed.capabilities.contains(anchor) {
                Err(ErrorCode::CacheNotFound)
            } else if t.now() < s.now() + ttl_seconds {
                Ok(
                    CapabilitiesCacheView {
                        toml_url,
                        capabilities,
                        cached_at: s.now(),
                        ttl_seconds,
                    },
                )
            } else {
                Err(ErrorCode::CacheExpired)
            })
            &&& t.drop_capabilities_effect(anchor).cached_capabilities(anchor) == Err::<
                CapabilitiesCacheView,
                ErrorCode,
            >(ErrorCode::CacheNotFound)
        }),
{
}

/// An entry is kept as long as it says, from [`MIN_TEMP_TTL`] ledgers on, if its
/// lifetime in seconds fits in 32 bits.
pub proof fn entries_are_kept_long_enough(seconds: u64)
    requires
        seconds <= u32::MAX,
    ensures
        kept_ledgers(seconds) >= seconds,
        kept_ledgers(seconds) >= MIN_TEMP_TTL,
        kept_ledgers(seconds) == seconds || kept_ledgers(seconds) == MIN_TEMP_TTL,
{
}

/// A refresh that has something to do caches the metadata given, now, for the lifetime
/// and the grace period given: later the entry is fresh up to the end of that
/// lifetime, then stale up to the end of that grace period, then expired, unless it
/// has lapsed. Read by its lifetime alone it is served until just before the end.
pub proof fn refreshed_metadata_ages(
    s: State,
    anchor: Seq<u8>,
    metadata: AnchorMetadataView,
    ttl_seconds: u64,
    stale_ttl_seconds: u64,
    moment: Moment,
)
    requires
        s.now() <= moment.ledger.timestamp,
        s.metadata_state(anchor) != MetadataCacheState::Fresh || s.caches.metadata[
            anchor
        ].value.metadata != metadata,
    ensures
        ({
            let t = s.refresh_swr_effect(anchor, metadata, ttl_seconds, stale_ttl_seconds);
            let later = t.at(moment);
            let age = moment.ledger.timestamp - s.ledger.timestamp;
            let lapsed = moment.lapsed.metadata.contains(anchor);
            &&& read(t.caches.metadata, anchor) == Some(
                MetadataCacheView {
                    metadata,
                    cached_at: s.ledger.timestamp,
                    ttl_seconds,
                    stale_ttl_seconds,
                    needs_refresh: false,
                },
            )
            &&& lapsed ==> later.metadata_state(anchor) == MetadataCacheState::Missing
            &&& !lapsed && age <= ttl_seconds ==> later.metadata_state(anchor)
                == MetadataCacheState::Fresh
            &&& !lapsed && ttl_seconds < age <= ttl_seconds + stale_ttl_seconds
                ==> later.metadata_state(anchor) == MetadataCacheState::Stale
            &&& !lapsed && age > ttl_seconds + stale_ttl_seconds ==> later.metadata_state(anchor)
                == MetadataCacheState::Expired
            &&& !lapsed && s.ledger.timestamp + ttl_seconds <= u64::MAX ==> later.cached_metadata(
                anchor,
            ) == (if age < ttl_seconds {
                Ok::<AnchorMetadataView, ErrorCode>(metadata)
            } else {
                Err(ErrorCode::CacheExpired)
            })
        }),
{
}

/// Whether `t` is `s` with metadata of `anchor` cached now, counted if there was none,
/// and nothing else changed.
pub open spec fn cached_anew(
    s: State,
    t: State,
    anchor: Seq<u8>,
    metadata: AnchorMetadataView,
    ttl_seconds: u64,
    stale_ttl_seconds: u64,
) -> bool {
    let sum = ttl_seconds + stale_ttl_seconds;
    let kept = kept_ledgers(
        if sum <= u64::MAX {
            sum as u64
        } else {
            u64::MAX
        },
    );
    &&& written(
        s.caches.metadata,
        t.caches.metadata,
        anchor,
        MetadataCacheView {
            metadata,
            cached_at: s.ledger.timestamp,
            ttl_seconds,
            stale_ttl_seconds,
            needs_refresh: false,
        },
        kept,
    )
    &&& s.caches.metadata.dom().contains(anchor) ==> t.instance.cache_count
        == s.instance.cache_count
    &&& !s.caches.metadata.dom().contains(anchor) ==> t.instance.cache_count
        == s.instance.cache_count + 1
    &&& t == State {
        caches: CachesState { metadata: t.caches.metadata, ..s.caches },
        instance: InstanceState { cache_count: t.instance.cache_count, ..s.instance },
        ..s
    }
}

/// Metadata is cached by the administrator as long as there is room for one more
/// entry, or an entry of the anchor to replace. The room is what the capacity says, and
/// all there is without one.
pub proof fn caching_is_exact(
    s: State,
    anchor: Seq<u8>,
    metadata: AnchorMetadataView,
    ttl_seconds: u64,
    stale_ttl_seconds: u64,
)
    ensures
        ({
            let limit = match s.instance.capacity {
                Some(capacity) => capacity.max_cache_entries,
                None => u32::MAX,
            };
            let room = s.caches.metadata.dom().contains(anchor) || s.instance.cache_count < limit;
            let refusal = s.cache_metadata_refusal(anchor);
            &&& s.admin_refusal() is Some ==> refusal == s.admin_refusal()
            &&& s.admin_refusal() is None && !room ==> refusal == Some(ErrorCode::CapacityExceeded)
            &&& s.admin_refusal() is None && room ==> refusal is None
            &&& s.cache_room_refusal(anchor) is None <==> room
            &&& refusal is None ==> cached_anew(
                s,
                s.cache_metadata_effect(anchor, metadata, ttl_seconds, stale_ttl_seconds),
                anchor,
                metadata,
                ttl_seconds,
                stale_ttl_seconds,
            )
        }),
{
}

/// A refresh is refused like caching, and in between if the metadata is of another
/// anchor or its uptime is more than the whole. It has nothing to do exactly if a fresh
/// entry says the same, and otherwise caches the metadata.
pub proof fn refreshing_is_exact(
    s: State,
    anchor: Seq<u8>,
    metadata: AnchorMetadataView,
    ttl_seconds: u64,
    stale_ttl_seconds: u64,
)
    ensures
        ({
            let refusal = s.refresh_swr_refusal(anchor, metadata);
            let acceptable = metadata.anchor == anchor && metadata.uptime_percentage <= 10_000;
            let t = s.refresh_swr_effect(anchor, metadata, ttl_seconds, stale_ttl_seconds);
            let known = s.caches.metadata.dom().contains(anchor);
            let entry = s.caches.metadata[anchor].value;
            let same = known && entry.metadata == metadata && s.metadata_state(anchor)
                == MetadataCacheState::Fresh;
            &&& s.admin_refusal() is Some ==> refusal == s.admin_refusal()
            &&& s.admin_refusal() is None && !acceptable ==> refusal == Some(
                ErrorCode::ValidationError,
            )
            &&& s.admin_refusal() is None && acceptable ==> refusal == s.cache_room_refusal(anchor)
            &&& same ==> t == s
            &&& !same && refusal is None ==> cached_anew(
                s,
                t,
                anchor,
                metadata,
                ttl_seconds,
                stale_ttl_seconds,
            )
        }),
{
}

/// An entry is fresh until its age exceeds its lifetime, stale until its age exceeds
/// that and its grace period, and expired from then on; an entry from the future has no
/// age. Without an entry the metadata is missing.
pub proof fn entry_states_are_exact(s: State, anchor: Seq<u8>)
    ensures
        ({
            let known = s.caches.metadata.dom().contains(anchor);
            let entry = s.caches.metadata[anchor].value;
            let now = s.ledger.timestamp;
            let state = s.metadata_state(anchor);
            let fresh = now <= entry.cached_at + entry.ttl_seconds;
            let usable = now <= entry.cached_at + entry.ttl_seconds + entry.stale_ttl_seconds;
            &&& state == MetadataCacheState::Missing <==> !known
            &&& state == MetadataCacheState::Fresh <==> known && fresh
            &&& state == MetadataCacheState::Stale <==> known && !fresh && usable
            &&& state == MetadataCacheState::Expired <==> known && !usable
            &&& s.serve_metadata_refusal(anchor) is None <==> known && usable
            &&& s.serve_metadata_refusal(anchor) == Some(ErrorCode::CacheNotFound) <==> !known
            &&& s.serve_metadata_refusal(anchor) == Some(ErrorCode::CacheExpired) <==> known
                && !usable
        }),
{
}

/// Serving a stale entry marks it for a refresh and changes nothing else; serving a
/// fresh one changes nothing.
pub proof fn serving_is_exact(s: State, anchor: Seq<u8>)
    ensures
        ({
            let t = s.serve_metadata_effect(anchor);
            let entry = s.caches.metadata[anchor].value;
            &&& s.metadata_state(anchor) == MetadataCacheState::Stale ==> written(
                s.caches.metadata,
                t.caches.metadata,
                anchor,
                MetadataCacheView { needs_refresh: true, ..entry },
                0,
            )
            &&& s.metadata_state(anchor) != MetadataCacheState::Stale ==> t == s
            &&& t == State { caches: CachesState { metadata: t.caches.metadata, ..s.caches }, ..s }
        }),
{
}

/// Metadata is read by its lifetime alone: it is served while the time is before the
/// end of the lifetime, whatever the grace period.
pub proof fn plain_reading_is_exact(s: State, anchor: Seq<u8>)
    ensures
        ({
            let known = s.caches.metadata.dom().contains(anchor);
            let entry = s.caches.metadata[anchor].value;
            let end = entry.cached_at + entry.ttl_seconds;
            let answer = s.cached_metadata(anchor);
            &&& answer == Err::<AnchorMetadataView, ErrorCode>(ErrorCode::CacheNotFound) <==> !known
            &&& answer == Err::<AnchorMetadataView, ErrorCode>(ErrorCode::ArithmeticOverflow)
                <==> known && end > u64::MAX
            &&& answer == Err::<AnchorMetadataView, ErrorCode>(ErrorCode::CacheExpired) <==> known
                && end <= u64::MAX && s.ledger.timestamp >= end
            &&& known && end <= u64::MAX && s.ledger.timestamp < end ==> answer == Ok::<
                AnchorMetadataView,
                ErrorCode,
            >(entry.metadata)
        }),
{
}

/// Dropping metadata removes the entry of the anchor, and takes it off the count if
/// there was one. Nothing else changes.
pub proof fn dropping_metadata_is_exact(s: State, anchor: Seq<u8>)
    ensures
        ({
            let t = s.drop_metadata_effect(anchor);
            let counted = s.caches.metadata.dom().contains(anchor) && s.instance.cache_count > 0;
            &&& erased(s.caches.metadata, t.caches.metadata, anchor)
            &&& counted ==> t.instance.cache_count == s.instance.cache_count - 1
            &&& !counted ==> t.instance.cache_count == s.instance.cache_count
            &&& t == State {
                caches: CachesState { metadata: t.caches.metadata, ..s.caches },
                instance: InstanceState { cache_count: t.instance.cache_count, ..s.instance },
                ..s
            }
        }),
{
}

/// Capabilities are cached as given, now, and dropped without a trace; nothing else
/// changes. They are served while the time is before the end of their lifetime.
pub proof fn capabilities_are_exact(
    s: State,
    anchor: Seq<u8>,
    toml_url: Seq<u8>,
    capabilities: Seq<u8>,
    ttl_seconds: u64,
)
    ensures
        ({
            let t = s.cache_capabilities_effect(anchor, toml_url, capabilities, ttl_seconds);
            let u = s.drop_capabilities_effect(anchor);
            let known = s.caches.capabilities.dom().contains(anchor);
            let entry = s.caches.capabilities[anchor].value;
            let end = entry.cached_at + entry.ttl_seconds;
            let answer = s.cached_capabilities(anchor);
            &&& written(
                s.caches.capabilities,
                t.caches.capabilities,
                anchor,
                CapabilitiesCacheView {
                    toml_url,
                    capabilities,
                    cached_at: s.ledger.timestamp,
                    ttl_seconds,
                },
                kept_ledgers(ttl_seconds),
            )
            &&& t == State {
                caches: CachesState { capabilities: t.caches.capabilities, ..s.caches },
                ..s
            }
            &&& erased(s.caches.capabilities, u.caches.capabilities, anchor)
            &&& u == State {
                caches: CachesState { capabilities: u.caches.capabilities, ..s.caches },
                ..s
            }
            &&& answer == Err::<CapabilitiesCacheView, ErrorCode>(ErrorCode::CacheNotFound)
                <==> !known
            &&& answer == Err::<CapabilitiesCacheView, ErrorCode>(ErrorCode::ArithmeticOverflow)
                <==> known && end > u64::MAX
            &&& answer == Err::<CapabilitiesCacheView, ErrorCode>(ErrorCode::CacheExpired)
                <==> known && end <= u64::MAX && s.ledger.timestamp >= end
            &&& known && end <= u64::MAX && s.ledger.timestamp < end ==> answer == Ok::<
                CapabilitiesCacheView,
                ErrorCode,
            >(entry)
        }),
{
}

/// An entry is kept for as many ledgers as the remainder of its lifetime modulo two to
/// the thirty-second says, and for fifteen at least.
pub proof fn kept_ledgers_are_exact(seconds: u64)
    ensures
        kept_ledgers(seconds) >= 15,
        kept_ledgers(seconds) >= seconds % 4_294_967_296,
        kept_ledgers(seconds) == 15 || kept_ledgers(seconds) == seconds % 4_294_967_296,
{
}

} // verus!
