//! Initialization, upgrades, and the settings that the administrator controls.

use crate::contract::{carried_out, first_of, unless, AnchorKitContract};
use crate::data::{holds, Address, Duplicate};
use crate::env::{kept_alive, Env, State};
use crate::events::{Event, EventView};
use crate::stores::InstanceState;
use crate::table::{put, written};
use crate::types::{
    CapacityConfig, ContractVersion, ErrorCode, RateLimitConfig, DEFAULT_CLOCK_SKEW,
    JWT_LEN_CEILING, MAX_CLOCK_SKEW, MAX_JWT_LEN,
};
use vstd::prelude::*;

verus! {

impl State {
    /// Why `initialize` is refused.
    pub open spec fn initialize_refusal(self, admin: Seq<u8>) -> Option<ErrorCode> {
        first_of(
            unless(self.authorized(admin), ErrorCode::Unauthorized),
            unless(self.instance.admin is None, ErrorCode::AlreadyInitialized),
        )
    }

    /// The state in which `admin` has become the administrator.
    pub open spec fn initialize_effect(self, admin: Seq<u8>) -> State {
        State { instance: InstanceState { admin: Some(admin), ..self.instance }.extended(), ..self }
    }

    /// The contract's version; `0.1.0` before the first upgrade.
    pub open spec fn version(self) -> ContractVersion {
        match self.instance.version {
            Some(v) => v,
            None => ContractVersion { major: 0, minor: 1, patch: 0, upgraded_at: 0 },
        }
    }

    /// The version that an upgrade leads to.
    pub open spec fn next_version(self) -> ContractVersion {
        ContractVersion {
            patch: (self.version().patch + 1) as u32,
            upgraded_at: self.now(),
            ..self.version()
        }
    }

    /// The code that an upgrade reports as replaced: that of the upgrade before
    /// it, or zeros.
    pub open spec fn replaced_wasm(self) -> Seq<u8> {
        match self.instance.last_wasm_hash {
            Some(h) => h,
            None => Seq::new(32, |i: int| 0u8),
        }
    }

    /// Why `upgrade` is refused.
    pub open spec fn upgrade_refusal(self) -> Option<ErrorCode> {
        first_of(
            self.admin_refusal(),
            unless(self.version().patch < u32::MAX, ErrorCode::ArithmeticOverflow),
        )
    }

    /// The state after an upgrade to the code `new_wasm_hash`.
    pub open spec fn upgrade_effect(self, new_wasm_hash: Seq<u8>) -> State {
        let v = self.next_version();
        State {
            wasm: Some(new_wasm_hash),
            instance: InstanceState {
                version: Some(v),
                last_wasm_hash: Some(new_wasm_hash),
                ..self.instance
            }.extended(),
            ..self
        }.announce(
            EventView::ContractUpgraded {
                old_wasm_hash: self.replaced_wasm(),
                new_wasm_hash,
                new_major: v.major,
                new_minor: v.minor,
                new_patch: v.patch,
                upgraded_at: self.now(),
            },
        )
    }

    /// The state after the migration of the current patch level; a second run
    /// changes nothing.
    pub open spec fn migrate_effect(self) -> State {
        if self.instance.migrated.dom().contains(self.version().patch) {
            self
        } else {
            State {
                instance: InstanceState {
                    migrated: put(self.instance.migrated, self.version().patch, true, 0),
                    ..self.instance
                }.extended(),
                ..self
            }
        }
    }

    /// Why a limit on the length of tokens is refused.
    pub open spec fn set_jwt_max_len_refusal(self, max_len: u32) -> Option<ErrorCode> {
        first_of(
            self.admin_refusal(),
            unless(2048 <= max_len <= 16384, ErrorCode::ValidationError),
        )
    }

    /// The state with a limit on the length of tokens.
    pub open spec fn set_jwt_max_len_effect(self, max_len: u32) -> State {
        State {
            instance: InstanceState { jwt_max_len: Some(max_len), ..self.instance }.extended(),
            ..self
        }
    }

    /// Why a clock skew tolerance is refused.
    pub open spec fn set_jwt_skew_refusal(self, skew_seconds: u64) -> Option<ErrorCode> {
        first_of(self.admin_refusal(), unless(skew_seconds <= 300, ErrorCode::ValidationError))
    }

    /// The state with a clock skew tolerance.
    pub open spec fn set_jwt_skew_effect(self, skew_seconds: u64) -> State {
        State {
            instance: InstanceState { jwt_skew: Some(skew_seconds), ..self.instance }.extended(),
            ..self
        }
    }

    /// Why a rate limit is refused.
    pub open spec fn set_rate_limit_refusal(self, config: RateLimitConfig) -> Option<ErrorCode> {
        first_of(
            self.admin_refusal(),
            unless(self.host.rate_limits.contains(config), ErrorCode::ValidationError),
        )
    }

    /// The state with a rate limit.
    pub open spec fn set_rate_limit_effect(self, config: RateLimitConfig) -> State {
        State { instance: InstanceState { rate_limit: Some(config), ..self.instance }, ..self }
    }

    /// The state with capacity limits.
    pub open spec fn set_capacity_effect(self, config: CapacityConfig) -> State {
        State {
            instance: InstanceState { capacity: Some(config), ..self.instance }.extended(),
            ..self
        }
    }
}

impl AnchorKitContract {
    /// Makes `admin` the administrator, once.
    pub fn initialize(env: &mut Env, admin: Address) -> (r: Result<(), ErrorCode>)
        ensures
            carried_out(
                r,
                old(env)@,
                final(env)@,
                old(env)@.initialize_refusal(admin@),
                old(env)@.initialize_effect(admin@),
            ),
    {
        if !env.authorized(&admin) {
            return Err(ErrorCode::Unauthorized);
        }
        if env.instance.admin.is_some() {
            return Err(ErrorCode::AlreadyInitialized);
        }
        env.instance.admin = Some(admin);
        env.instance.extend();
        Ok(())
    }

    /// The administrator.
    pub fn get_admin(env: &Env) -> (r: Result<Address, ErrorCode>)
        ensures
            match r {
                Ok(admin) => env@.instance.admin == Some(admin@),
                Err(e) => env@.instance.admin is None && e == ErrorCode::NotInitialized,
            },
    {
        match &env.instance.admin {
            Some(admin) => Ok(admin.dup()),
            None => Err(ErrorCode::NotInitialized),
        }
    }

    /// The contract's version; `0.1.0` if it has never been upgraded.
    pub fn get_version(env: &Env) -> (r: ContractVersion)
        ensures
            r == env@.version(),
    {
        match env.instance.version {
            Some(v) => v,
            None => ContractVersion { major: 0, minor: 1, patch: 0, upgraded_at: 0 },
        }
    }

    /// Has the host install the code `new_wasm_hash`, moves the version to the
    /// next patch level and announces the upgrade. Administrator only.
    pub fn upgrade(env: &mut Env, new_wasm_hash: [u8; 32]) -> (r: Result<(), ErrorCode>)
        ensures
            carried_out(
                r,
                old(env)@,
                final(env)@,
                old(env)@.upgrade_refusal(),
                old(env)@.upgrade_effect(new_wasm_hash@),
            ),
    {
        match env.require_admin() {
            Ok(_) => {},
            Err(e) => return Err(e),
        }
        let old_version = Self::get_version(env);
        if old_version.patch == u32::MAX {
            return Err(ErrorCode::ArithmeticOverflow);
        }
        let now: u64 = env.ledger.timestamp;
        let old_wasm_hash: [u8; 32] = match env.instance.last_wasm_hash {
            Some(h) => h,
            None => [0u8; 32],
        };
        assert(old_wasm_hash@ =~= env@.replaced_wasm());
        let new_version = old_version.bump_patch(now);
        env.wasm = Some(new_wasm_hash);
        env.instance.version = Some(new_version);
        env.instance.last_wasm_hash = Some(new_wasm_hash);
        env.instance.extend();
        env.announce(
            Event::ContractUpgraded {
                old_wasm_hash,
                new_wasm_hash,
                new_major: new_version.major,
                new_minor: new_version.minor,
                new_patch: new_version.patch,
                upgraded_at: now,
            },
        );
        Ok(())
    }

    /// Runs the migration of the current patch level unless it has run already.
    /// Administrator only.
    pub fn migrate(env: &mut Env) -> (r: Result<(), ErrorCode>)
        ensures
            carried_out(
                r,
                old(env)@,
                final(env)@,
                old(env)@.admin_refusal(),
                old(env)@.migrate_effect(),
            ),
    {
        match env.require_admin() {
            Ok(_) => {},
            Err(e) => return Err(e),
        }
        let patch: u32 = Self::get_version(env).patch;
        if env.instance.migrated.has(&patch) {
            return Ok(());
        }
        env.instance.migrated.set(patch, true, 0);
        env.instance.extend();
        Ok(())
    }

    /// Sets the longest SEP-10 token accepted, between 2048 and 16384 bytes.
    /// Administrator only.
    pub fn set_jwt_max_len(env: &mut Env, max_len: u32) -> (r: Result<(), ErrorCode>)
        ensures
            carried_out(
                r,
                old(env)@,
                final(env)@,
                old(env)@.set_jwt_max_len_refusal(max_len),
                old(env)@.set_jwt_max_len_effect(max_len),
            ),
    {
        match env.require_admin() {
            Ok(_) => {},
            Err(e) => return Err(e),
        }
        if max_len < MAX_JWT_LEN || max_len > JWT_LEN_CEILING {
            return Err(ErrorCode::ValidationError);
        }
        env.instance.jwt_max_len = Some(max_len);
        env.instance.extend();
        Ok(())
    }

    /// The longest SEP-10 token accepted; 2048 bytes by default.
    pub fn get_jwt_max_len(env: &Env) -> (r: u32)
        ensures
            r == (match env@.instance.jwt_max_len {
                Some(n) => n,
                None => 2048,
            }),
    {
        match env.instance.jwt_max_len {
            Some(n) => n,
            None => MAX_JWT_LEN,
        }
    }

    /// Sets the clock skew tolerance for SEP-10 tokens, at most 300 seconds.
    /// Administrator only.
    pub fn set_jwt_skew(env: &mut Env, skew_seconds: u64) -> (r: Result<(), ErrorCode>)
        ensures
            carried_out(
                r,
                old(env)@,
                final(env)@,
                old(env)@.set_jwt_skew_refusal(skew_seconds),
                old(env)@.set_jwt_skew_effect(skew_seconds),
            ),
    {
        match env.require_admin() {
            Ok(_) => {},
            Err(e) => return Err(e),
        }
        if skew_seconds > MAX_CLOCK_SKEW {
            return Err(ErrorCode::ValidationError);
        }
        env.instance.jwt_skew = Some(skew_seconds);
        env.instance.extend();
        Ok(())
    }

    /// The clock skew tolerance for SEP-10 tokens; 60 seconds by default.
    pub fn get_jwt_skew(env: &Env) -> (r: u64)
        ensures
            r == (match env@.instance.jwt_skew {
                Some(n) => n,
                None => 60,
            }),
    {
        match env.instance.jwt_skew {
            Some(n) => n,
            None => DEFAULT_CLOCK_SKEW,
        }
    }

    /// Sets the rate limit, if the rate limiter takes it. Administrator only.
    pub fn set_rate_limit_config(env: &mut Env, max_submissions: u32, window_length: u32) -> (r:
        Result<(), ErrorCode>)
        ensures
            carried_out(
                r,
                old(env)@,
                final(env)@,
                old(env)@.set_rate_limit_refusal(
                    RateLimitConfig { max_submissions, window_length },
                ),
                old(env)@.set_rate_limit_effect(RateLimitConfig { max_submissions, window_length }),
            ),
    {
        match env.require_admin() {
            Ok(_) => {},
            Err(e) => return Err(e),
        }
        let config = RateLimitConfig { max_submissions, window_length };
        if !holds(&env.host.rate_limits, &config) {
            return Err(ErrorCode::ValidationError);
        }
        env.instance.rate_limit = Some(config);
        Ok(())
    }

    /// Limits how many attestors and how many cached metadata entries there may
    /// be. Administrator only.
    pub fn set_capacity_config(env: &mut Env, config: CapacityConfig) -> (r: Result<
        (),
        ErrorCode,
    >)
        ensures
            carried_out(
                r,
                old(env)@,
                final(env)@,
                old(env)@.admin_refusal(),
                old(env)@.set_capacity_effect(config),
            ),
    {
        match env.require_admin() {
            Ok(_) => {},
            Err(e) => return Err(e),
        }
        env.instance.capacity = Some(config);
        env.instance.extend();
        Ok(())
    }
}

/// The first upgrade leads to version `0.1.1`; each one advances the patch
/// level by one and keeps the rest of the version.
pub proof fn upgrade_advances_version(s: State, new_wasm_hash: Seq<u8>)
    requires
        s.upgrade_refusal() is None,
    ensures
        ({
            let v = s.upgrade_effect(new_wasm_hash).version();
            &&& v.major == s.version().major
            &&& v.minor == s.version().minor
            &&& v.patch == s.version().patch + 1
            &&& v.upgraded_at == s.now()
            &&& s.instance.version is None ==> (v.major, v.minor, v.patch) == (0u32, 1u32, 1u32)
        }),
{
}

/// An upgrade reports the code of the upgrade before it as replaced.
pub proof fn upgrades_chain(s: State, first: Seq<u8>, second: Seq<u8>)
    ensures
        ({
            let t = s.upgrade_effect(first);
            &&& t.upgrade_effect(second).events == t.events.push(
                EventView::ContractUpgraded {
                    old_wasm_hash: first,
                    new_wasm_hash: second,
                    new_major: t.next_version().major,
                    new_minor: t.next_version().minor,
                    new_patch: t.next_version().patch,
                    upgraded_at: s.now(),
                },
            )
            &&& t.upgrade_effect(second).wasm == Some(second)
        }),
{
}

/// Migrating twice is migrating once, until an upgrade.
pub proof fn migration_is_idempotent(s: State, new_wasm_hash: Seq<u8>)
    ensures
        s.migrate_effect().migrate_effect() == s.migrate_effect(),
        s.migrate_effect().instance.migrated.dom().contains(s.version().patch),
        s.upgrade_refusal() is None ==> s.upgrade_effect(new_wasm_hash).version().patch
            != s.version().patch,
{
}

/// The administrator and the settings read back as they were set.
pub proof fn settings_read_back(
    s: State,
    admin: Seq<u8>,
    max_len: u32,
    skew_seconds: u64,
    config: CapacityConfig,
)
    ensures
        s.initialize_effect(admin).instance.admin == Some(admin),
        s.set_jwt_max_len_effect(max_len).instance.jwt_max_len == Some(max_len),
        s.set_jwt_skew_effect(skew_seconds).instance.jwt_skew == Some(skew_seconds),
        s.set_capacity_effect(config).instance.capacity == Some(config),
        s.set_capacity_effect(config).attestor_limit() == config.max_attestors,
        s.set_capacity_effect(config).cache_limit() == config.max_cache_entries,
{
}

/// The contract is initialized once, by an administrator who authorizes it. Nothing
/// else changes.
pub proof fn initialization_is_exact(s: State, admin: Seq<u8>)
    ensures
        ({
            let authorized = s.host.authorized.contains(admin);
            let refusal = s.initialize_refusal(admin);
            let t = s.initialize_effect(admin);
            &&& refusal == Some(ErrorCode::Unauthorized) <==> !authorized
            &&& refusal == Some(ErrorCode::AlreadyInitialized) <==> authorized
                && s.instance.admin is Some
            &&& refusal is None <==> authorized && s.instance.admin is None
            &&& t.instance.admin == Some(admin)
            &&& kept_alive(s.instance, t.instance)
            &&& t == State {
                instance: InstanceState {
                    admin: t.instance.admin,
                    ttl: t.instance.ttl,
                    ..s.instance
                },
                ..s
            }
        }),
{
}

/// An upgrade is made by the administrator, while there is a patch level left. It has
/// the host install the code given, moves the version on by one patch level, dates it,
/// and announces it with the code that it replaces, which is that of the last upgrade,
/// or zeros. Nothing else changes. Before the first upgrade the version is `0.1.0`.
pub proof fn upgrade_is_exact(s: State, new_wasm_hash: Seq<u8>)
    ensures
        ({
            let v = s.version();
            let refusal = s.upgrade_refusal();
            let t = s.upgrade_effect(new_wasm_hash);
            &&& s.instance.version is Some ==> s.instance.version == Some(v)
            &&& s.instance.version is None ==> v.major == 0 && v.minor == 1 && v.patch == 0
                && v.upgraded_at == 0
            &&& s.admin_refusal() is Some ==> refusal == s.admin_refusal()
            &&& s.admin_refusal() is None && v.patch == u32::MAX ==> refusal == Some(
                ErrorCode::ArithmeticOverflow,
            )
            &&& s.admin_refusal() is None && v.patch < u32::MAX ==> refusal is None
            &&& t.wasm == Some(new_wasm_hash)
            &&& t.instance.last_wasm_hash == Some(new_wasm_hash)
            &&& refusal is None ==> t.instance.version == Some(
                ContractVersion {
                    major: v.major,
                    minor: v.minor,
                    patch: (v.patch + 1) as u32,
                    upgraded_at: s.ledger.timestamp,
                },
            )
            &&& kept_alive(s.instance, t.instance)
            &&& s.instance.last_wasm_hash is Some ==> s.instance.last_wasm_hash == Some(
                s.replaced_wasm(),
            )
            &&& s.instance.last_wasm_hash is None ==> s.replaced_wasm().len() == 32 && (
            forall|i: int| 0 <= i < 32 ==> #[trigger] s.replaced_wasm()[i] == 0)
            &&& refusal is None ==> t.events == s.events.push(
                EventView::ContractUpgraded {
                    old_wasm_hash: s.replaced_wasm(),
                    new_wasm_hash,
                    new_major: v.major,
                    new_minor: v.minor,
                    new_patch: (v.patch + 1) as u32,
                    upgraded_at: s.ledger.timestamp,
                },
            )
            &&& t == State {
                wasm: t.wasm,
                instance: InstanceState {
                    version: t.instance.version,
                    last_wasm_hash: t.instance.last_wasm_hash,
                    ttl: t.instance.ttl,
                    ..s.instance
                },
                events: t.events,
                ..s
            }
        }),
{
}

/// A migration marks the current patch level, and only that; where the mark is there,
/// nothing happens.
pub proof fn migration_is_exact(s: State)
    ensures
        ({
            let patch = s.version().patch;
            let done = s.instance.migrated.dom().contains(patch);
            let t = s.migrate_effect();
            &&& done ==> t == s
            &&& !done ==> written(s.instance.migrated, t.instance.migrated, patch, true, 0)
                && kept_alive(s.instance, t.instance)
            &&& t == State {
                instance: InstanceState {
                    migrated: t.instance.migrated,
                    ttl: t.instance.ttl,
                    ..s.instance
                },
                ..s
            }
        }),
{
}

/// A limit on the length of tokens is set by the administrator, from 2048 to 16384
/// bytes; a clock skew tolerance, up to 300 seconds. Nothing else changes.
pub proof fn token_settings_are_exact(s: State, max_len: u32, skew_seconds: u64)
    ensures
        ({
            let len_refusal = s.set_jwt_max_len_refusal(max_len);
            let skew_refusal = s.set_jwt_skew_refusal(skew_seconds);
            let t = s.set_jwt_max_len_effect(max_len);
            let u = s.set_jwt_skew_effect(skew_seconds);
            &&& s.admin_refusal() is Some ==> len_refusal == s.admin_refusal() && skew_refusal
                == s.admin_refusal()
            &&& s.admin_refusal() is None ==> {
                &&& len_refusal is None <==> 2048 <= max_len && max_len <= 16384
                &&& len_refusal is Some ==> len_refusal == Some(ErrorCode::ValidationError)
                &&& skew_refusal is None <==> skew_seconds <= 300
                &&& skew_refusal is Some ==> skew_refusal == Some(ErrorCode::ValidationError)
            }
            &&& t.instance.jwt_max_len == Some(max_len)
            &&& u.instance.jwt_skew == Some(skew_seconds)
            &&& kept_alive(s.instance, t.instance)
            &&& kept_alive(s.instance, u.instance)
            &&& t == State {
                instance: InstanceState {
                    jwt_max_len: t.instance.jwt_max_len,
                    ttl: t.instance.ttl,
                    ..s.instance
                },
                ..s
            }
            &&& u == State {
                instance: InstanceState {
                    jwt_skew: u.instance.jwt_skew,
                    ttl: u.instance.ttl,
                    ..s.instance
                },
                ..s
            }
        }),
{
}

/// A rate limit is set by the administrator if the rate limiter takes it, and capacity
/// limits are set as given. Nothing else changes.
pub proof fn limits_are_exact(s: State, config: RateLimitConfig, capacity: CapacityConfig)
    ensures
        ({
            let refusal = s.set_rate_limit_refusal(config);
            let t = s.set_rate_limit_effect(config);
            let u = s.set_capacity_effect(capacity);
            &&& s.admin_refusal() is Some ==> refusal == s.admin_refusal()
            &&& s.admin_refusal() is None && s.host.rate_limits.contains(config) ==> refusal is None
            &&& s.admin_refusal() is None && !s.host.rate_limits.contains(config) ==> refusal
                == Some(ErrorCode::ValidationError)
            &&& t.instance.rate_limit == Some(config)
            &&& t == State {
                instance: InstanceState { rate_limit: t.instance.rate_limit, ..s.instance },
                ..s
            }
            &&& u.instance.capacity == Some(capacity)
            &&& kept_alive(s.instance, u.instance)
            &&& u == State {
                instance: InstanceState {
                    capacity: u.instance.capacity,
                    ttl: u.instance.ttl,
                    ..s.instance
                },
                ..s
            }
        }),
{
}

} // verus!
