use anchorkit::contract::AnchorKitContract;
use anchorkit::data::Address;
use anchorkit::env::{Env, Host, Ledger};
use anchorkit::events::Event;
use anchorkit::types::{CapacityConfig, ContractVersion, ErrorCode, RateLimitConfig};

fn address(name: &str) -> Address {
    Address { strkey: name.as_bytes().to_vec() }
}

fn blank(timestamp: u64, accounts: &[&str]) -> Env {
    let mut authorized = Vec::new();
    for name in accounts {
        authorized.push(address(name));
    }
    let host = Host {
        authorized,
        signatures: Vec::new(),
        tokens: Vec::new(),
        domains: Vec::new(),
        rate_limits: Vec::new(),
    };
    Env::new(Ledger { timestamp, sequence: 1 }, host)
}

#[test]
fn initialize_happens_once() {
    let mut env = blank(5, &["admin", "other"]);
    assert_eq!(AnchorKitContract::get_admin(&env), Err(ErrorCode::NotInitialized));
    assert_eq!(
        AnchorKitContract::initialize(&mut env, address("stranger")),
        Err(ErrorCode::Unauthorized)
    );
    AnchorKitContract::initialize(&mut env, address("admin")).unwrap();
    assert_eq!(AnchorKitContract::get_admin(&env), Ok(address("admin")));
    assert_eq!(env.instance.ttl, 518_400);
    assert_eq!(
        AnchorKitContract::initialize(&mut env, address("other")),
        Err(ErrorCode::AlreadyInitialized)
    );
    assert_eq!(AnchorKitContract::get_admin(&env), Ok(address("admin")));
}

#[test]
fn administrator_calls_need_an_administrator() {
    let mut env = blank(5, &["someone"]);
    assert_eq!(AnchorKitContract::migrate(&mut env), Err(ErrorCode::NotInitialized));
    env.instance.admin = Some(address("admin"));
    assert_eq!(AnchorKitContract::migrate(&mut env), Err(ErrorCode::Unauthorized));
    assert_eq!(AnchorKitContract::upgrade(&mut env, [1; 32]), Err(ErrorCode::Unauthorized));
}

#[test]
fn upgrades_advance_the_patch_level_and_chain_hashes() {
    let mut env = blank(50, &["admin"]);
    AnchorKitContract::initialize(&mut env, address("admin")).unwrap();
    assert_eq!(
        AnchorKitContract::get_version(&env),
        ContractVersion { major: 0, minor: 1, patch: 0, upgraded_at: 0 }
    );
    AnchorKitContract::upgrade(&mut env, [1; 32]).unwrap();
    assert_eq!(
        AnchorKitContract::get_version(&env),
        ContractVersion { major: 0, minor: 1, patch: 1, upgraded_at: 50 }
    );
    env.ledger.timestamp = 60;
    AnchorKitContract::upgrade(&mut env, [2; 32]).unwrap();
    assert_eq!(env.wasm, Some([2; 32]));
    assert_eq!(
        env.events,
        vec![
            Event::ContractUpgraded {
                old_wasm_hash: [0; 32],
                new_wasm_hash: [1; 32],
                new_major: 0,
                new_minor: 1,
                new_patch: 1,
                upgraded_at: 50,
            },
            Event::ContractUpgraded {
                old_wasm_hash: [1; 32],
                new_wasm_hash: [2; 32],
                new_major: 0,
                new_minor: 1,
                new_patch: 2,
                upgraded_at: 60,
            },
        ]
    );
    assert_eq!(env.events[0].topic(), ("contract", "upgraded"));
}

#[test]
fn upgrade_past_the_last_patch_level_is_refused() {
    let mut env = blank(50, &["admin"]);
    AnchorKitContract::initialize(&mut env, address("admin")).unwrap();
    env.instance.version =
        Some(ContractVersion { major: 0, minor: 1, patch: u32::MAX, upgraded_at: 3 });
    assert_eq!(
        AnchorKitContract::upgrade(&mut env, [1; 32]),
        Err(ErrorCode::ArithmeticOverflow)
    );
    assert!(env.wasm.is_none());
    assert!(env.events.is_empty());
}

#[test]
fn bump_patch_keeps_major_and_minor() {
    let v = ContractVersion { major: 3, minor: 4, patch: 5, upgraded_at: 6 };
    assert_eq!(
        v.bump_patch(77),
        ContractVersion { major: 3, minor: 4, patch: 6, upgraded_at: 77 }
    );
}

#[test]
fn migration_runs_once_per_patch_level() {
    let mut env = blank(5, &["admin"]);
    AnchorKitContract::initialize(&mut env, address("admin")).unwrap();
    AnchorKitContract::migrate(&mut env).unwrap();
    assert!(env.instance.migrated.has(&0));
    assert_eq!(env.instance.migrated.rows.len(), 1);
    AnchorKitContract::migrate(&mut env).unwrap();
    assert_eq!(env.instance.migrated.rows.len(), 1);
    AnchorKitContract::upgrade(&mut env, [1; 32]).unwrap();
    AnchorKitContract::migrate(&mut env).unwrap();
    assert!(env.instance.migrated.has(&1));
    assert_eq!(env.instance.migrated.rows.len(), 2);
}

#[test]
fn token_length_limit_is_between_2048_and_16384() {
    let mut env = blank(5, &["admin"]);
    AnchorKitContract::initialize(&mut env, address("admin")).unwrap();
    assert_eq!(AnchorKitContract::get_jwt_max_len(&env), 2048);
    assert_eq!(
        AnchorKitContract::set_jwt_max_len(&mut env, 2047),
        Err(ErrorCode::ValidationError)
    );
    assert_eq!(
        AnchorKitContract::set_jwt_max_len(&mut env, 16385),
        Err(ErrorCode::ValidationError)
    );
    AnchorKitContract::set_jwt_max_len(&mut env, 16384).unwrap();
    assert_eq!(AnchorKitContract::get_jwt_max_len(&env), 16384);
    AnchorKitContract::set_jwt_max_len(&mut env, 2048).unwrap();
    assert_eq!(AnchorKitContract::get_jwt_max_len(&env), 2048);
}

#[test]
fn clock_skew_is_at_most_300_seconds() {
    let mut env = blank(5, &["admin"]);
    AnchorKitContract::initialize(&mut env, address("admin")).unwrap();
    assert_eq!(AnchorKitContract::get_jwt_skew(&env), 60);
    assert_eq!(
        AnchorKitContract::set_jwt_skew(&mut env, 301),
        Err(ErrorCode::ValidationError)
    );
    AnchorKitContract::set_jwt_skew(&mut env, 300).unwrap();
    assert_eq!(AnchorKitContract::get_jwt_skew(&env), 300);
    AnchorKitContract::set_jwt_skew(&mut env, 0).unwrap();
    assert_eq!(AnchorKitContract::get_jwt_skew(&env), 0);
}

#[test]
fn rate_limit_needs_the_rate_limiter() {
    let mut env = blank(5, &["admin"]);
    AnchorKitContract::initialize(&mut env, address("admin")).unwrap();
    assert_eq!(
        AnchorKitContract::set_rate_limit_config(&mut env, 10, 100),
        Err(ErrorCode::ValidationError)
    );
    env.host.rate_limits.push(RateLimitConfig { max_submissions: 10, window_length: 100 });
    AnchorKitContract::set_rate_limit_config(&mut env, 10, 100).unwrap();
    assert_eq!(
        env.instance.rate_limit,
        Some(RateLimitConfig { max_submissions: 10, window_length: 100 })
    );
}

#[test]
fn capacity_limits_are_stored() {
    let mut env = blank(5, &["admin"]);
    AnchorKitContract::initialize(&mut env, address("admin")).unwrap();
    let config = CapacityConfig { max_attestors: 4, max_cache_entries: 7 };
    AnchorKitContract::set_capacity_config(&mut env, config).unwrap();
    assert_eq!(env.instance.capacity, Some(config));
}
