use anchorkit::contract::AnchorKitContract;
use anchorkit::data::Address;
use anchorkit::env::{Env, Host, Ledger};
use anchorkit::types::{
    AnchorMetadata, AssetInfo, CapabilitiesCache, ErrorCode, MetadataCacheState, StellarToml,
};

fn address(name: &str) -> Address {
    Address { strkey: name.as_bytes().to_vec() }
}

fn bytes(s: &str) -> Vec<u8> {
    s.as_bytes().to_vec()
}

/// A contract at a time, with the administrator "admin" in place and the call
/// authorized on behalf of "admin" and of each of `accounts`.
fn contract_at(timestamp: u64, accounts: &[&str]) -> Env {
    let mut authorized = vec![address("admin")];
    for name in accounts {
        authorized.push(address(name));
    }
    let host = Host {
        authorized,
        signatures: Vec::new(),
        tokens: Vec::new(),
        domains: Vec::new(),
        rate_limits: Vec::new(),
    };
    let mut env = Env::new(Ledger { timestamp, sequence: 1 }, host);
    AnchorKitContract::initialize(&mut env, address("admin")).unwrap();
    env
}

fn metadata(name: &str, reputation: u32) -> AnchorMetadata {
    AnchorMetadata {
        anchor: address(name),
        reputation_score: reputation,
        liquidity_score: 2,
        uptime_percentage: 10_000,
        total_volume: 4,
        average_settlement_time: 5,
        is_active: true,
    }
}

#[test]
fn metadata_is_served_while_its_lifetime_lasts() {
    let mut env = contract_at(100, &[]);
    let a = address("a");
    assert_eq!(
        AnchorKitContract::get_cached_metadata(&env, a.clone()),
        Err(ErrorCode::CacheNotFound)
    );
    AnchorKitContract::cache_metadata(&mut env, a.clone(), metadata("a", 1), 50).unwrap();
    assert_eq!(env.caches.metadata.ttl(&a), 50);
    env.ledger.timestamp = 149;
    assert_eq!(
        AnchorKitContract::get_cached_metadata(&env, a.clone()),
        Ok(metadata("a", 1))
    );
    env.ledger.timestamp = 150;
    assert_eq!(
        AnchorKitContract::get_cached_metadata(&env, a.clone()),
        Err(ErrorCode::CacheExpired)
    );
    AnchorKitContract::cache_metadata(&mut env, a.clone(), metadata("a", 1), u64::MAX).unwrap();
    assert_eq!(
        AnchorKitContract::get_cached_metadata(&env, a.clone()),
        Err(ErrorCode::ArithmeticOverflow)
    );
    AnchorKitContract::refresh_metadata_cache(&mut env, a.clone()).unwrap();
    assert_eq!(
        AnchorKitContract::get_cached_metadata(&env, a),
        Err(ErrorCode::CacheNotFound)
    );
    assert_eq!(AnchorKitContract::get_cache_count(&env), 0);
}

#[test]
fn entries_are_kept_for_the_low_bits_of_their_lifetime() {
    let mut env = contract_at(100, &[]);
    let kept = |env: &mut Env, name: &str, ttl: u64| -> u32 {
        AnchorKitContract::cache_metadata(env, address(name), metadata(name, 1), ttl).unwrap();
        env.caches.metadata.ttl(&address(name))
    };
    assert_eq!(kept(&mut env, "a", 0), 15);
    assert_eq!(kept(&mut env, "b", 15), 15);
    assert_eq!(kept(&mut env, "c", 16), 16);
    assert_eq!(kept(&mut env, "d", 0x1_0000_0000), 15);
    assert_eq!(kept(&mut env, "e", 0x1_0000_0064), 100);
    assert_eq!(kept(&mut env, "f", u64::MAX), u32::MAX);
}

#[test]
fn metadata_is_fresh_then_stale_then_expired() {
    let mut env = contract_at(100, &[]);
    let a = address("a");
    assert_eq!(
        AnchorKitContract::get_metadata_cache_state(&env, a.clone()),
        MetadataCacheState::Missing
    );
    assert_eq!(
        AnchorKitContract::get_cached_metadata_swr(&mut env, a.clone()),
        Err(ErrorCode::CacheNotFound)
    );
    AnchorKitContract::cache_metadata_swr(&mut env, a.clone(), metadata("a", 1), 10, 20).unwrap();
    let state = |env: &mut Env, t: u64| {
        env.ledger.timestamp = t;
        AnchorKitContract::get_metadata_cache_state(env, address("a"))
    };
    assert_eq!(state(&mut env, 0), MetadataCacheState::Fresh);
    assert_eq!(state(&mut env, 110), MetadataCacheState::Fresh);
    assert_eq!(
        AnchorKitContract::get_cached_metadata_swr(&mut env, a.clone()),
        Ok((metadata("a", 1), false))
    );
    assert!(!env.caches.metadata.get(&a).unwrap().needs_refresh);
    assert_eq!(state(&mut env, 111), MetadataCacheState::Stale);
    assert!(!env.caches.metadata.get(&a).unwrap().needs_refresh);
    assert_eq!(
        AnchorKitContract::get_cached_metadata_swr(&mut env, a.clone()),
        Ok((metadata("a", 1), true))
    );
    assert!(env.caches.metadata.get(&a).unwrap().needs_refresh);
    assert_eq!(state(&mut env, 130), MetadataCacheState::Stale);
    assert_eq!(state(&mut env, 131), MetadataCacheState::Expired);
    assert_eq!(
        AnchorKitContract::get_cached_metadata_swr(&mut env, a.clone()),
        Err(ErrorCode::CacheExpired)
    );
    AnchorKitContract::force_refresh_metadata(&mut env, a.clone(), metadata("a", 2), 10, 20)
        .unwrap();
    assert_eq!(state(&mut env, 141), MetadataCacheState::Fresh);
    assert!(!env.caches.metadata.get(&a).unwrap().needs_refresh);
}

#[test]
fn endless_grace_period_never_expires() {
    let mut env = contract_at(0, &[]);
    AnchorKitContract::cache_metadata_swr(
        &mut env,
        address("a"),
        metadata("a", 1),
        10,
        u64::MAX,
    )
    .unwrap();
    env.ledger.timestamp = u64::MAX;
    assert_eq!(
        AnchorKitContract::get_metadata_cache_state(&env, address("a")),
        MetadataCacheState::Stale
    );
}

#[test]
fn bad_refresh_keeps_the_last_good_entry() {
    let mut env = contract_at(100, &[]);
    let a = address("a");
    AnchorKitContract::cache_metadata_swr(&mut env, a.clone(), metadata("a", 1), 10, 20).unwrap();
    env.ledger.timestamp = 105;
    assert_eq!(
        AnchorKitContract::refresh_metadata_cache_swr(
            &mut env,
            a.clone(),
            metadata("b", 9),
            10,
            20
        ),
        Err(ErrorCode::ValidationError)
    );
    let mut impossible = metadata("a", 9);
    impossible.uptime_percentage = 10_001;
    assert_eq!(
        AnchorKitContract::refresh_metadata_cache_swr(&mut env, a.clone(), impossible, 10, 20),
        Err(ErrorCode::ValidationError)
    );
    let entry = env.caches.metadata.get(&a).unwrap();
    assert_eq!((entry.metadata, entry.cached_at), (metadata("a", 1), 100));
}

#[test]
fn refresh_is_idempotent_while_fresh() {
    let mut env = contract_at(100, &[]);
    let a = address("a");
    let refresh = |env: &mut Env, reputation: u32| {
        AnchorKitContract::refresh_metadata_cache_swr(
            env,
            address("a"),
            metadata("a", reputation),
            10,
            20,
        )
        .unwrap()
    };
    refresh(&mut env, 1);
    assert_eq!(AnchorKitContract::get_cache_count(&env), 1);
    env.ledger.timestamp = 110;
    refresh(&mut env, 1);
    assert_eq!(env.caches.metadata.get(&a).unwrap().cached_at, 100);
    refresh(&mut env, 2);
    assert_eq!(env.caches.metadata.get(&a).unwrap().cached_at, 110);
    env.ledger.timestamp = 121;
    refresh(&mut env, 2);
    assert_eq!(env.caches.metadata.get(&a).unwrap().cached_at, 121);
    assert_eq!(AnchorKitContract::get_cache_count(&env), 1);
}

#[test]
fn lapsed_entry_is_missing_and_still_counts() {
    let mut env = contract_at(100, &[]);
    let a = address("a");
    AnchorKitContract::cache_metadata(&mut env, a.clone(), metadata("a", 1), 50).unwrap();
    env.caches.metadata.remove(&a);
    assert_eq!(
        AnchorKitContract::get_metadata_cache_state(&env, a.clone()),
        MetadataCacheState::Missing
    );
    assert_eq!(AnchorKitContract::get_cache_count(&env), 1);
    AnchorKitContract::refresh_metadata_cache(&mut env, a).unwrap();
    assert_eq!(AnchorKitContract::get_cache_count(&env), 1);
}

#[test]
fn caching_needs_the_administrator() {
    let mut env = contract_at(100, &[]);
    env.host.authorized.clear();
    let a = address("a");
    let refused = Err(ErrorCode::Unauthorized);
    assert_eq!(
        AnchorKitContract::cache_metadata(&mut env, a.clone(), metadata("a", 1), 1),
        refused
    );
    assert_eq!(
        AnchorKitContract::cache_metadata_swr(&mut env, a.clone(), metadata("a", 1), 1, 1),
        refused
    );
    assert_eq!(
        AnchorKitContract::force_refresh_metadata(&mut env, a.clone(), metadata("a", 1), 1, 1),
        refused
    );
    assert_eq!(
        AnchorKitContract::refresh_metadata_cache_swr(&mut env, a.clone(), metadata("a", 1), 1, 1),
        refused
    );
    assert_eq!(AnchorKitContract::refresh_metadata_cache(&mut env, a.clone()), refused);
    assert_eq!(
        AnchorKitContract::cache_capabilities(&mut env, a.clone(), bytes("u"), bytes("c"), 1),
        refused
    );
    assert_eq!(AnchorKitContract::refresh_capabilities_cache(&mut env, a), refused);
}

#[test]
fn capabilities_are_served_while_their_lifetime_lasts() {
    let mut env = contract_at(100, &[]);
    let a = address("a");
    assert_eq!(
        AnchorKitContract::get_cached_capabilities(&env, a.clone()),
        Err(ErrorCode::CacheNotFound)
    );
    AnchorKitContract::cache_capabilities(&mut env, a.clone(), bytes("url"), bytes("caps"), 30)
        .unwrap();
    env.ledger.timestamp = 129;
    assert_eq!(
        AnchorKitContract::get_cached_capabilities(&env, a.clone()),
        Ok(CapabilitiesCache {
            toml_url: bytes("url"),
            capabilities: bytes("caps"),
            cached_at: 100,
            ttl_seconds: 30,
        })
    );
    env.ledger.timestamp = 130;
    assert_eq!(
        AnchorKitContract::get_cached_capabilities(&env, a.clone()),
        Err(ErrorCode::CacheExpired)
    );
    AnchorKitContract::refresh_capabilities_cache(&mut env, a.clone()).unwrap();
    assert_eq!(
        AnchorKitContract::get_cached_capabilities(&env, a),
        Err(ErrorCode::CacheNotFound)
    );
}

fn asset(code: &str, number: u64) -> AssetInfo {
    AssetInfo {
        code: bytes(code),
        issuer: bytes("G"),
        deposit_enabled: true,
        withdrawal_enabled: false,
        deposit_fee_fixed: number + 1,
        deposit_fee_percent: number as u32 + 2,
        withdrawal_fee_fixed: number + 3,
        withdrawal_fee_percent: number as u32 + 4,
        deposit_min_amount: number + 5,
        deposit_max_amount: number + 6,
        withdrawal_min_amount: number + 7,
        withdrawal_max_amount: number + 8,
    }
}

fn toml() -> StellarToml {
    StellarToml {
        version: bytes("2.0"),
        network_passphrase: bytes("net"),
        accounts: vec![bytes("G1")],
        signing_key: bytes("key"),
        currencies: vec![asset("USD", 10), asset("EUR", 20), asset("USD", 30)],
        transfer_server: bytes("t"),
        transfer_server_sep0024: bytes("t24"),
        kyc_server: bytes("k"),
        web_auth_endpoint: bytes("w"),
    }
}

#[test]
fn published_info_reads_back() {
    let mut env = contract_at(100, &["a"]);
    let a = address("a");
    assert_eq!(
        AnchorKitContract::fetch_anchor_info(&mut env, address("stranger"), toml(), 10),
        Err(ErrorCode::Unauthorized)
    );
    assert_eq!(
        AnchorKitContract::get_anchor_toml(&env, a.clone()),
        Err(ErrorCode::CacheNotFound)
    );
    AnchorKitContract::fetch_anchor_info(&mut env, a.clone(), toml(), 20).unwrap();
    assert_eq!(AnchorKitContract::get_anchor_toml(&env, a.clone()), Ok(toml()));
    assert_eq!(
        AnchorKitContract::get_anchor_assets(&env, a.clone()),
        Ok(vec![bytes("USD"), bytes("EUR"), bytes("USD")])
    );
    env.ledger.timestamp = 120;
    assert_eq!(
        AnchorKitContract::get_anchor_assets(&env, a.clone()),
        Err(ErrorCode::CacheExpired)
    );
    env.ledger.timestamp = 119;
    assert!(AnchorKitContract::get_anchor_toml(&env, a.clone()).is_ok());
    assert_eq!(
        AnchorKitContract::refresh_anchor_info(&mut env, address("stranger")),
        Err(ErrorCode::Unauthorized)
    );
    AnchorKitContract::refresh_anchor_info(&mut env, a.clone()).unwrap();
    assert_eq!(
        AnchorKitContract::get_anchor_toml(&env, a),
        Err(ErrorCode::CacheNotFound)
    );
}

#[test]
fn first_asset_with_a_code_is_found() {
    let mut env = contract_at(100, &["a"]);
    let a = address("a");
    AnchorKitContract::fetch_anchor_info(&mut env, a.clone(), toml(), 20).unwrap();
    let usd = bytes("USD");
    assert_eq!(
        AnchorKitContract::get_anchor_asset_info(&env, a.clone(), usd.clone()),
        Ok(asset("USD", 10))
    );
    assert_eq!(
        AnchorKitContract::get_anchor_deposit_limits(&env, a.clone(), usd.clone()),
        Ok((15, 16))
    );
    assert_eq!(
        AnchorKitContract::get_anchor_withdrawal_limits(&env, a.clone(), usd.clone()),
        Ok((17, 18))
    );
    assert_eq!(
        AnchorKitContract::get_anchor_deposit_fees(&env, a.clone(), usd.clone()),
        Ok((11, 12))
    );
    assert_eq!(
        AnchorKitContract::get_anchor_withdrawal_fees(&env, a.clone(), usd.clone()),
        Ok((13, 14))
    );
    assert_eq!(
        AnchorKitContract::anchor_supports_deposits(&env, a.clone(), usd.clone()),
        Ok(true)
    );
    assert_eq!(
        AnchorKitContract::anchor_supports_withdrawals(&env, a.clone(), usd),
        Ok(false)
    );
    assert_eq!(
        AnchorKitContract::get_anchor_asset_info(&env, a.clone(), bytes("GBP")),
        Err(ErrorCode::ValidationError)
    );
    assert_eq!(
        AnchorKitContract::anchor_supports_deposits(&env, a, bytes("GBP")),
        Err(ErrorCode::ValidationError)
    );
}
