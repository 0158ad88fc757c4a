use anchorkit::contract::AnchorKitContract;
use anchorkit::data::Address;
use anchorkit::env::{Env, Host, Ledger};
use anchorkit::types::{AnchorMetadata, CapacityConfig, ErrorCode, TokenCheck};

fn make_env() -> Env {
    let host = Host {
        authorized: Vec::new(),
        signatures: Vec::new(),
        tokens: Vec::new(),
        domains: Vec::new(),
        rate_limits: Vec::new(),
    };
    Env::new(Ledger { timestamp: 0, sequence: 0 }, host)
}

/// An address of its own, on whose behalf every call is authorized.
fn generate(env: &mut Env) -> Address {
    let number = env.host.authorized.len();
    let address = Address { strkey: format!("GADDRESS{}", number).into_bytes() };
    env.host.authorized.push(address.clone());
    address
}

fn register_attestor_with_sep10(
    env: &mut Env,
    attestor: &Address,
    issuer: &Address,
    key: &[u8; 32],
) -> Result<(), ErrorCode> {
    AnchorKitContract::set_sep10_jwt_verifying_key(env, issuer.clone(), key.to_vec())?;
    let token = b"header.payload.signature".to_vec();
    env.host.tokens.push(TokenCheck {
        token: token.clone(),
        public_key: key.to_vec(),
        subject: Some(attestor.clone()),
    });
    AnchorKitContract::register_attestor(env, attestor.clone(), token, issuer.clone(), *key)
}

fn sample_metadata(anchor: &Address) -> AnchorMetadata {
    AnchorMetadata {
        anchor: anchor.clone(),
        reputation_score: 9000,
        liquidity_score: 8500,
        uptime_percentage: 9900,
        total_volume: 1_000_000,
        average_settlement_time: 300,
        is_active: true,
    }
}

#[test]
fn test_attestor_capacity_limit_enforced() {
    let mut env = make_env();
    let admin = generate(&mut env);
    AnchorKitContract::initialize(&mut env, admin).unwrap();
    AnchorKitContract::set_capacity_config(
        &mut env,
        CapacityConfig { max_attestors: 2, max_cache_entries: 10 },
    )
    .unwrap();

    let attestor1 = generate(&mut env);
    register_attestor_with_sep10(&mut env, &attestor1, &attestor1, &[0u8; 32]).unwrap();
    assert_eq!(AnchorKitContract::get_attestor_count(&env), 1);

    let attestor2 = generate(&mut env);
    register_attestor_with_sep10(&mut env, &attestor2, &attestor2, &[1u8; 32]).unwrap();
    assert_eq!(AnchorKitContract::get_attestor_count(&env), 2);

    let attestor3 = generate(&mut env);
    let result = AnchorKitContract::register_attestor(
        &mut env,
        attestor3.clone(),
        Vec::new(),
        attestor3.clone(),
        [0u8; 32],
    );
    assert!(result.is_err());
    // With a token that holds, the limit is what stands in the way.
    assert_eq!(
        register_attestor_with_sep10(&mut env, &attestor3, &attestor3, &[2u8; 32]),
        Err(ErrorCode::CapacityExceeded)
    );
    assert_eq!(AnchorKitContract::get_attestor_count(&env), 2);

    AnchorKitContract::revoke_attestor(&mut env, attestor2).unwrap();
    assert_eq!(AnchorKitContract::get_attestor_count(&env), 1);

    register_attestor_with_sep10(&mut env, &attestor3, &attestor3, &[2u8; 32]).unwrap();
    assert_eq!(AnchorKitContract::get_attestor_count(&env), 2);
}

#[test]
fn test_cache_capacity_limit_enforced() {
    let mut env = make_env();
    let admin = generate(&mut env);
    AnchorKitContract::initialize(&mut env, admin).unwrap();
    AnchorKitContract::set_capacity_config(
        &mut env,
        CapacityConfig { max_attestors: 10, max_cache_entries: 3 },
    )
    .unwrap();

    let anchor1 = generate(&mut env);
    let meta1 = sample_metadata(&anchor1);
    AnchorKitContract::cache_metadata(&mut env, anchor1, meta1, 3600).unwrap();
    assert_eq!(AnchorKitContract::get_cache_count(&env), 1);

    let anchor2 = generate(&mut env);
    let meta2 = sample_metadata(&anchor2);
    AnchorKitContract::cache_metadata(&mut env, anchor2, meta2, 3600).unwrap();
    assert_eq!(AnchorKitContract::get_cache_count(&env), 2);

    let anchor3 = generate(&mut env);
    let meta3 = sample_metadata(&anchor3);
    AnchorKitContract::cache_metadata(&mut env, anchor3, meta3, 3600).unwrap();
    assert_eq!(AnchorKitContract::get_cache_count(&env), 3);

    let anchor4 = generate(&mut env);
    let meta4 = sample_metadata(&anchor4);
    let result = AnchorKitContract::cache_metadata(&mut env, anchor4, meta4, 3600);
    assert!(result.is_err());
    assert_eq!(result, Err(ErrorCode::CapacityExceeded));
}

#[test]
fn test_same_cache_entry_does_not_increase_count() {
    let mut env = make_env();
    let admin = generate(&mut env);
    AnchorKitContract::initialize(&mut env, admin).unwrap();
    AnchorKitContract::set_capacity_config(
        &mut env,
        CapacityConfig { max_attestors: 10, max_cache_entries: 3 },
    )
    .unwrap();

    let anchor = generate(&mut env);
    let meta = sample_metadata(&anchor);
    AnchorKitContract::cache_metadata(&mut env, anchor.clone(), meta.clone(), 3600).unwrap();
    assert_eq!(AnchorKitContract::get_cache_count(&env), 1);

    let mut updated_meta = meta.clone();
    updated_meta.reputation_score = 9500;
    AnchorKitContract::cache_metadata(&mut env, anchor.clone(), updated_meta, 3600).unwrap();
    assert_eq!(AnchorKitContract::get_cache_count(&env), 1);
    let cached = AnchorKitContract::get_cached_metadata(&env, anchor).unwrap();
    assert_eq!(cached.reputation_score, 9500);
}
