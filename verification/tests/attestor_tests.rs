use anchorkit::contract::AnchorKitContract;
use anchorkit::data::Address;
use anchorkit::env::{Env, Host, Ledger};
use anchorkit::events::Event;
use anchorkit::types::{EndpointUpdated, ErrorCode, ServiceType, TokenCheck};

fn address(name: &str) -> Address {
    Address { strkey: name.as_bytes().to_vec() }
}

fn bytes(s: &str) -> Vec<u8> {
    s.as_bytes().to_vec()
}

/// A contract at a time, with the administrator "admin" in place and the call
/// authorized on behalf of "admin" and of each of `accounts`.
fn contract_at(timestamp: u64, accounts: &[&str]) -> Env {
    let mut authorized = vec![address("admin")];
    for name in accounts {
        authorized.push(address(name));
    }
    let host = Host {
        authorized,
        signatures: Vec::new(),
        tokens: Vec::new(),
        domains: Vec::new(),
        rate_limits: Vec::new(),
    };
    let mut env = Env::new(Ledger { timestamp, sequence: 1 }, host);
    AnchorKitContract::initialize(&mut env, address("admin")).unwrap();
    env
}

/// Registers an attestor through a token that the host accepts.
fn register(env: &mut Env, name: &str, public_key: [u8; 32]) -> Result<(), ErrorCode> {
    let issuer_key = vec![9u8; 32];
    AnchorKitContract::set_sep10_jwt_verifying_key(env, address("issuer"), issuer_key.clone())?;
    let token = bytes(&format!("token of {}", name));
    env.host.tokens.push(TokenCheck {
        token: token.clone(),
        public_key: issuer_key,
        subject: Some(address(name)),
    });
    AnchorKitContract::register_attestor(
        env,
        address(name),
        token,
        address("issuer"),
        public_key,
    )
}

#[test]
fn registration_needs_a_token_for_the_attestor() {
    let mut env = contract_at(1, &[]);
    let a = address("attestor");
    let token = bytes("jwt");
    // No key for the issuer.
    assert_eq!(
        AnchorKitContract::register_attestor(
            &mut env,
            a.clone(),
            token.clone(),
            address("issuer"),
            [7; 32]
        ),
        Err(ErrorCode::InvalidSep10Token)
    );
    assert_eq!(
        AnchorKitContract::set_sep10_jwt_verifying_key(&mut env, address("issuer"), vec![1; 31]),
        Err(ErrorCode::ValidationError)
    );
    AnchorKitContract::set_sep10_jwt_verifying_key(&mut env, address("issuer"), vec![1; 32])
        .unwrap();
    // A token of somebody else.
    env.host.tokens.push(TokenCheck {
        token: token.clone(),
        public_key: vec![1; 32],
        subject: Some(address("other")),
    });
    assert_eq!(
        AnchorKitContract::register_attestor(
            &mut env,
            a.clone(),
            token.clone(),
            address("issuer"),
            [7; 32]
        ),
        Err(ErrorCode::InvalidSep10Token)
    );
    env.host.tokens.push(TokenCheck {
        token: token.clone(),
        public_key: vec![1; 32],
        subject: Some(a.clone()),
    });
    AnchorKitContract::register_attestor(
        &mut env,
        a.clone(),
        token.clone(),
        address("issuer"),
        [7; 32],
    )
    .unwrap();
    assert!(AnchorKitContract::is_attestor(&env, a.clone()));
    assert_eq!(env.registry.public_keys.get(&a), Some([7; 32]));
    assert_eq!(env.registry.attestors.ttl(&a), 1_555_200);
    assert_eq!(env.events, vec![Event::AttestorAdded { attestor: a.clone() }]);
    assert_eq!(
        AnchorKitContract::register_attestor(&mut env, a, token, address("issuer"), [7; 32]),
        Err(ErrorCode::AttestorAlreadyRegistered)
    );
}

#[test]
fn tokens_are_verified_with_the_stored_key() {
    let mut env = contract_at(1, &[]);
    AnchorKitContract::set_sep10_jwt_verifying_key(&mut env, address("issuer"), vec![1; 32])
        .unwrap();
    env.host.tokens.push(TokenCheck {
        token: bytes("jwt"),
        public_key: vec![1; 32],
        subject: None,
    });
    env.host.tokens.push(TokenCheck {
        token: bytes("jwt"),
        public_key: vec![1; 32],
        subject: Some(address("me")),
    });
    assert_eq!(
        AnchorKitContract::verify_sep10_token(&env, bytes("jwt"), address("issuer")),
        Ok(())
    );
    assert_eq!(
        AnchorKitContract::verify_sep10_token(&env, bytes("jwx"), address("issuer")),
        Err(ErrorCode::InvalidSep10Token)
    );
    assert_eq!(
        AnchorKitContract::verify_sep10_token(&env, bytes("jwt"), address("nobody")),
        Err(ErrorCode::InvalidSep10Token)
    );
    assert_eq!(
        AnchorKitContract::verify_sep10_token_for_subject(
            &env,
            bytes("jwt"),
            address("issuer"),
            address("me")
        ),
        Ok(())
    );
    assert_eq!(
        AnchorKitContract::verify_sep10_token_for_subject(
            &env,
            bytes("jwt"),
            address("issuer"),
            address("you")
        ),
        Err(ErrorCode::InvalidSep10Token)
    );
}

#[test]
fn revocation_undoes_a_registration() {
    let mut env = contract_at(1, &[]);
    let a = address("attestor");
    assert_eq!(
        AnchorKitContract::revoke_attestor(&mut env, a.clone()),
        Err(ErrorCode::AttestorNotRegistered)
    );
    register(&mut env, "attestor", [7; 32]).unwrap();
    AnchorKitContract::revoke_attestor(&mut env, a.clone()).unwrap();
    assert!(!AnchorKitContract::is_attestor(&env, a.clone()));
    assert!(!env.registry.public_keys.has(&a));
    assert_eq!(AnchorKitContract::get_attestor_count(&env), 0);
    assert_eq!(env.events[1], Event::AttestorRemoved { attestor: a });
    assert_eq!(env.events[1].topic(), ("attestor", "removed"));
}

#[test]
fn endpoint_reads_back() {
    let mut env = contract_at(1, &["attestor"]);
    let a = address("attestor");
    let url = bytes("https://anchor.example");
    assert_eq!(
        AnchorKitContract::set_endpoint(&mut env, a.clone(), url.clone()),
        Err(ErrorCode::AttestorNotRegistered)
    );
    assert_eq!(
        AnchorKitContract::get_endpoint(&env, a.clone()),
        Err(ErrorCode::AttestorNotRegistered)
    );
    register(&mut env, "attestor", [7; 32]).unwrap();
    assert_eq!(
        AnchorKitContract::get_endpoint(&env, a.clone()),
        Err(ErrorCode::AttestorNotRegistered)
    );
    assert_eq!(
        AnchorKitContract::set_endpoint(&mut env, a.clone(), url.clone()),
        Err(ErrorCode::InvalidEndpointFormat)
    );
    env.host.domains.push(String::from("https://anchor.example"));
    AnchorKitContract::set_endpoint(&mut env, a.clone(), url.clone()).unwrap();
    assert_eq!(AnchorKitContract::get_endpoint(&env, a.clone()), Ok(url.clone()));
    assert_eq!(
        env.events[1],
        Event::EndpointUpdated {
            update: EndpointUpdated { attestor: a.clone(), endpoint: url }
        }
    );
    assert_eq!(
        AnchorKitContract::get_webhook_url(&env, a),
        Err(ErrorCode::AttestorNotRegistered)
    );
}

#[test]
fn endpoint_must_be_text() {
    let mut env = contract_at(1, &["attestor"]);
    register(&mut env, "attestor", [7; 32]).unwrap();
    env.host.domains.push(String::from("\u{fffd}"));
    assert_eq!(
        AnchorKitContract::set_endpoint(&mut env, address("attestor"), vec![0xff, 0xfe]),
        Err(ErrorCode::InvalidEndpointFormat)
    );
    assert_eq!(
        AnchorKitContract::soroban_string_to_rust_string(&vec![0xff]),
        Err(ErrorCode::InvalidEndpointFormat)
    );
    assert_eq!(
        AnchorKitContract::soroban_string_to_rust_string(&bytes("h\u{e9}llo")),
        Ok(String::from("h\u{e9}llo"))
    );
}

#[test]
fn webhook_reads_back() {
    let mut env = contract_at(1, &["attestor"]);
    let a = address("attestor");
    register(&mut env, "attestor", [7; 32]).unwrap();
    env.host.domains.push(String::from("https://hooks.example"));
    AnchorKitContract::register_webhook(&mut env, a.clone(), bytes("https://hooks.example"))
        .unwrap();
    assert_eq!(
        AnchorKitContract::get_webhook_url(&env, a.clone()),
        Ok(bytes("https://hooks.example"))
    );
    assert_eq!(env.events[1].topic(), ("webhook", "reg"));
    env.host.authorized.clear();
    assert_eq!(
        AnchorKitContract::register_webhook(&mut env, a, bytes("https://hooks.example")),
        Err(ErrorCode::Unauthorized)
    );
}

#[test]
fn known_service_codes_are_one_to_four() {
    assert!(!AnchorKitContract::is_known_service_code(0));
    for code in 1..=4 {
        assert!(AnchorKitContract::is_known_service_code(code));
    }
    assert!(!AnchorKitContract::is_known_service_code(5));
    assert_eq!(ServiceType::Deposits.as_u32(), 1);
    assert_eq!(ServiceType::Withdrawals.as_u32(), 2);
    assert_eq!(ServiceType::Quotes.as_u32(), 3);
    assert_eq!(ServiceType::KYC.as_u32(), 4);
}

#[test]
fn services_read_back() {
    let mut env = contract_at(1, &["anchor"]);
    let a = address("anchor");
    assert_eq!(
        AnchorKitContract::configure_services(&mut env, a.clone(), vec![1]),
        Err(ErrorCode::AttestorNotRegistered)
    );
    register(&mut env, "anchor", [7; 32]).unwrap();
    assert_eq!(
        AnchorKitContract::get_supported_services(&env, a.clone()),
        Err(ErrorCode::ServicesNotConfigured)
    );
    assert_eq!(
        AnchorKitContract::supports_service(&env, a.clone(), 1),
        Err(ErrorCode::ServicesNotConfigured)
    );
    assert!(!AnchorKitContract::advertises_quote_service(&env, &a));
    AnchorKitContract::configure_services(&mut env, a.clone(), vec![3, 1]).unwrap();
    assert!(AnchorKitContract::advertises_quote_service(&env, &a));
    assert_eq!(AnchorKitContract::supports_service(&env, a.clone(), 1), Ok(true));
    assert_eq!(AnchorKitContract::supports_service(&env, a.clone(), 2), Ok(false));
    let record = AnchorKitContract::get_supported_services(&env, a.clone()).unwrap();
    assert_eq!(record.services, vec![3, 1]);
    assert_eq!(record.anchor, a);
    assert_eq!(
        AnchorKitContract::get_service_capability_version(&env, a.clone()),
        Ok(AnchorKitContract::current_capability_version(&env))
    );
    assert_eq!(env.events[1], Event::ServicesConfigured { services: record });
    AnchorKitContract::configure_services(&mut env, a.clone(), vec![2]).unwrap();
    assert!(!AnchorKitContract::advertises_quote_service(&env, &a));
}

#[test]
fn bad_service_lists_are_refused() {
    let mut env = contract_at(1, &["anchor"]);
    let a = address("anchor");
    register(&mut env, "anchor", [7; 32]).unwrap();
    for list in [vec![], vec![1, 2, 1], vec![0], vec![5], vec![1, 9]] {
        assert_eq!(
            AnchorKitContract::configure_services(&mut env, a.clone(), list),
            Err(ErrorCode::InvalidServiceType)
        );
    }
    for version in [0, 2, 99] {
        assert_eq!(
            AnchorKitContract::configure_services_versioned(&mut env, a.clone(), vec![1], version),
            Err(ErrorCode::UnsupportedCapabilityVersion)
        );
    }
    assert_eq!(
        AnchorKitContract::get_service_capability_version(&env, a),
        Err(ErrorCode::ServicesNotConfigured)
    );
}
