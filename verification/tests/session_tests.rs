use anchorkit::contract::AnchorKitContract;
use anchorkit::data::Address;
use anchorkit::env::{Env, Host, Ledger};
use anchorkit::events::Event;
use anchorkit::types::ErrorCode;

fn address(name: &str) -> Address {
    Address { strkey: name.as_bytes().to_vec() }
}

fn bytes(s: &str) -> Vec<u8> {
    s.as_bytes().to_vec()
}

/// A contract at a time, with the administrator "admin" in place and the call
/// authorized on behalf of "admin" and of each of `accounts`.
fn contract_at(timestamp: u64, accounts: &[&str]) -> Env {
    let mut authorized = vec![address("admin")];
    for name in accounts {
        authorized.push(address(name));
    }
    let host = Host {
        authorized,
        signatures: Vec::new(),
        tokens: Vec::new(),
        domains: Vec::new(),
        rate_limits: Vec::new(),
    };
    let mut env = Env::new(Ledger { timestamp, sequence: 1 }, host);
    AnchorKitContract::initialize(&mut env, address("admin")).unwrap();
    env
}

#[test]
fn sessions_are_numbered_from_zero() {
    let mut env = contract_at(50, &["user"]);
    assert_eq!(AnchorKitContract::create_session(&mut env, address("user")), Ok(0));
    assert_eq!(AnchorKitContract::create_session(&mut env, address("user")), Ok(1));
    let s = AnchorKitContract::get_session(&env, 1).unwrap();
    assert_eq!(s.session_id, 1);
    assert_eq!(s.initiator, address("user"));
    assert_eq!(s.created_at, 50);
    assert_eq!(s.session_ttl_seconds, 3600);
    assert_eq!((s.nonce, s.operation_count, s.closed), (0, 0, false));
    assert_eq!(env.sessions.nonces.get(&1), Some(0));
    assert_eq!(
        env.events[0],
        Event::SessionCreated { session_id: 0, initiator: address("user"), timestamp: 50 }
    );
    assert_eq!(
        AnchorKitContract::get_session(&env, 2),
        Err(ErrorCode::AttestationNotFound)
    );
    assert_eq!(
        AnchorKitContract::create_session(&mut env, address("stranger")),
        Err(ErrorCode::Unauthorized)
    );
    env.instance.next_session = u64::MAX;
    assert_eq!(
        AnchorKitContract::create_session(&mut env, address("user")),
        Err(ErrorCode::ArithmeticOverflow)
    );
}

#[test]
fn session_lives_for_an_hour_to_the_second() {
    let mut env = contract_at(50, &["user"]);
    let id = AnchorKitContract::create_session(&mut env, address("user")).unwrap();
    env.ledger.timestamp = 3650;
    AnchorKitContract::register_attestor_with_session(&mut env, id, address("a"), [1; 32])
        .unwrap();
    env.ledger.timestamp = 3651;
    assert_eq!(
        AnchorKitContract::register_attestor_with_session(&mut env, id, address("b"), [1; 32]),
        Err(ErrorCode::SessionExpired)
    );
    assert_eq!(
        AnchorKitContract::close_session(&mut env, id, address("user")),
        Err(ErrorCode::SessionExpired)
    );
}

#[test]
fn zero_lifetime_means_the_default() {
    let mut env = contract_at(50, &["user"]);
    let id = AnchorKitContract::create_session(&mut env, address("user")).unwrap();
    let mut s = AnchorKitContract::get_session(&env, id).unwrap();
    s.session_ttl_seconds = 0;
    env.sessions.sessions.set(id, s.clone(), 0);
    env.ledger.timestamp = 3650;
    assert_eq!(
        AnchorKitContract::register_attestor_with_session(&mut env, id, address("a"), [1; 32]),
        Ok(())
    );
    s.session_ttl_seconds = u64::MAX;
    env.sessions.sessions.set(id, s, 0);
    assert_eq!(
        AnchorKitContract::revoke_attestor_with_session(&mut env, id, address("a")),
        Err(ErrorCode::ArithmeticOverflow)
    );
}

#[test]
fn closed_session_stays_closed() {
    let mut env = contract_at(50, &["user"]);
    let id = AnchorKitContract::create_session(&mut env, address("user")).unwrap();
    assert_eq!(
        AnchorKitContract::close_session(&mut env, id, address("stranger")),
        Err(ErrorCode::Unauthorized)
    );
    assert_eq!(
        AnchorKitContract::close_session(&mut env, 9, address("user")),
        Err(ErrorCode::AttestationNotFound)
    );
    AnchorKitContract::close_session(&mut env, id, address("user")).unwrap();
    assert!(AnchorKitContract::get_session(&env, id).unwrap().closed);
    assert_eq!(
        env.events.last(),
        Some(&Event::SessionClosed { session_id: id, initiator: address("user"), timestamp: 50 })
    );
    assert_eq!(
        AnchorKitContract::close_session(&mut env, id, address("user")),
        Err(ErrorCode::SessionClosed)
    );
    assert_eq!(
        AnchorKitContract::register_attestor_with_session(&mut env, id, address("a"), [1; 32]),
        Err(ErrorCode::SessionClosed)
    );
    assert_eq!(
        AnchorKitContract::revoke_attestor_with_session(&mut env, id, address("a")),
        Err(ErrorCode::SessionClosed)
    );
}

#[test]
fn registrations_in_a_session_are_logged() {
    let mut env = contract_at(50, &["user"]);
    let id = AnchorKitContract::create_session(&mut env, address("user")).unwrap();
    AnchorKitContract::register_attestor_with_session(&mut env, id, address("a"), [1; 32])
        .unwrap();
    assert!(AnchorKitContract::is_attestor(&env, address("a")));
    assert_eq!(
        AnchorKitContract::register_attestor_with_session(&mut env, id, address("a"), [1; 32]),
        Err(ErrorCode::AttestorAlreadyRegistered)
    );
    assert_eq!(
        AnchorKitContract::revoke_attestor_with_session(&mut env, id, address("b")),
        Err(ErrorCode::AttestorNotRegistered)
    );
    AnchorKitContract::revoke_attestor_with_session(&mut env, id, address("a")).unwrap();
    assert!(!AnchorKitContract::is_attestor(&env, address("a")));
    assert_eq!(AnchorKitContract::get_session_operation_count(&env, id), 2);
    let log = AnchorKitContract::get_audit_log(&env, 1).unwrap();
    assert_eq!(log.session_id, id);
    assert_eq!(log.actor, address("admin"));
    assert_eq!(log.operation.operation_type, bytes("revoke"));
    assert_eq!(log.operation.operation_index, 1);
    assert_eq!(log.operation.result_data, 0);
    assert_eq!(log.operation.timestamp, 50);
    let topics: Vec<(&str, &str)> = env.events.iter().map(|e| e.topic()).collect();
    assert_eq!(
        topics,
        vec![
            ("session", "created"),
            ("attestor", "added"),
            ("audit", "logged"),
            ("attestor", "removed"),
            ("audit", "logged"),
        ]
    );
    assert_eq!(
        AnchorKitContract::get_audit_log(&env, 2),
        Err(ErrorCode::AttestationNotFound)
    );
}

#[test]
fn audit_trail_shows_the_last_operations_in_order() {
    let mut env = contract_at(50, &["user"]);
    let first = AnchorKitContract::create_session(&mut env, address("user")).unwrap();
    let second = AnchorKitContract::create_session(&mut env, address("user")).unwrap();
    for name in ["a", "b", "c"] {
        AnchorKitContract::register_attestor_with_session(&mut env, first, address(name), [1; 32])
            .unwrap();
    }
    AnchorKitContract::revoke_attestor_with_session(&mut env, second, address("b")).unwrap();
    AnchorKitContract::revoke_attestor_with_session(&mut env, first, address("a")).unwrap();
    let indices = |limit: u64| -> Vec<u64> {
        AnchorKitContract::get_session_audit_logs(&env, first, limit)
            .iter()
            .map(|log| log.operation.operation_index)
            .collect()
    };
    assert_eq!(indices(10), vec![0, 1, 2, 3]);
    assert_eq!(indices(4), vec![0, 1, 2, 3]);
    assert_eq!(indices(2), vec![2, 3]);
    assert_eq!(indices(0), Vec::<u64>::new());
    let ids: Vec<u64> = AnchorKitContract::get_session_audit_logs(&env, first, 10)
        .iter()
        .map(|log| log.log_id)
        .collect();
    assert_eq!(ids, vec![0, 1, 2, 4]);
    assert_eq!(AnchorKitContract::get_session_audit_logs(&env, 77, 10), vec![]);
    assert_eq!(AnchorKitContract::get_session_operation_count(&env, 77), 0);
}

#[test]
fn full_audit_log_refuses_operations() {
    let mut env = contract_at(50, &["user"]);
    let id = AnchorKitContract::create_session(&mut env, address("user")).unwrap();
    env.instance.next_audit = u64::MAX;
    assert_eq!(
        AnchorKitContract::register_attestor_with_session(&mut env, id, address("a"), [1; 32]),
        Err(ErrorCode::ArithmeticOverflow)
    );
    assert!(!AnchorKitContract::is_attestor(&env, address("a")));
}
