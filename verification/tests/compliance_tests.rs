use anchorkit::contract::AnchorKitContract;
use anchorkit::data::Address;
use anchorkit::env::{Env, Host, Ledger};
use anchorkit::events::Event;
use anchorkit::types::{ErrorCode, KycStatus, TransactionState, WebhookEvent};

fn address(name: &str) -> Address {
    Address { strkey: name.as_bytes().to_vec() }
}

fn bytes(s: &str) -> Vec<u8> {
    s.as_bytes().to_vec()
}

/// A contract at a time, with the administrator "admin" in place and the call
/// authorized on behalf of "admin" and of each of `accounts`.
fn contract_at(timestamp: u64, accounts: &[&str]) -> Env {
    let mut authorized = vec![address("admin")];
    for name in accounts {
        authorized.push(address(name));
    }
    let host = Host {
        authorized,
        signatures: Vec::new(),
        tokens: Vec::new(),
        domains: Vec::new(),
        rate_limits: Vec::new(),
    };
    let mut env = Env::new(Ledger { timestamp, sequence: 1 }, host);
    AnchorKitContract::initialize(&mut env, address("admin")).unwrap();
    env
}

fn with_attestor() -> Env {
    let mut env = contract_at(20, &["attestor"]);
    env.registry.attestors.set(address("attestor"), true, 0);
    env
}

#[test]
fn kyc_review_runs_its_course() {
    let mut env = with_attestor();
    let subject = address("subject");
    assert_eq!(
        AnchorKitContract::get_kyc_status(&env, subject.clone()),
        KycStatus::NotSubmitted
    );
    assert_eq!(
        AnchorKitContract::approve_kyc(&mut env, subject.clone()),
        Err(ErrorCode::KycNotFound)
    );
    AnchorKitContract::submit_kyc(&mut env, subject.clone(), bytes("data"), address("attestor"))
        .unwrap();
    assert_eq!(
        env.events,
        vec![Event::KycSubmitted {
            subject: subject.clone(),
            notice: WebhookEvent {
                event_type: bytes("kyc_submitted"),
                transaction_id: 0,
                timestamp: 20,
                payload_hash: bytes("data"),
            },
        }]
    );
    assert_eq!(env.compliance.kyc_data.get(&subject), Some(bytes("data")));
    assert_eq!(
        AnchorKitContract::submit_kyc(
            &mut env,
            subject.clone(),
            bytes("data"),
            address("attestor")
        ),
        Err(ErrorCode::ComplianceNotMet)
    );
    env.ledger.timestamp = 30;
    AnchorKitContract::approve_kyc(&mut env, subject.clone()).unwrap();
    assert_eq!(
        AnchorKitContract::get_kyc_status(&env, subject.clone()),
        KycStatus::Approved
    );
    let record = env.compliance.kyc.get(&subject).unwrap();
    assert_eq!((record.status, record.submitted_at, record.reviewed_at), (2, 20, Some(30)));
    assert_eq!(env.events[1].topic(), ("kyc", "approved"));
    assert_eq!(
        AnchorKitContract::reject_kyc(&mut env, subject.clone(), bytes("late")),
        Err(ErrorCode::IllegalTransition)
    );
    assert_eq!(
        AnchorKitContract::approve_kyc(&mut env, subject),
        Err(ErrorCode::IllegalTransition)
    );
}

#[test]
fn rejection_keeps_the_reason() {
    let mut env = with_attestor();
    let subject = address("subject");
    AnchorKitContract::submit_kyc(&mut env, subject.clone(), bytes("data"), address("attestor"))
        .unwrap();
    AnchorKitContract::reject_kyc(&mut env, subject.clone(), bytes("reason")).unwrap();
    let record = env.compliance.kyc.get(&subject).unwrap();
    assert_eq!(record.status, 3);
    assert_eq!(record.rejection_reason_hash, Some(bytes("reason")));
    assert_eq!(
        AnchorKitContract::get_kyc_status(&env, subject.clone()),
        KycStatus::Rejected
    );
    assert_eq!(
        env.events[1],
        Event::KycRejected {
            subject,
            notice: WebhookEvent {
                event_type: bytes("kyc_rejected"),
                transaction_id: 0,
                timestamp: 20,
                payload_hash: bytes("reason"),
            },
        }
    );
}

#[test]
fn kyc_needs_a_registered_attestor() {
    let mut env = contract_at(20, &["attestor"]);
    assert_eq!(
        AnchorKitContract::submit_kyc(&mut env, address("s"), bytes("d"), address("attestor")),
        Err(ErrorCode::AttestorNotRegistered)
    );
    assert_eq!(
        AnchorKitContract::submit_kyc(&mut env, address("s"), bytes("d"), address("stranger")),
        Err(ErrorCode::Unauthorized)
    );
}

#[test]
fn kyc_expires_after_its_expiry() {
    let mut env = with_attestor();
    let subject = address("subject");
    AnchorKitContract::submit_kyc(&mut env, subject.clone(), bytes("data"), address("attestor"))
        .unwrap();
    let mut record = env.compliance.kyc.get(&subject).unwrap();
    record.expiry = Some(25);
    record.status = 2;
    env.compliance.kyc.set(subject.clone(), record.clone(), 0);
    env.ledger.timestamp = 25;
    assert_eq!(
        AnchorKitContract::get_kyc_status(&env, subject.clone()),
        KycStatus::Approved
    );
    env.ledger.timestamp = 26;
    assert_eq!(
        AnchorKitContract::get_kyc_status(&env, subject.clone()),
        KycStatus::Expired
    );
    record.expiry = None;
    record.status = 4;
    env.compliance.kyc.set(subject.clone(), record.clone(), 0);
    assert_eq!(
        AnchorKitContract::get_kyc_status(&env, subject.clone()),
        KycStatus::Expired
    );
    record.status = 17;
    env.compliance.kyc.set(subject.clone(), record, 0);
    assert_eq!(
        AnchorKitContract::get_kyc_status(&env, subject),
        KycStatus::NotSubmitted
    );
}

#[test]
fn last_compliance_check_decides() {
    let mut env = contract_at(20, &[]);
    AnchorKitContract::record_compliance_check(&mut env, address("s"), bytes("kyc"), true)
        .unwrap();
    let key = (address("s"), bytes("kyc"));
    let check = env.compliance.checks.get(&key).unwrap();
    assert_eq!((check.result, check.timestamp), (1, 20));
    assert_eq!(
        env.events,
        vec![Event::ComplianceChecked { subject: address("s"), check }]
    );
    AnchorKitContract::record_compliance_check(&mut env, address("s"), bytes("kyc"), false)
        .unwrap();
    assert_eq!(env.compliance.checks.get(&key).unwrap().result, 0);
    env.host.authorized.clear();
    assert_eq!(
        AnchorKitContract::record_compliance_check(&mut env, address("s"), bytes("kyc"), true),
        Err(ErrorCode::Unauthorized)
    );
}

#[test]
fn transactions_start_pending() {
    let mut env = contract_at(20, &[]);
    let record = AnchorKitContract::create_transaction_record(&mut env, 5, address("user"));
    assert_eq!(record.transaction_id, 5);
    assert_eq!(record.state, TransactionState::Pending);
    assert_eq!(record.initiator, address("user"));
    assert_eq!((record.timestamp, record.last_updated), (20, 20));
    assert_eq!(record.error_message, None);
    assert_eq!(record.state_history, vec![(TransactionState::Pending, 20)]);
    assert_eq!(env.transactions.get(&5), Some(record));
    assert_eq!(env.transactions.ttl(&5), 1_555_200);
}
