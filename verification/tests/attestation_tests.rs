use anchorkit::contract::AnchorKitContract;
use anchorkit::data::Address;
use anchorkit::digest::MAX_HASH_INPUT;
use anchorkit::env::{Env, Host, Ledger};
use anchorkit::events::Event;
use anchorkit::types::{
    ErrorCode, KycStatus, RequestId, Session, SignatureCheck, TokenCheck, WebhookEvent,
};

fn address(name: &str) -> Address {
    Address { strkey: name.as_bytes().to_vec() }
}

fn bytes(s: &str) -> Vec<u8> {
    s.as_bytes().to_vec()
}

/// A contract at a time, with the administrator "admin" in place and the call
/// authorized on behalf of "admin" and of each of `accounts`.
fn contract_at(timestamp: u64, accounts: &[&str]) -> Env {
    let mut authorized = vec![address("admin")];
    for name in accounts {
        authorized.push(address(name));
    }
    let host = Host {
        authorized,
        signatures: Vec::new(),
        tokens: Vec::new(),
        domains: Vec::new(),
        rate_limits: Vec::new(),
    };
    let mut env = Env::new(Ledger { timestamp, sequence: 1 }, host);
    AnchorKitContract::initialize(&mut env, address("admin")).unwrap();
    env
}

/// Registers an attestor through a token that the host accepts.
fn register(env: &mut Env, name: &str, public_key: [u8; 32]) -> Result<(), ErrorCode> {
    let issuer_key = vec![9u8; 32];
    AnchorKitContract::set_sep10_jwt_verifying_key(env, address("issuer"), issuer_key.clone())?;
    let token = bytes(&format!("token of {}", name));
    env.host.tokens.push(TokenCheck {
        token: token.clone(),
        public_key: issuer_key,
        subject: Some(address(name)),
    });
    AnchorKitContract::register_attestor(
        env,
        address(name),
        token,
        address("issuer"),
        public_key,
    )
}

const SIGNATURE: [u8; 64] = [5; 64];

/// Lets the host accept the signature of an attestor with a key over a hash.
fn accept(env: &mut Env, public_key: [u8; 32], hash: &str) {
    env.host.signatures.push(SignatureCheck {
        public_key,
        message: bytes(hash),
        signature: SIGNATURE.to_vec(),
    });
}

/// A contract with the attestor "issuer", who may submit some more times.
fn with_issuer(timestamp: u64, allowance: u32) -> Env {
    let mut env = contract_at(timestamp, &["issuer"]);
    register(&mut env, "issuer", [7; 32]).unwrap();
    env.allowances.set(address("issuer"), allowance, 0);
    env.events.clear();
    env
}

fn submit(env: &mut Env, timestamp: u64, hash: &str) -> Result<u64, ErrorCode> {
    AnchorKitContract::submit_attestation(
        env,
        address("issuer"),
        address("subject"),
        timestamp,
        bytes(hash),
        SIGNATURE.to_vec(),
    )
}

fn submit_checked(env: &mut Env, hash: &str, require_kyc: bool) -> Result<u64, ErrorCode> {
    AnchorKitContract::submit_attestation_kyc_check(
        env,
        address("issuer"),
        address("subject"),
        9,
        bytes(hash),
        SIGNATURE.to_vec(),
        require_kyc,
    )
}

fn submit_in_session(env: &mut Env, session_id: u64, hash: &str) -> Result<u64, ErrorCode> {
    AnchorKitContract::submit_attestation_with_session(
        env,
        session_id,
        address("issuer"),
        address("subject"),
        9,
        bytes(hash),
        SIGNATURE.to_vec(),
    )
}

#[test]
fn attestation_reads_back_and_is_not_replayed() {
    let mut env = with_issuer(100, 10);
    accept(&mut env, [7; 32], "h0");
    accept(&mut env, [7; 32], "h1");
    assert_eq!(submit(&mut env, 11, "h0"), Ok(0));
    assert_eq!(submit(&mut env, 12, "h1"), Ok(1));
    let a = AnchorKitContract::get_attestation(&env, 1).unwrap();
    assert_eq!(a.id, 1);
    assert_eq!(a.issuer, address("issuer"));
    assert_eq!(a.subject, address("subject"));
    assert_eq!(a.timestamp, 12);
    assert_eq!(a.payload_hash, bytes("h1"));
    assert_eq!(a.signature, SIGNATURE.to_vec());
    assert_eq!(
        AnchorKitContract::get_attestation_by_hash(&env, address("issuer"), bytes("h0")),
        Ok(11)
    );
    assert_eq!(submit(&mut env, 13, "h0"), Err(ErrorCode::ReplayAttack));
    assert_eq!(submit_checked(&mut env, "h0", false), Err(ErrorCode::ReplayAttack));
    assert_eq!(
        AnchorKitContract::get_attestation(&env, 2),
        Err(ErrorCode::AttestationNotFound)
    );
    assert_eq!(
        AnchorKitContract::get_attestation_by_hash(&env, address("other"), bytes("h0")),
        Err(ErrorCode::AttestationNotFound)
    );
    assert_eq!(
        env.events[0],
        Event::AttestationRecorded {
            id: 0,
            subject: address("subject"),
            payload_hash: bytes("h0"),
            timestamp: 11,
        }
    );
    assert_eq!(env.events.len(), 2);
    assert_eq!(env.attestations.used.ttl(&(address("issuer"), bytes("h0"))), 120_960);
}

#[test]
fn plain_submission_uses_two_of_the_allowance() {
    let mut env = with_issuer(100, 3);
    accept(&mut env, [7; 32], "h0");
    accept(&mut env, [7; 32], "h1");
    assert_eq!(submit(&mut env, 11, "h0"), Ok(0));
    assert_eq!(env.allowance(&address("issuer")), 1);
    assert_eq!(submit(&mut env, 0, "h1"), Err(ErrorCode::InvalidTimestamp));
    assert_eq!(submit(&mut env, 12, "h1"), Err(ErrorCode::RateLimitExceeded));
    // A refused call uses nothing up.
    assert_eq!(env.allowance(&address("issuer")), 1);
    env.allowances.set(address("issuer"), 0, 0);
    assert_eq!(submit(&mut env, 0, "h1"), Err(ErrorCode::RateLimitExceeded));
}

#[test]
fn issuers_are_checked_in_order() {
    let mut env = contract_at(100, &[]);
    assert_eq!(submit(&mut env, 1, "h"), Err(ErrorCode::Unauthorized));
    env.host.authorized.push(address("issuer"));
    assert_eq!(submit(&mut env, 1, "h"), Err(ErrorCode::AttestorNotRegistered));
    env.registry.attestors.set(address("issuer"), true, 0);
    assert_eq!(submit(&mut env, 1, "h"), Err(ErrorCode::UnauthorizedAttestor));
    env.registry.public_keys.set(address("issuer"), [7; 32], 0);
    let short = AnchorKitContract::submit_attestation(
        &mut env,
        address("issuer"),
        address("subject"),
        1,
        bytes("h"),
        vec![5; 63],
    );
    assert_eq!(short, Err(ErrorCode::UnauthorizedAttestor));
    assert_eq!(submit(&mut env, 1, "h"), Err(ErrorCode::InvalidSignature));
    accept(&mut env, [8; 32], "h");
    assert_eq!(submit(&mut env, 1, "h"), Err(ErrorCode::InvalidSignature));
    accept(&mut env, [7; 32], "h");
    assert_eq!(submit(&mut env, 1, "h"), Err(ErrorCode::RateLimitExceeded));
    env.allowances.set(address("issuer"), 2, 0);
    assert_eq!(submit(&mut env, 0, "h"), Err(ErrorCode::InvalidTimestamp));
    assert_eq!(submit(&mut env, 1, "h"), Ok(0));
}

#[test]
fn attestation_numbers_do_not_wrap() {
    let mut env = with_issuer(100, 10);
    accept(&mut env, [7; 32], "h");
    env.instance.next_attestation = u64::MAX;
    assert_eq!(submit(&mut env, 1, "h"), Err(ErrorCode::ArithmeticOverflow));
    assert!(!env.attestations.records.has(&u64::MAX));
}

#[test]
fn kyc_status_gates_attestations() {
    let mut env = with_issuer(100, 0);
    for hash in ["h0", "h1", "h2", "h3", "h4"] {
        accept(&mut env, [7; 32], hash);
    }
    let subject = address("subject");
    assert_eq!(submit_checked(&mut env, "h0", true), Err(ErrorCode::KycNotFound));
    assert_eq!(submit_checked(&mut env, "h0", false), Ok(0));
    AnchorKitContract::submit_kyc(&mut env, subject.clone(), bytes("data"), address("issuer"))
        .unwrap();
    assert_eq!(
        AnchorKitContract::get_kyc_status(&env, subject.clone()),
        KycStatus::Pending
    );
    assert_eq!(submit_checked(&mut env, "h1", true), Err(ErrorCode::KycPending));
    let mut record = env.compliance.kyc.get(&subject).unwrap();
    record.expiry = Some(99);
    env.compliance.kyc.set(subject.clone(), record.clone(), 0);
    assert_eq!(
        AnchorKitContract::get_kyc_status(&env, subject.clone()),
        KycStatus::Expired
    );
    assert_eq!(submit_checked(&mut env, "h1", true), Err(ErrorCode::ComplianceNotMet));
    record.expiry = Some(100);
    env.compliance.kyc.set(subject.clone(), record, 0);
    AnchorKitContract::approve_kyc(&mut env, subject.clone()).unwrap();
    assert_eq!(submit_checked(&mut env, "h1", true), Ok(1));
    assert_eq!(
        env.events.last(),
        Some(&Event::Webhook {
            notice: WebhookEvent {
                event_type: bytes("attestation_submitted"),
                transaction_id: 1,
                timestamp: 9,
                payload_hash: bytes("h1"),
            }
        })
    );
}

#[test]
fn rejected_subjects_are_not_attested() {
    let mut env = with_issuer(100, 0);
    accept(&mut env, [7; 32], "h0");
    let subject = address("subject");
    AnchorKitContract::submit_kyc(&mut env, subject.clone(), bytes("data"), address("issuer"))
        .unwrap();
    AnchorKitContract::reject_kyc(&mut env, subject, bytes("reason")).unwrap();
    assert_eq!(submit_checked(&mut env, "h0", true), Err(ErrorCode::KycRejected));
}

#[test]
fn traced_submission_leaves_a_span_and_an_operation() {
    let mut env = with_issuer(100, 1);
    accept(&mut env, [7; 32], "h0");
    accept(&mut env, [7; 32], "h1");
    let request_id = RequestId { id: bytes("req"), created_at: 90 };
    let r = AnchorKitContract::submit_with_request_id(
        &mut env,
        request_id.clone(),
        address("issuer"),
        address("subject"),
        9,
        bytes("h0"),
        SIGNATURE.to_vec(),
    );
    assert_eq!(r, Ok(0));
    assert_eq!(env.allowance(&address("issuer")), 0);
    let span = AnchorKitContract::get_tracing_span(&env, bytes("req")).unwrap();
    assert_eq!(span.request_id, request_id);
    assert_eq!(span.operation, bytes("submit_attestation"));
    assert_eq!(span.actor, address("issuer"));
    assert_eq!((span.started_at, span.completed_at), (100, 100));
    assert_eq!(span.status, bytes("success"));
    assert_eq!(span.parent_request_id_bytes, Vec::<u8>::new());
    assert_eq!(span.span_index, 0);
    let context = AnchorKitContract::get_request_context(&env, bytes("req")).unwrap();
    assert_eq!(context.operation_chain, vec![bytes("submit_attestation")]);
    assert_eq!(env.events.len(), 2);
    assert_eq!(env.events[0].topic(), ("attest", "recorded"));
    assert_eq!(env.events[1].topic(), ("webhook", "event"));
    let again = AnchorKitContract::submit_with_request_id(
        &mut env,
        request_id,
        address("issuer"),
        address("subject"),
        9,
        bytes("h1"),
        SIGNATURE.to_vec(),
    );
    assert_eq!(again, Err(ErrorCode::RateLimitExceeded));
}

#[test]
fn session_submission_is_logged() {
    let mut env = with_issuer(100, 5);
    accept(&mut env, [7; 32], "h0");
    accept(&mut env, [7; 32], "h1");
    let id = AnchorKitContract::create_session(&mut env, address("issuer")).unwrap();
    assert_eq!(submit_in_session(&mut env, id, "h0"), Ok(0));
    assert_eq!(submit_in_session(&mut env, id, "h1"), Ok(1));
    let session: Session = AnchorKitContract::get_session(&env, id).unwrap();
    assert_eq!(session.nonce, 2);
    assert_eq!(AnchorKitContract::get_session_operation_count(&env, id), 2);
    let log = AnchorKitContract::get_audit_log(&env, 1).unwrap();
    assert_eq!(log.actor, address("issuer"));
    assert_eq!(log.operation.operation_type, bytes("attest"));
    assert_eq!(log.operation.operation_index, 1);
    assert_eq!(log.operation.result_data, 1);
    assert_eq!(log.operation.status, bytes("success"));
    assert_eq!(env.allowance(&address("issuer")), 3);
    assert_eq!(
        env.events.last(),
        Some(&Event::AuditLogged {
            log_id: 1,
            session_id: id,
            operation_index: 1,
            operation_type: bytes("attest"),
            status: bytes("success"),
        })
    );
    assert_eq!(submit_in_session(&mut env, id, "h0"), Err(ErrorCode::ReplayAttack));
    assert_eq!(submit_in_session(&mut env, 7, "h0"), Err(ErrorCode::AttestationNotFound));
}

#[test]
fn payload_hash_is_compared() {
    let mut env = with_issuer(100, 10);
    let hash =
        AnchorKitContract::compute_payload_hash(&env, address("GSUBJECT"), 7, vec![1, 2, 3]);
    env.host.signatures.push(SignatureCheck {
        public_key: [7; 32],
        message: hash.to_vec(),
        signature: SIGNATURE.to_vec(),
    });
    accept(&mut env, [7; 32], "short");
    let id = AnchorKitContract::submit_attestation(
        &mut env,
        address("issuer"),
        address("subject"),
        7,
        hash.to_vec(),
        SIGNATURE.to_vec(),
    )
    .unwrap();
    assert_eq!(AnchorKitContract::verify_payload_hash(&env, id, hash), Ok(true));
    let mut wrong = hash;
    wrong[31] ^= 1;
    assert_eq!(AnchorKitContract::verify_payload_hash(&env, id, wrong), Ok(false));
    assert_eq!(
        AnchorKitContract::verify_payload_hash(&env, 99, hash),
        Err(ErrorCode::AttestationNotFound)
    );
    let short = submit(&mut env, 8, "short").unwrap();
    assert_eq!(
        AnchorKitContract::verify_payload_hash(&env, short, hash),
        Err(ErrorCode::ValidationError)
    );
}

#[test]
fn payload_hash_is_the_digest_of_subject_time_and_data() {
    let env = contract_at(1, &[]);
    let hash =
        AnchorKitContract::compute_payload_hash(&env, address("GSUBJECT"), 7, vec![1, 2, 3]);
    let expected: [u8; 32] = [
        0x40, 0x53, 0xec, 0x9e, 0xc5, 0x58, 0x04, 0x85, 0x0c, 0x75, 0x9f, 0x99, 0x73, 0x31, 0x79,
        0x3e, 0xd3, 0xff, 0x25, 0x75, 0xa4, 0x61, 0x0a, 0xbb, 0xfe, 0x25, 0x5a, 0x7b, 0x6f, 0x17,
        0x91, 0x91,
    ];
    assert_eq!(hash, expected);
    assert_eq!(
        AnchorKitContract::payload_hash_preimage(&address("GS"), 0x0102, &vec![9]),
        vec![b'G', b'S', 0, 0, 0, 0, 0, 0, 1, 2, 9]
    );
}

#[test]
fn longest_payload_can_be_hashed() {
    let env = contract_at(1, &[]);
    let subject = address("GSUBJECT");
    let data = vec![0u8; MAX_HASH_INPUT - 16];
    let hash = AnchorKitContract::compute_payload_hash(&env, subject.clone(), 7, data.clone());
    assert_ne!(hash, AnchorKitContract::compute_payload_hash(&env, subject, 8, data));
}

#[test]
fn request_id_is_the_head_of_a_digest() {
    let mut env = contract_at(1_700_000_000, &[]);
    env.ledger.sequence = 42;
    let id = AnchorKitContract::generate_request_id(&env);
    assert_eq!(
        id,
        RequestId {
            id: vec![
                0xad, 0x0d, 0x31, 0x56, 0xaf, 0xc9, 0x89, 0xbb, 0xcb, 0xf6, 0xb2, 0xd0, 0x10, 0xb1,
                0x85, 0x61,
            ],
            created_at: 1_700_000_000,
        }
    );
    assert_eq!(AnchorKitContract::generate_request_id(&env), id);
    env.ledger.sequence = 43;
    assert_ne!(AnchorKitContract::generate_request_id(&env).id, id.id);
}

#[test]
fn request_id_parts_are_exact() {
    assert_eq!(
        AnchorKitContract::request_id_preimage(0x0102030405060708, 0x090a0b0c),
        vec![1, 2, 3, 4, 5, 6, 7, 8, 9, 10, 11, 12]
    );
    let mut digest = [0u8; 32];
    for (i, b) in digest.iter_mut().enumerate() {
        *b = i as u8;
    }
    let id = AnchorKitContract::request_id_from_digest(&digest, 5);
    assert_eq!(id.id, vec![0, 1, 2, 3, 4, 5, 6, 7, 8, 9, 10, 11, 12, 13, 14, 15]);
    assert_eq!(id.created_at, 5);
}
