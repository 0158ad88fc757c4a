//! Attestations: submission in its four forms, and retrieval.

use crate::contract::{carried_out, first_of, unless, AnchorKitContract};
use crate::data::{bytes_of, holds, text, Address, Bytes, Duplicate};
use crate::env::{kept_alive, Env, State};
use crate::events::{Event, EventView};
use crate::sessions::logged_anew;
use crate::stores::{AttestationsState, InstanceState, SessionsState};
use crate::table::{put, read, ttl_of, written};
use crate::types::{
    Attestation, AttestationView, ErrorCode, KycStatus, RequestId, RequestIdView, Session,
    SessionView, SignatureCheck, SignatureCheckView, WebhookEvent, WebhookEventView, PERSISTENT_TTL,
    REPLAY_TTL,
};
use vstd::prelude::*;

verus! {

impl State {
    /// Why a signature is refused: the issuer has no key, the signature has not
    /// the length of an Ed25519 signature, or it does not hold.
    pub open spec fn signature_refusal(
        self,
        issuer: Seq<u8>,
        payload_hash: Seq<u8>,
        signature: Seq<u8>,
    ) -> Option<ErrorCode> {
        match read(self.registry.public_keys, issuer) {
            None => Some(ErrorCode::UnauthorizedAttestor),
            Some(public_key) => first_of(
                unless(signature.len() == 64, ErrorCode::UnauthorizedAttestor),
                unless(
                    self.host.signatures.contains(
                        SignatureCheckView { public_key, message: payload_hash, signature },
                    ),
                    ErrorCode::InvalidSignature,
                ),
            ),
        }
    }

    /// Why an issuer may not attest: it is not registered, or its signature is
    /// refused.
    pub open spec fn issuer_refusal(
        self,
        issuer: Seq<u8>,
        payload_hash: Seq<u8>,
        signature: Seq<u8>,
    ) -> Option<ErrorCode> {
        first_of(
            unless(self.registered(issuer), ErrorCode::AttestorNotRegistered),
            self.signature_refusal(issuer, payload_hash, signature),
        )
    }

    /// Whether `issuer` has attested `payload_hash` before.
    pub open spec fn attested(self, issuer: Seq<u8>, payload_hash: Seq<u8>) -> bool {
        self.attestations.used.dom().contains((issuer, payload_hash))
    }

    /// Why a payload cannot be attested once more.
    pub open spec fn record_refusal(
        self,
        issuer: Seq<u8>,
        payload_hash: Seq<u8>,
    ) -> Option<ErrorCode> {
        first_of(
            unless(!self.attested(issuer, payload_hash), ErrorCode::ReplayAttack),
            unless(self.instance.next_attestation < u64::MAX, ErrorCode::ArithmeticOverflow),
        )
    }

    /// The state with a new attestation, and its payload marked as attested.
    pub open spec fn record_attestation(
        self,
        issuer: Seq<u8>,
        subject: Seq<u8>,
        timestamp: u64,
        payload_hash: Seq<u8>,
        signature: Seq<u8>,
    ) -> State {
        let id = self.instance.next_attestation;
        State {
            instance: InstanceState {
                next_attestation: (id + 1) as u64,
                ..self.instance
            }.extended(),
            attestations: AttestationsState {
                records: put(
                    self.attestations.records,
                    id,
                    AttestationView { id, issuer, subject, timestamp, payload_hash, signature },
                    PERSISTENT_TTL,
                ),
                used: put(
                    self.attestations.used,
                    (issuer, payload_hash),
                    timestamp,
                    REPLAY_TTL,
                ),
            },
            ..self
        }
    }

    /// What is announced about the next attestation.
    pub open spec fn attestation_notice(
        self,
        subject: Seq<u8>,
        timestamp: u64,
        payload_hash: Seq<u8>,
    ) -> EventView {
        EventView::AttestationRecorded {
            id: self.instance.next_attestation,
            subject,
            payload_hash,
            timestamp,
        }
    }

    /// What webhooks are told about the next attestation.
    pub open spec fn attestation_webhook(self, timestamp: u64, payload_hash: Seq<u8>) -> EventView {
        EventView::Webhook {
            notice: WebhookEventView {
                event_type: bytes_of("attestation_submitted"),
                transaction_id: self.instance.next_attestation,
                timestamp,
                payload_hash,
            },
        }
    }

    /// Why `submit_attestation` is refused. The rate limiter is consulted twice:
    /// before the timestamp is looked at, and again after.
    pub open spec fn submit_refusal(
        self,
        issuer: Seq<u8>,
        timestamp: u64,
        payload_hash: Seq<u8>,
        signature: Seq<u8>,
    ) -> Option<ErrorCode> {
        first_of(
            unless(self.authorized(issuer), ErrorCode::Unauthorized),
            first_of(
                self.issuer_refusal(issuer, payload_hash, signature),
                first_of(
                    unless(self.allowance(issuer) >= 1, ErrorCode::RateLimitExceeded),
                    first_of(
                        unless(timestamp != 0, ErrorCode::InvalidTimestamp),
                        first_of(
                            unless(self.allowance(issuer) >= 2, ErrorCode::RateLimitExceeded),
                            self.record_refusal(issuer, payload_hash),
                        ),
                    ),
                ),
            ),
        )
    }

    /// The state after `submit_attestation`.
    pub open spec fn submit_effect(
        self,
        issuer: Seq<u8>,
        subject: Seq<u8>,
        timestamp: u64,
        payload_hash: Seq<u8>,
        signature: Seq<u8>,
    ) -> State {
        self.spend(issuer, 2).record_attestation(
            issuer,
            subject,
            timestamp,
            payload_hash,
            signature,
        ).announce(self.attestation_notice(subject, timestamp, payload_hash))
    }

    /// Why a subject's KYC status stands in the way of an attestation.
    pub open spec fn kyc_refusal(self, subject: Seq<u8>) -> Option<ErrorCode> {
        match self.kyc_status(subject) {
            KycStatus::Approved => None,
            KycStatus::Pending => Some(ErrorCode::KycPending),
            KycStatus::Rejected => Some(ErrorCode::KycRejected),
            KycStatus::Expired => Some(ErrorCode::ComplianceNotMet),
            KycStatus::NotSubmitted => Some(ErrorCode::KycNotFound),
        }
    }

    /// Why `submit_attestation_kyc_check` is refused. The rate limiter is not
    /// consulted.
    pub open spec fn submit_kyc_checked_refusal(
        self,
        issuer: Seq<u8>,
        subject: Seq<u8>,
        timestamp: u64,
        payload_hash: Seq<u8>,
        signature: Seq<u8>,
        require_kyc: bool,
    ) -> Option<ErrorCode> {
        first_of(
            unless(self.authorized(issuer), ErrorCode::Unauthorized),
            first_of(
                self.issuer_refusal(issuer, payload_hash, signature),
                first_of(
                    unless(timestamp != 0, ErrorCode::InvalidTimestamp),
                    first_of(
                        if require_kyc {
                            self.kyc_refusal(subject)
                        } else {
                            None
                        },
                        self.record_refusal(issuer, payload_hash),
                    ),
                ),
            ),
        )
    }

    /// The state after `submit_attestation_kyc_check`.
    pub open spec fn submit_kyc_checked_effect(
        self,
        issuer: Seq<u8>,
        subject: Seq<u8>,
        timestamp: u64,
        payload_hash: Seq<u8>,
        signature: Seq<u8>,
    ) -> State {
        self.record_attestation(issuer, subject, timestamp, payload_hash, signature).announce(
            self.attestation_notice(subject, timestamp, payload_hash),
        ).announce(self.attestation_webhook(timestamp, payload_hash))
    }

    /// Why an attestation is refused that consults the rate limiter once, the
    /// issuer's authorization aside.
    pub open spec fn limited_refusal(
        self,
        issuer: Seq<u8>,
        timestamp: u64,
        payload_hash: Seq<u8>,
        signature: Seq<u8>,
    ) -> Option<ErrorCode> {
        first_of(
            self.issuer_refusal(issuer, payload_hash, signature),
            first_of(
                unless(self.allowance(issuer) >= 1, ErrorCode::RateLimitExceeded),
                first_of(
                    unless(timestamp != 0, ErrorCode::InvalidTimestamp),
                    self.record_refusal(issuer, payload_hash),
                ),
            ),
        )
    }

    /// Why `submit_with_request_id` is refused.
    pub open spec fn submit_traced_refusal(
        self,
        issuer: Seq<u8>,
        timestamp: u64,
        payload_hash: Seq<u8>,
        signature: Seq<u8>,
    ) -> Option<ErrorCode> {
        first_of(
            unless(self.authorized(issuer), ErrorCode::Unauthorized),
            self.limited_refusal(issuer, timestamp, payload_hash, signature),
        )
    }

    /// The state after `submit_with_request_id`.
    pub open spec fn submit_traced_effect(
        self,
        request_id: RequestIdView,
        issuer: Seq<u8>,
        subject: Seq<u8>,
        timestamp: u64,
        payload_hash: Seq<u8>,
        signature: Seq<u8>,
    ) -> State {
        self.spend(issuer, 1).record_attestation(
            issuer,
            subject,
            timestamp,
            payload_hash,
            signature,
        ).store_span(
            request_id,
            bytes_of("submit_attestation"),
            issuer,
            Seq::empty(),
            0,
        ).append_operation(request_id.id, bytes_of("submit_attestation")).announce(
            self.attestation_notice(subject, timestamp, payload_hash),
        ).announce(self.attestation_webhook(timestamp, payload_hash))
    }

    /// Why `submit_attestation_with_session` is refused.
    pub open spec fn submit_in_session_refusal(
        self,
        session_id: u64,
        issuer: Seq<u8>,
        timestamp: u64,
        payload_hash: Seq<u8>,
        signature: Seq<u8>,
    ) -> Option<ErrorCode> {
        first_of(
            unless(self.authorized(issuer), ErrorCode::Unauthorized),
            first_of(
                self.session_refusal(session_id),
                first_of(
                    self.limited_refusal(issuer, timestamp, payload_hash, signature),
                    first_of(
                        unless(
                            (read(self.sessions.sessions, session_id)->0).nonce < u64::MAX,
                            ErrorCode::ArithmeticOverflow,
                        ),
                        self.log_refusal(session_id),
                    ),
                ),
            ),
        )
    }

    /// The state after `submit_attestation_with_session`.
    pub open spec fn submit_in_session_effect(
        self,
        session_id: u64,
        issuer: Seq<u8>,
        subject: Seq<u8>,
        timestamp: u64,
        payload_hash: Seq<u8>,
        signature: Seq<u8>,
    ) -> State {
        let session = read(self.sessions.sessions, session_id)->0;
        self.spend(issuer, 1).record_attestation(
            issuer,
            subject,
            timestamp,
            payload_hash,
            signature,
        ).store_session(
            session_id,
            SessionView { nonce: (session.nonce + 1) as u64, ..session },
            PERSISTENT_TTL,
        ).log_operation(
            session_id,
            issuer,
            bytes_of("attest"),
            self.instance.next_attestation,
        ).announce(self.attestation_notice(subject, timestamp, payload_hash)).announce(
            self.log_notice(session_id, bytes_of("attest")),
        )
    }

    /// Whether the payload hash of an attestation is `expected`, for an
    /// attestation whose payload hash has the length of a digest.
    pub open spec fn payload_hash_matches(self, id: u64, expected: Seq<u8>) -> Result<
        bool,
        ErrorCode,
    > {
        match read(self.attestations.records, id) {
            None => Err(ErrorCode::AttestationNotFound),
            Some(attestation) => if attestation.payload_hash.len() != 32 {
                Err(ErrorCode::ValidationError)
            } else {
                Ok(attestation.payload_hash == expected)
            },
        }
    }
}

impl AnchorKitContract {
    /// Refuses a signature of `issuer` over `payload_hash` that does not hold.
    fn verify_attestation_signature(
        env: &Env,
        issuer: &Address,
        payload_hash: &Bytes,
        signature: &Bytes,
    ) -> (r: Result<(), ErrorCode>)
        ensures
            match r {
                Ok(_) => env@.signature_refusal(issuer@, payload_hash@, signature@) is None,
                Err(e) => env@.signature_refusal(issuer@, payload_hash@, signature@) == Some(e),
            },
    {
        match env.registry.public_keys.get(issuer) {
            None => Err(ErrorCode::UnauthorizedAttestor),
            Some(public_key) => {
                if signature.len() != 64 {
                    return Err(ErrorCode::UnauthorizedAttestor);
                }
                let check = SignatureCheck {
                    public_key,
                    message: payload_hash.dup(),
                    signature: signature.dup(),
                };
                if holds(&env.host.signatures, &check) {
                    Ok(())
                } else {
                    Err(ErrorCode::InvalidSignature)
                }
            },
        }
    }

    /// Refuses an issuer that is not registered or whose signature does not
    /// hold.
    fn check_issuer(
        env: &Env,
        issuer: &Address,
        payload_hash: &Bytes,
        signature: &Bytes,
    ) -> (r: Result<(), ErrorCode>)
        ensures
            match r {
                Ok(_) => env@.issuer_refusal(issuer@, payload_hash@, signature@) is None,
                Err(e) => env@.issuer_refusal(issuer@, payload_hash@, signature@) == Some(e),
            },
    {
        match Self::check_attestor(env, issuer) {
            Ok(_) => Self::verify_attestation_signature(env, issuer, payload_hash, signature),
            Err(e) => Err(e),
        }
    }

    /// Refuses a payload that `issuer` has attested before.
    fn check_record(env: &Env, issuer: &Address, payload_hash: &Bytes) -> (r: Result<
        (),
        ErrorCode,
    >)
        ensures
            match r {
                Ok(_) => env@.record_refusal(issuer@, payload_hash@) is None,
                Err(e) => env@.record_refusal(issuer@, payload_hash@) == Some(e),
            },
    {
        if env.attestations.used.has(&(issuer.dup(), payload_hash.dup())) {
            return Err(ErrorCode::ReplayAttack);
        }
        if env.instance.next_attestation == u64::MAX {
            return Err(ErrorCode::ArithmeticOverflow);
        }
        Ok(())
    }

    /// Refuses an attestation that consults the rate limiter once.
    fn check_limited(
        env: &Env,
        issuer: &Address,
        timestamp: u64,
        payload_hash: &Bytes,
        signature: &Bytes,
    ) -> (r: Result<(), ErrorCode>)
        ensures
            match r {
                Ok(_) => env@.limited_refusal(issuer@, timestamp, payload_hash@, signature@) is None,
                Err(e) => env@.limited_refusal(issuer@, timestamp, payload_hash@, signature@)
                    == Some(e),
            },
    {
        match Self::check_issuer(env, issuer, payload_hash, signature) {
            Ok(_) => {},
            Err(e) => return Err(e),
        }
        if env.allowance(issuer) == 0 {
            return Err(ErrorCode::RateLimitExceeded);
        }
        if timestamp == 0 {
            return Err(ErrorCode::InvalidTimestamp);
        }
        Self::check_record(env, issuer, payload_hash)
    }

    /// Takes the number of the next attestation.
    fn next_attestation_id(env: &mut Env) -> (r: u64)
        requires
            old(env)@.instance.next_attestation < u64::MAX,
        ensures
            r == old(env)@.instance.next_attestation,
            final(env)@ == (State {
                instance: InstanceState {
                    next_attestation: (r + 1) as u64,
                    ..old(env)@.instance
                }.extended(),
                ..old(env)@
            }),
    {
        let id: u64 = env.instance.next_attestation;
        env.instance.next_attestation = id + 1;
        env.instance.extend();
        id
    }

    /// Stores an attestation and marks its payload as attested. Returns the
    /// number of the attestation.
    fn store_attestation(
        env: &mut Env,
        issuer: Address,
        subject: Address,
        timestamp: u64,
        payload_hash: Bytes,
        signature: Bytes,
    ) -> (r: u64)
        requires
            old(env)@.instance.next_attestation < u64::MAX,
        ensures
            r == old(env)@.instance.next_attestation,
            final(env)@ == old(env)@.record_attestation(
                issuer@,
                subject@,
                timestamp,
                payload_hash@,
                signature@,
            ),
    {
        let id: u64 = Self::next_attestation_id(env);
        let attestation = Attestation {
            id,
            issuer: issuer.dup(),
            subject,
            timestamp,
            payload_hash: payload_hash.dup(),
            signature,
        };
        env.attestations.records.set(id, attestation, PERSISTENT_TTL);
        env.attestations.used.set((issuer, payload_hash), timestamp, REPLAY_TTL);
        id
    }

    /// Tells webhooks about an attestation.
    fn announce_webhook(env: &mut Env, id: u64, timestamp: u64, payload_hash: Bytes)
        ensures
            final(env)@ == old(env)@.announce(
                EventView::Webhook {
                    notice: WebhookEventView {
                        event_type: bytes_of("attestation_submitted"),
                        transaction_id: id,
                        timestamp,
                        payload_hash: payload_hash@,
                    },
                },
            ),
    {
        env.announce(
            Event::Webhook {
                notice: WebhookEvent {
                    event_type: text("attestation_submitted"),
                    transaction_id: id,
                    timestamp,
                    payload_hash,
                },
            },
        );
    }

    /// Records that `issuer`, a registered attestor who must authorize and sign
    /// it, attests `payload_hash` about `subject`. Returns the number of the
    /// attestation. An issuer attests a payload once.
    pub fn submit_attestation(
        env: &mut Env,
        issuer: Address,
        subject: Address,
        timestamp: u64,
        payload_hash: Bytes,
        signature: Bytes,
    ) -> (r: Result<u64, ErrorCode>)
        ensures
            carried_out(
                r,
                old(env)@,
                final(env)@,
                old(env)@.submit_refusal(issuer@, timestamp, payload_hash@, signature@),
                old(env)@.submit_effect(
                    issuer@,
                    subject@,
                    timestamp,
                    payload_hash@,
                    signature@,
                ),
            ),
            r matches Ok(id) ==> id == old(env)@.instance.next_attestation,
    {
        if !env.authorized(&issuer) {
            return Err(ErrorCode::Unauthorized);
        }
        match Self::check_issuer(env, &issuer, &payload_hash, &signature) {
            Ok(_) => {},
            Err(e) => return Err(e),
        }
        let allowance: u32 = env.allowance(&issuer);
        if allowance == 0 {
            return Err(ErrorCode::RateLimitExceeded);
        }
        if timestamp == 0 {
            return Err(ErrorCode::InvalidTimestamp);
        }
        if allowance == 1 {
            return Err(ErrorCode::RateLimitExceeded);
        }
        match Self::check_record(env, &issuer, &payload_hash) {
            Ok(_) => {},
            Err(e) => return Err(e),
        }
        env.spend(&issuer, 2);
        let id: u64 = Self::store_attestation(
            env,
            issuer,
            subject.dup(),
            timestamp,
            payload_hash.dup(),
            signature,
        );
        env.announce(Event::AttestationRecorded { id, subject, payload_hash, timestamp });
        Ok(id)
    }

    /// Records an attestation as `submit_attestation` does, but without the rate
    /// limiter, and with `require_kyc` only about a subject whose KYC review is
    /// approved.
    pub fn submit_attestation_kyc_check(
        env: &mut Env,
        issuer: Address,
        subject: Address,
        timestamp: u64,
        payload_hash: Bytes,
        signature: Bytes,
        require_kyc: bool,
    ) -> (r: Result<u64, ErrorCode>)
        ensures
            carried_out(
                r,
                old(env)@,
                final(env)@,
                old(env)@.submit_kyc_checked_refusal(
                    issuer@,
                    subject@,
                    timestamp,
                    payload_hash@,
                    signature@,
                    require_kyc,
                ),
                old(env)@.submit_kyc_checked_effect(
                    issuer@,
                    subject@,
                    timestamp,
                    payload_hash@,
                    signature@,
                ),
            ),
            r matches Ok(id) ==> id == old(env)@.instance.next_attestation,
    {
        if !env.authorized(&issuer) {
            return Err(ErrorCode::Unauthorized);
        }
        match Self::check_issuer(env, &issuer, &payload_hash, &signature) {
            Ok(_) => {},
            Err(e) => return Err(e),
        }
        if timestamp == 0 {
            return Err(ErrorCode::InvalidTimestamp);
        }
        if require_kyc {
            match Self::get_kyc_status(env, subject.dup()) {
                KycStatus::Approved => {},
                KycStatus::Pending => return Err(ErrorCode::KycPending),
                KycStatus::Rejected => return Err(ErrorCode::KycRejected),
                KycStatus::Expired => return Err(ErrorCode::ComplianceNotMet),
                KycStatus::NotSubmitted => return Err(ErrorCode::KycNotFound),
            }
        }
        match Self::check_record(env, &issuer, &payload_hash) {
            Ok(_) => {},
            Err(e) => return Err(e),
        }
        let id: u64 = Self::store_attestation(
            env,
            issuer,
            subject.dup(),
            timestamp,
            payload_hash.dup(),
            signature,
        );
        env.announce(
            Event::AttestationRecorded { id, subject, payload_hash: payload_hash.dup(), timestamp },
        );
        Self::announce_webhook(env, id, timestamp, payload_hash);
        Ok(id)
    }

    /// Records an attestation under a request number: a root span is stored for
    /// the request, and the operation is added to its context.
    pub fn submit_with_request_id(
        env: &mut Env,
        request_id: RequestId,
        issuer: Address,
        subject: Address,
        timestamp: u64,
        payload_hash: Bytes,
        signature: Bytes,
    ) -> (r: Result<u64, ErrorCode>)
        ensures
            carried_out(
                r,
                old(env)@,
                final(env)@,
                old(env)@.submit_traced_refusal(issuer@, timestamp, payload_hash@, signature@),
                old(env)@.submit_traced_effect(
                    request_id@,
                    issuer@,
                    subject@,
                    timestamp,
                    payload_hash@,
                    signature@,
                ),
            ),
            r matches Ok(id) ==> id == old(env)@.instance.next_attestation,
    {
        if !env.authorized(&issuer) {
            return Err(ErrorCode::Unauthorized);
        }
        match Self::check_limited(env, &issuer, timestamp, &payload_hash, &signature) {
            Ok(_) => {},
            Err(e) => return Err(e),
        }
        env.spend(&issuer, 1);
        let id: u64 = Self::store_attestation(
            env,
            issuer.dup(),
            subject.dup(),
            timestamp,
            payload_hash.dup(),
            signature,
        );
        Self::store_span(env, &request_id, text("submit_attestation"), issuer);
        Self::append_operation(env, request_id.id, text("submit_attestation"));
        env.announce(
            Event::AttestationRecorded { id, subject, payload_hash: payload_hash.dup(), timestamp },
        );
        Self::announce_webhook(env, id, timestamp, payload_hash);
        Ok(id)
    }

    /// Records an attestation as an operation of an open session.
    pub fn submit_attestation_with_session(
        env: &mut Env,
        session_id: u64,
        issuer: Address,
        subject: Address,
        timestamp: u64,
        payload_hash: Bytes,
        signature: Bytes,
    ) -> (r: Result<u64, ErrorCode>)
        ensures
            carried_out(
                r,
                old(env)@,
                final(env)@,
                old(env)@.submit_in_session_refusal(
                    session_id,
                    issuer@,
                    timestamp,
                    payload_hash@,
                    signature@,
                ),
                old(env)@.submit_in_session_effect(
                    session_id,
                    issuer@,
                    subject@,
                    timestamp,
                    payload_hash@,
                    signature@,
                ),
            ),
            r matches Ok(id) ==> id == old(env)@.instance.next_attestation,
    {
        if !env.authorized(&issuer) {
            return Err(ErrorCode::Unauthorized);
        }
        let mut session: Session = match Self::require_session_open(env, session_id) {
            Ok(session) => session,
            Err(e) => return Err(e),
        };
        match Self::check_limited(env, &issuer, timestamp, &payload_hash, &signature) {
            Ok(_) => {},
            Err(e) => return Err(e),
        }
        if session.nonce == u64::MAX {
            return Err(ErrorCode::ArithmeticOverflow);
        }
        match Self::check_log(env, session_id) {
            Ok(_) => {},
            Err(e) => return Err(e),
        }
        env.spend(&issuer, 1);
        let id: u64 = Self::store_attestation(
            env,
            issuer.dup(),
            subject.dup(),
            timestamp,
            payload_hash.dup(),
            signature,
        );
        session.nonce = session.nonce + 1;
        env.sessions.sessions.set(session_id, session, PERSISTENT_TTL);
        let notice = Self::log_operation(env, session_id, issuer, text("attest"), id);
        env.announce(Event::AttestationRecorded { id, subject, payload_hash, timestamp });
        env.announce(notice);
        Ok(id)
    }

    /// An attestation.
    pub fn get_attestation(env: &Env, id: u64) -> (r: Result<Attestation, ErrorCode>)
        ensures
            match r {
                Ok(attestation) => read(env@.attestations.records, id) == Some(attestation@),
                Err(e) => read(env@.attestations.records, id) is None && e
                    == ErrorCode::AttestationNotFound,
            },
    {
        match env.attestations.records.get(&id) {
            Some(attestation) => Ok(attestation),
            None => Err(ErrorCode::AttestationNotFound),
        }
    }

    /// The timestamp under which `issuer` attested `payload_hash`.
    pub fn get_attestation_by_hash(env: &Env, issuer: Address, payload_hash: Bytes) -> (r: Result<
        u64,
        ErrorCode,
    >)
        ensures
            match r {
                Ok(timestamp) => read(env@.attestations.used, (issuer@, payload_hash@)) == Some(
                    timestamp,
                ),
                Err(e) => !env@.attested(issuer@, payload_hash@) && e
                    == ErrorCode::AttestationNotFound,
            },
    {
        match env.attestations.used.get(&(issuer, payload_hash)) {
            Some(timestamp) => Ok(timestamp),
            None => Err(ErrorCode::AttestationNotFound),
        }
    }

    /// Whether the payload hash of an attestation is `expected_hash`.
    pub fn verify_payload_hash(env: &Env, attestation_id: u64, expected_hash: [u8; 32]) -> (r:
        Result<bool, ErrorCode>)
        ensures
            r == env@.payload_hash_matches(attestation_id, expected_hash@),
            r matches Ok(same) ==> {
                &&& read(env@.attestations.records, attestation_id) matches Some(attestation)
                &&& same <==> attestation.payload_hash == expected_hash@
            },
    {
        match env.attestations.records.get(&attestation_id) {
            None => Err(ErrorCode::AttestationNotFound),
            Some(attestation) => {
                if attestation.payload_hash.len() != 32 {
                    return Err(ErrorCode::ValidationError);
                }
                Ok(same_digest(&attestation.payload_hash, &expected_hash))
            },
        }
    }
}

/// Whether bytes are those of a digest.
fn same_digest(bytes: &Bytes, digest: &[u8; 32]) -> (r: bool)
    ensures
        r == (bytes@ == digest@),
{
    if bytes.len() != 32 {
        return false;
    }
    let mut i: usize = 0;
    while i < 32
        invariant
            i <= 32,
            bytes@.len() == 32,
            forall|j: int| 0 <= j < i ==> bytes@[j] == digest@[j],
        decreases 32 - i,
    {
        if bytes[i] != digest[i] {
            assert(bytes@[i as int] != digest@[i as int]);
            return false;
        }
        i = i + 1;
    }
    assert(bytes@ =~= digest@);
    true
}

/// A submitted attestation reads back under the number that the submission
/// returned, its payload is marked with its timestamp, and the next attestation
/// gets the next number. The mark is kept for at least [`REPLAY_TTL`] ledgers. This
/// holds for each of the four forms of submission.
pub proof fn attestation_reads_back(
    s: State,
    request_id: RequestIdView,
    session_id: u64,
    issuer: Seq<u8>,
    subject: Seq<u8>,
    timestamp: u64,
    payload_hash: Seq<u8>,
    signature: Seq<u8>,
)
    requires
        s.record_refusal(issuer, payload_hash) is None,
    ensures
        ({
            let id = s.instance.next_attestation;
            let attestation = AttestationView {
                id,
                issuer,
                subject,
                timestamp,
                payload_hash,
                signature,
            };
            let stored = |t: State|
                {
                    &&& read(t.attestations.records, id) == Some(attestation)
                    &&& read(t.attestations.used, (issuer, payload_hash)) == Some(timestamp)
                    &&& ttl_of(t.attestations.used, (issuer, payload_hash)) >= REPLAY_TTL
                    &&& t.instance.next_attestation == id + 1
                };
            &&& stored(s.submit_effect(issuer, subject, timestamp, payload_hash, signature))
            &&& stored(
                s.submit_kyc_checked_effect(issuer, subject, timestamp, payload_hash, signature),
            )
            &&& stored(
                s.submit_traced_effect(
                    request_id,
                    issuer,
                    subject,
                    timestamp,
                    payload_hash,
                    signature,
                ),
            )
            &&& stored(
                s.submit_in_session_effect(
                    session_id,
                    issuer,
                    subject,
                    timestamp,
                    payload_hash,
                    signature,
                ),
            )
        }),
{
}

/// A submission uses up the allowance of its issuer, and of nobody else: two by
/// the plain form, one under a request number or in a session, none with the
/// KYC check.
pub proof fn submissions_spend_allowance(
    s: State,
    request_id: RequestIdView,
    session_id: u64,
    issuer: Seq<u8>,
    subject: Seq<u8>,
    timestamp: u64,
    payload_hash: Seq<u8>,
    signature: Seq<u8>,
    other: Seq<u8>,
)
    requires
        s.allowance(issuer) >= 2,
        other != issuer,
    ensures
        ({
            let plain = s.submit_effect(issuer, subject, timestamp, payload_hash, signature);
            let checked = s.submit_kyc_checked_effect(
                issuer,
                subject,
                timestamp,
                payload_hash,
                signature,
            );
            let traced = s.submit_traced_effect(
                request_id,
                issuer,
                subject,
                timestamp,
                payload_hash,
                signature,
            );
            let in_session = s.submit_in_session_effect(
                session_id,
                issuer,
                subject,
                timestamp,
                payload_hash,
                signature,
            );
            &&& plain.allowance(issuer) == s.allowance(issuer) - 2
            &&& checked.allowance(issuer) == s.allowance(issuer)
            &&& traced.allowance(issuer) == s.allowance(issuer) - 1
            &&& in_session.allowance(issuer) == s.allowance(issuer) - 1
            &&& plain.allowance(other) == s.allowance(other)
            &&& traced.allowance(other) == s.allowance(other)
            &&& in_session.allowance(other) == s.allowance(other)
        }),
{
}

/// A payload that is marked as attested belongs to exactly one attestation,
/// whose timestamp it is marked with.
pub proof fn attested_payload_has_one_attestation(
    s: State,
    issuer: Seq<u8>,
    payload_hash: Seq<u8>,
) -> (id: u64)
    requires
        s.consistent(),
        s.attested(issuer, payload_hash),
    ensures
        read(s.attestations.records, id) matches Some(a) && a.issuer == issuer && a.payload_hash
            == payload_hash && read(s.attestations.used, (issuer, payload_hash)) == Some(
            a.timestamp,
        ),
        forall|other: u64| #[trigger]
            s.attestations.records.dom().contains(other) && other != id ==> (
            s.attestations.records[other].value.issuer,
            s.attestations.records[other].value.payload_hash,
            ) != (issuer, payload_hash),
{
    let records = s.attestations.records;
    assert(s.attestations.used.dom().contains((issuer, payload_hash)));
    let id = choose|id: u64| #[trigger]
        records.dom().contains(id) && (records[id].value.issuer, records[id].value.payload_hash)
            == (issuer, payload_hash);
    assert(records.dom().contains(id));
    id
}

/// The payload hash of an attestation is compared in every byte: the answer is yes
/// exactly if the expected hash is the stored one, and no for every other hash. It is
/// an error if there is no such attestation, or if what it holds is not a digest.
pub proof fn payload_hash_is_compared_in_full(s: State, id: u64, expected: Seq<u8>)
    requires
        expected.len() == 32,
    ensures
        ({
            let answer = s.payload_hash_matches(id, expected);
            let known = s.attestations.records.dom().contains(id);
            let stored = s.attestations.records[id].value.payload_hash;
            &&& answer == Err::<bool, ErrorCode>(ErrorCode::AttestationNotFound) <==> !known
            &&& answer == Err::<bool, ErrorCode>(ErrorCode::ValidationError) <==> known
                && stored.len() != 32
            &&& answer == Ok::<bool, ErrorCode>(true) <==> known && stored.len() == 32 && (
            forall|i: int| 0 <= i < 32 ==> stored[i] == expected[i])
            &&& answer == Ok::<bool, ErrorCode>(false) <==> known && stored.len() == 32 && (
            exists|i: int| 0 <= i < 32 && stored[i] != expected[i])
        }),
{
    let stored = s.attestations.records[id].value.payload_hash;
    if stored.len() == 32 && (forall|i: int| 0 <= i < 32 ==> stored[i] == expected[i]) {
        assert(stored =~= expected);
    }
}

/// A signature is accepted exactly if the issuer has a key, the signature has the
/// length of an Ed25519 signature, and the host has found that it holds for the
/// payload under that key.
pub proof fn signatures_are_judged_by_the_key(
    s: State,
    issuer: Seq<u8>,
    payload_hash: Seq<u8>,
    signature: Seq<u8>,
)
    ensures
        ({
            let keyed = s.registry.public_keys.dom().contains(issuer);
            let held = s.host.signatures.contains(
                SignatureCheckView {
                    public_key: s.registry.public_keys[issuer].value,
                    message: payload_hash,
                    signature,
                },
            );
            let registered = s.registry.attestors.dom().contains(issuer);
            let refusal = s.signature_refusal(issuer, payload_hash, signature);
            &&& refusal is None <==> keyed && signature.len() == 64 && held
            &&& refusal == Some(ErrorCode::UnauthorizedAttestor) <==> !keyed || signature.len()
                != 64
            &&& refusal == Some(ErrorCode::InvalidSignature) <==> keyed && signature.len() == 64
                && !held
            &&& !registered ==> s.issuer_refusal(issuer, payload_hash, signature) == Some(
                ErrorCode::AttestorNotRegistered,
            )
            &&& registered ==> s.issuer_refusal(issuer, payload_hash, signature) == refusal
        }),
{
}

/// A payload can be recorded exactly if its issuer has not attested it before and
/// there is a number left for it.
pub proof fn payload_is_recorded_once(s: State, issuer: Seq<u8>, payload_hash: Seq<u8>)
    ensures
        ({
            let attested = s.attestations.used.dom().contains((issuer, payload_hash));
            let full = s.instance.next_attestation == u64::MAX;
            let refusal = s.record_refusal(issuer, payload_hash);
            &&& refusal is None <==> !attested && !full
            &&& refusal == Some(ErrorCode::ReplayAttack) <==> attested
            &&& refusal == Some(ErrorCode::ArithmeticOverflow) <==> !attested && full
            &&& s.attested(issuer, payload_hash) <==> attested
        }),
{
}

/// The plain submission needs, in this order: the authorization of the issuer, its
/// registration and signature, an allowance, a timestamp, an allowance of two, and a
/// payload that can be recorded.
pub proof fn submission_refusals_are_exact(
    s: State,
    issuer: Seq<u8>,
    timestamp: u64,
    payload_hash: Seq<u8>,
    signature: Seq<u8>,
)
    ensures
        ({
            let refusal = s.submit_refusal(issuer, timestamp, payload_hash, signature);
            let authorized = s.host.authorized.contains(issuer);
            let issuer_refusal = s.issuer_refusal(issuer, payload_hash, signature);
            let accepted = authorized && issuer_refusal is None;
            let allowance = s.allowance(issuer);
            &&& !authorized ==> refusal == Some(ErrorCode::Unauthorized)
            &&& authorized && issuer_refusal is Some ==> refusal == issuer_refusal
            &&& accepted && allowance == 0 ==> refusal == Some(ErrorCode::RateLimitExceeded)
            &&& accepted && allowance >= 1 && timestamp == 0 ==> refusal == Some(
                ErrorCode::InvalidTimestamp,
            )
            &&& accepted && allowance == 1 && timestamp != 0 ==> refusal == Some(
                ErrorCode::RateLimitExceeded,
            )
            &&& accepted && allowance >= 2 && timestamp != 0 ==> refusal == s.record_refusal(
                issuer,
                payload_hash,
            )
        }),
{
}

/// The submission with the KYC check needs, in this order: the authorization of the
/// issuer, its registration and signature, a timestamp, an approved review of the
/// subject if that is required, and a payload that can be recorded. An allowance is
/// not needed.
pub proof fn checked_submission_refusals_are_exact(
    s: State,
    issuer: Seq<u8>,
    subject: Seq<u8>,
    timestamp: u64,
    payload_hash: Seq<u8>,
    signature: Seq<u8>,
    require_kyc: bool,
)
    ensures
        ({
            let refusal = s.submit_kyc_checked_refusal(
                issuer,
                subject,
                timestamp,
                payload_hash,
                signature,
                require_kyc,
            );
            let authorized = s.host.authorized.contains(issuer);
            let issuer_refusal = s.issuer_refusal(issuer, payload_hash, signature);
            let accepted = authorized && issuer_refusal is None && timestamp != 0;
            let status = s.kyc_status(subject);
            &&& !authorized ==> refusal == Some(ErrorCode::Unauthorized)
            &&& authorized && issuer_refusal is Some ==> refusal == issuer_refusal
            &&& authorized && issuer_refusal is None && timestamp == 0 ==> refusal == Some(
                ErrorCode::InvalidTimestamp,
            )
            &&& accepted && require_kyc && status == KycStatus::Pending ==> refusal == Some(
                ErrorCode::KycPending,
            )
            &&& accepted && require_kyc && status == KycStatus::Rejected ==> refusal == Some(
                ErrorCode::KycRejected,
            )
            &&& accepted && require_kyc && status == KycStatus::Expired ==> refusal == Some(
                ErrorCode::ComplianceNotMet,
            )
            &&& accepted && require_kyc && status == KycStatus::NotSubmitted ==> refusal == Some(
                ErrorCode::KycNotFound,
            )
            &&& accepted && (!require_kyc || status == KycStatus::Approved) ==> refusal
                == s.record_refusal(issuer, payload_hash)
        }),
{
}

/// A submission under a request number needs the authorization of the issuer, its
/// registration and signature, an allowance, a timestamp, and a payload that can be
/// recorded, in this order. In a session, the session must be open once the issuer
/// has authorized the call, and at last the operation must be countable.
pub proof fn limited_submission_refusals_are_exact(
    s: State,
    session_id: u64,
    issuer: Seq<u8>,
    timestamp: u64,
    payload_hash: Seq<u8>,
    signature: Seq<u8>,
)
    ensures
        ({
            let traced = s.submit_traced_refusal(issuer, timestamp, payload_hash, signature);
            let in_session = s.submit_in_session_refusal(
                session_id,
                issuer,
                timestamp,
                payload_hash,
                signature,
            );
            let authorized = s.host.authorized.contains(issuer);
            let issuer_refusal = s.issuer_refusal(issuer, payload_hash, signature);
            let accepted = authorized && issuer_refusal is None;
            let allowance = s.allowance(issuer);
            let session = s.session_refusal(session_id);
            let countable = s.sessions.sessions[session_id].value.nonce < u64::MAX
                && s.operation_count(session_id) < u64::MAX && s.instance.next_audit < u64::MAX;
            &&& !authorized ==> traced == Some(ErrorCode::Unauthorized) && in_session == Some(
                ErrorCode::Unauthorized,
            )
            &&& authorized && issuer_refusal is Some ==> traced == issuer_refusal
            &&& accepted && allowance == 0 ==> traced == Some(ErrorCode::RateLimitExceeded)
            &&& accepted && allowance >= 1 && timestamp == 0 ==> traced == Some(
                ErrorCode::InvalidTimestamp,
            )
            &&& accepted && allowance >= 1 && timestamp != 0 ==> traced == s.record_refusal(
                issuer,
                payload_hash,
            )
            &&& authorized && session is Some ==> in_session == session
            &&& authorized && session is None && traced is Some ==> in_session == traced
            &&& authorized && session is None && traced is None && !countable ==> in_session
                == Some(ErrorCode::ArithmeticOverflow)
            &&& authorized && session is None && traced is None && countable ==> in_session is None
        }),
{
}

/// Whether `t` is `s` with a new attestation: its record and the mark on its payload
/// are written under the next number, and the number after it is next.
pub open spec fn attested_anew(
    s: State,
    t: State,
    issuer: Seq<u8>,
    subject: Seq<u8>,
    timestamp: u64,
    payload_hash: Seq<u8>,
    signature: Seq<u8>,
) -> bool {
    let id = s.instance.next_attestation;
    &&& written(
        s.attestations.records,
        t.attestations.records,
        id,
        AttestationView { id, issuer, subject, timestamp, payload_hash, signature },
        PERSISTENT_TTL,
    )
    &&& written(
        s.attestations.used,
        t.attestations.used,
        (issuer, payload_hash),
        timestamp,
        REPLAY_TTL,
    )
    &&& t.instance.next_attestation == id + 1
    &&& kept_alive(s.instance, t.instance)
}

/// A plain submission records the attestation, uses up two of the allowance, and is
/// announced. Nothing else changes.
pub proof fn submission_records(
    s: State,
    issuer: Seq<u8>,
    subject: Seq<u8>,
    timestamp: u64,
    payload_hash: Seq<u8>,
    signature: Seq<u8>,
)
    requires
        s.submit_refusal(issuer, timestamp, payload_hash, signature) is None,
    ensures
        ({
            let t = s.submit_effect(issuer, subject, timestamp, payload_hash, signature);
            &&& attested_anew(s, t, issuer, subject, timestamp, payload_hash, signature)
            &&& t.allowance(issuer) == s.allowance(issuer) - 2
            &&& t.events == s.events.push(
                EventView::AttestationRecorded {
                    id: s.instance.next_attestation,
                    subject,
                    payload_hash,
                    timestamp,
                },
            )
            &&& t == State {
                instance: InstanceState {
                    next_attestation: t.instance.next_attestation,
                    ttl: t.instance.ttl,
                    ..s.instance
                },
                attestations: t.attestations,
                allowances: t.allowances,
                events: t.events,
                ..s
            }
        }),
{
}

/// A submission with the KYC check records the attestation, and announces it to
/// webhooks too. Nothing else changes.
pub proof fn checked_submission_records(
    s: State,
    issuer: Seq<u8>,
    subject: Seq<u8>,
    timestamp: u64,
    payload_hash: Seq<u8>,
    signature: Seq<u8>,
)
    requires
        s.record_refusal(issuer, payload_hash) is None,
    ensures
        ({
            let t = s.submit_kyc_checked_effect(
                issuer,
                subject,
                timestamp,
                payload_hash,
                signature,
            );
            let id = s.instance.next_attestation;
            &&& attested_anew(s, t, issuer, subject, timestamp, payload_hash, signature)
            &&& t.events == s.events.push(
                EventView::AttestationRecorded { id, subject, payload_hash, timestamp },
            ).push(
                EventView::Webhook {
                    notice: WebhookEventView {
                        event_type: bytes_of("attestation_submitted"),
                        transaction_id: id,
                        timestamp,
                        payload_hash,
                    },
                },
            )
            &&& t == State {
                instance: InstanceState {
                    next_attestation: t.instance.next_attestation,
                    ttl: t.instance.ttl,
                    ..s.instance
                },
                attestations: t.attestations,
                events: t.events,
                ..s
            }
        }),
{
}

/// A submission under a request number records the attestation, uses up one of the
/// allowance, leaves a root span of the request and adds the operation to its
/// context, and is announced, to webhooks too. Nothing else changes.
pub proof fn traced_submission_records(
    s: State,
    request_id: RequestIdView,
    issuer: Seq<u8>,
    subject: Seq<u8>,
    timestamp: u64,
    payload_hash: Seq<u8>,
    signature: Seq<u8>,
)
    requires
        s.submit_traced_refusal(issuer, timestamp, payload_hash, signature) is None,
    ensures
        ({
            let t = s.submit_traced_effect(
                request_id,
                issuer,
                subject,
                timestamp,
                payload_hash,
                signature,
            );
            let id = s.instance.next_attestation;
            let name = bytes_of("submit_attestation");
            let traced = s.store_span(request_id, name, issuer, Seq::empty(), 0).append_operation(
                request_id.id,
                name,
            );
            &&& attested_anew(s, t, issuer, subject, timestamp, payload_hash, signature)
            &&& t.allowance(issuer) == s.allowance(issuer) - 1
            &&& t.tracing == traced.tracing
            &&& t.events == s.events.push(
                EventView::AttestationRecorded { id, subject, payload_hash, timestamp },
            ).push(
                EventView::Webhook {
                    notice: WebhookEventView {
                        event_type: bytes_of("attestation_submitted"),
                        transaction_id: id,
                        timestamp,
                        payload_hash,
                    },
                },
            )
            &&& t == State {
                instance: InstanceState {
                    next_attestation: t.instance.next_attestation,
                    ttl: t.instance.ttl,
                    ..s.instance
                },
                attestations: t.attestations,
                allowances: t.allowances,
                tracing: t.tracing,
                events: t.events,
                ..s
            }
        }),
{
}

/// A submission in a session records the attestation, uses up one of the allowance,
/// raises the session's nonce by one and leaves the rest of the session, logs an
/// operation "attest" of the issuer that names the attestation, and is announced.
/// Nothing else changes.
pub proof fn submission_in_session_records(
    s: State,
    session_id: u64,
    issuer: Seq<u8>,
    subject: Seq<u8>,
    timestamp: u64,
    payload_hash: Seq<u8>,
    signature: Seq<u8>,
)
    requires
        s.submit_in_session_refusal(session_id, issuer, timestamp, payload_hash, signature) is None,
    ensures
        ({
            let t = s.submit_in_session_effect(
                session_id,
                issuer,
                subject,
                timestamp,
                payload_hash,
                signature,
            );
            let id = s.instance.next_attestation;
            let session = s.sessions.sessions[session_id].value;
            &&& attested_anew(s, t, issuer, subject, timestamp, payload_hash, signature)
            &&& t.allowance(issuer) == s.allowance(issuer) - 1
            &&& written(
                s.sessions.sessions,
                t.sessions.sessions,
                session_id,
                SessionView { nonce: (session.nonce + 1) as u64, ..session },
                PERSISTENT_TTL,
            )
            &&& logged_anew(s, t, session_id, issuer, bytes_of("attest"), id)
            &&& t.events == s.events.push(
                EventView::AttestationRecorded { id, subject, payload_hash, timestamp },
            ).push(
                EventView::AuditLogged {
                    log_id: s.instance.next_audit,
                    session_id,
                    operation_index: s.operation_count(session_id),
                    operation_type: bytes_of("attest"),
                    status: bytes_of("success"),
                },
            )
            &&& t == State {
                instance: InstanceState {
                    next_attestation: t.instance.next_attestation,
                    next_audit: t.instance.next_audit,
                    ttl: t.instance.ttl,
                    ..s.instance
                },
                attestations: t.attestations,
                allowances: t.allowances,
                sessions: SessionsState { nonces: s.sessions.nonces, ..t.sessions },
                events: t.events,
                ..s
            }
        }),
{
}

/// An attestation that was submitted is confirmed with its own payload hash, and with
/// no other, as long as that hash has the length of a digest.
pub proof fn submitted_payload_is_confirmed(
    s: State,
    issuer: Seq<u8>,
    subject: Seq<u8>,
    timestamp: u64,
    payload_hash: Seq<u8>,
    signature: Seq<u8>,
    expected: Seq<u8>,
)
    requires
        s.submit_refusal(issuer, timestamp, payload_hash, signature) is None,
        payload_hash.len() == 32,
    ensures
        ({
            let t = s.submit_effect(issuer, subject, timestamp, payload_hash, signature);
            let id = s.instance.next_attestation;
            &&& t.payload_hash_matches(id, payload_hash) == Ok::<bool, ErrorCode>(true)
            &&& expected != payload_hash ==> t.payload_hash_matches(id, expected) == Ok::<
                bool,
                ErrorCode,
            >(false)
        }),
{
}

} // verus!
