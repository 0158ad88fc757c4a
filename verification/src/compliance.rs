//! KYC reviews and compliance checks.

use crate::contract::{carried_out, first_of, unless, AnchorKitContract};
use crate::data::{bytes_of, text, Address, Bytes, Duplicate, Text};
use crate::env::{Env, State};
use crate::events::{Event, EventView};
use crate::stores::ComplianceState;
use crate::table::{put, read, written};
use crate::types::{
    ComplianceCheck, ComplianceCheckView, ErrorCode, KycRecord, KycRecordView, KycStatus,
    WebhookEvent, WebhookEventView, PERSISTENT_TTL,
};
use vstd::prelude::*;

verus! {

/// A review that has been opened and not yet decided.
pub open spec fn pending_review(subject: Seq<u8>, now: u64) -> KycRecordView {
    KycRecordView {
        subject,
        status: KycStatus::Pending.code(),
        submitted_at: now,
        reviewed_at: None,
        expiry: None,
        rejection_reason_hash: None,
    }
}

impl State {
    /// The state with a KYC record for `subject`.
    pub open spec fn store_kyc(self, subject: Seq<u8>, record: KycRecordView) -> State {
        State {
            compliance: ComplianceState {
                kyc: put(self.compliance.kyc, subject, record, PERSISTENT_TTL),
                ..self.compliance
            },
            ..self
        }
    }

    /// What is announced about a KYC review.
    pub open spec fn kyc_notice(
        self,
        event_type: Seq<u8>,
        payload_hash: Seq<u8>,
    ) -> WebhookEventView {
        WebhookEventView { event_type, transaction_id: 0, timestamp: self.now(), payload_hash }
    }

    /// Why `submit_kyc` is refused.
    pub open spec fn submit_kyc_refusal(
        self,
        subject: Seq<u8>,
        attestor: Seq<u8>,
    ) -> Option<ErrorCode> {
        first_of(
            unless(self.authorized(attestor), ErrorCode::Unauthorized),
            first_of(
                unless(self.registered(attestor), ErrorCode::AttestorNotRegistered),
                unless(
                    read(self.compliance.kyc, subject) is None,
                    ErrorCode::ComplianceNotMet,
                ),
            ),
        )
    }

    /// The state after `submit_kyc`.
    pub open spec fn submit_kyc_effect(self, subject: Seq<u8>, data_hash: Seq<u8>) -> State {
        let opened = self.store_kyc(subject, pending_review(subject, self.now()));
        State {
            compliance: ComplianceState {
                kyc_data: put(self.compliance.kyc_data, subject, data_hash, PERSISTENT_TTL),
                ..opened.compliance
            },
            ..opened
        }.announce(
            EventView::KycSubmitted {
                subject,
                notice: self.kyc_notice(bytes_of("kyc_submitted"), data_hash),
            },
        )
    }

    /// Why a decision on a KYC review is refused: there is no review, or it is
    /// not pending.
    pub open spec fn review_refusal(self, subject: Seq<u8>) -> Option<ErrorCode> {
        first_of(
            self.admin_refusal(),
            match read(self.compliance.kyc, subject) {
                None => Some(ErrorCode::KycNotFound),
                Some(record) => unless(
                    record.status == KycStatus::Pending.code(),
                    ErrorCode::IllegalTransition,
                ),
            },
        )
    }

    /// The state after `approve_kyc`.
    pub open spec fn approve_kyc_effect(self, subject: Seq<u8>) -> State {
        let record = read(self.compliance.kyc, subject)->0;
        self.store_kyc(
            subject,
            KycRecordView {
                status: KycStatus::Approved.code(),
                reviewed_at: Some(self.now()),
                ..record
            },
        ).announce(
            EventView::KycApproved {
                subject,
                notice: self.kyc_notice(bytes_of("kyc_approved"), Seq::empty()),
            },
        )
    }

    /// The state after `reject_kyc`.
    pub open spec fn reject_kyc_effect(self, subject: Seq<u8>, reason_hash: Seq<u8>) -> State {
        let record = read(self.compliance.kyc, subject)->0;
        self.store_kyc(
            subject,
            KycRecordView {
                status: KycStatus::Rejected.code(),
                reviewed_at: Some(self.now()),
                rejection_reason_hash: Some(reason_hash),
                ..record
            },
        ).announce(
            EventView::KycRejected {
                subject,
                notice: self.kyc_notice(bytes_of("kyc_rejected"), reason_hash),
            },
        )
    }

    /// The KYC status of `subject`: none without a review, expired once the
    /// review's expiry has passed, and otherwise what the review says.
    pub open spec fn kyc_status(self, subject: Seq<u8>) -> KycStatus {
        match read(self.compliance.kyc, subject) {
            None => KycStatus::NotSubmitted,
            Some(record) => match record.expiry {
                Some(expiry) if self.now() > expiry => KycStatus::Expired,
                _ => KycStatus::of_code(record.status),
            },
        }
    }

    /// The state after `record_compliance_check`.
    pub open spec fn record_check_effect(
        self,
        subject: Seq<u8>,
        check_type: Seq<u8>,
        passed: bool,
    ) -> State {
        let check = ComplianceCheckView {
            subject,
            check_type,
            result: if passed {
                1
            } else {
                0
            },
            timestamp: self.now(),
        };
        State {
            compliance: ComplianceState {
                checks: put(self.compliance.checks, (subject, check_type), check, PERSISTENT_TTL),
                ..self.compliance
            },
            ..self
        }.announce(EventView::ComplianceChecked { subject, check })
    }

    /// Whether the last check of a kind recorded for `subject` was passed.
    pub open spec fn passed_check(self, subject: Seq<u8>, check_type: Seq<u8>) -> bool {
        match read(self.compliance.checks, (subject, check_type)) {
            Some(check) => check.result == 1,
            None => false,
        }
    }
}

impl AnchorKitContract {
    /// Opens a KYC review for `subject`. Only the hash of the submitted data is
    /// kept. A registered attestor must authorize it, and a subject has one
    /// review at most.
    pub fn submit_kyc(env: &mut Env, subject: Address, data_hash: Bytes, attestor: Address) -> (r:
        Result<(), ErrorCode>)
        ensures
            carried_out(
                r,
                old(env)@,
                final(env)@,
                old(env)@.submit_kyc_refusal(subject@, attestor@),
                old(env)@.submit_kyc_effect(subject@, data_hash@),
            ),
    {
        if !env.authorized(&attestor) {
            return Err(ErrorCode::Unauthorized);
        }
        match Self::check_attestor(env, &attestor) {
            Ok(_) => {},
            Err(e) => return Err(e),
        }
        if env.compliance.kyc.has(&subject) {
            return Err(ErrorCode::ComplianceNotMet);
        }
        let now: u64 = env.ledger.timestamp;
        let record = KycRecord {
            subject: subject.dup(),
            status: KycStatus::Pending.as_u32(),
            submitted_at: now,
            reviewed_at: None,
            expiry: None,
            rejection_reason_hash: None,
        };
        env.compliance.kyc.set(subject.dup(), record, PERSISTENT_TTL);
        env.compliance.kyc_data.set(subject.dup(), data_hash.dup(), PERSISTENT_TTL);
        env.announce(
            Event::KycSubmitted {
                subject,
                notice: WebhookEvent {
                    event_type: text("kyc_submitted"),
                    transaction_id: 0,
                    timestamp: now,
                    payload_hash: data_hash,
                },
            },
        );
        Ok(())
    }

    /// The pending review of `subject`, for a decision of the administrator.
    fn pending_kyc(env: &Env, subject: &Address) -> (r: Result<KycRecord, ErrorCode>)
        ensures
            match r {
                Ok(record) => env@.review_refusal(subject@) is None && read(
                    env@.compliance.kyc,
                    subject@,
                ) == Some(record@),
                Err(e) => env@.review_refusal(subject@) == Some(e),
            },
    {
        match env.require_admin() {
            Ok(_) => {},
            Err(e) => return Err(e),
        }
        match env.compliance.kyc.get(subject) {
            None => Err(ErrorCode::KycNotFound),
            Some(record) => if record.status != KycStatus::Pending.as_u32() {
                Err(ErrorCode::IllegalTransition)
            } else {
                Ok(record)
            },
        }
    }

    /// Approves the pending review of `subject`. Only the administrator may.
    pub fn approve_kyc(env: &mut Env, subject: Address) -> (r: Result<(), ErrorCode>)
        ensures
            carried_out(
                r,
                old(env)@,
                final(env)@,
                old(env)@.review_refusal(subject@),
                old(env)@.approve_kyc_effect(subject@),
            ),
    {
        let mut record: KycRecord = match Self::pending_kyc(env, &subject) {
            Ok(record) => record,
            Err(e) => return Err(e),
        };
        let now: u64 = env.ledger.timestamp;
        record.status = KycStatus::Approved.as_u32();
        record.reviewed_at = Some(now);
        env.compliance.kyc.set(subject.dup(), record, PERSISTENT_TTL);
        let no_hash: Bytes = Vec::new();
        env.announce(
            Event::KycApproved {
                subject,
                notice: WebhookEvent {
                    event_type: text("kyc_approved"),
                    transaction_id: 0,
                    timestamp: now,
                    payload_hash: no_hash,
                },
            },
        );
        Ok(())
    }

    /// Rejects the pending review of `subject` and keeps the hash of the reason.
    /// Only the administrator may.
    pub fn reject_kyc(env: &mut Env, subject: Address, reason_hash: Bytes) -> (r: Result<
        (),
        ErrorCode,
    >)
        ensures
            carried_out(
                r,
                old(env)@,
                final(env)@,
                old(env)@.review_refusal(subject@),
                old(env)@.reject_kyc_effect(subject@, reason_hash@),
            ),
    {
        let mut record: KycRecord = match Self::pending_kyc(env, &subject) {
            Ok(record) => record,
            Err(e) => return Err(e),
        };
        let now: u64 = env.ledger.timestamp;
        record.status = KycStatus::Rejected.as_u32();
        record.reviewed_at = Some(now);
        record.rejection_reason_hash = Some(reason_hash.dup());
        env.compliance.kyc.set(subject.dup(), record, PERSISTENT_TTL);
        env.announce(
            Event::KycRejected {
                subject,
                notice: WebhookEvent {
                    event_type: text("kyc_rejected"),
                    transaction_id: 0,
                    timestamp: now,
                    payload_hash: reason_hash,
                },
            },
        );
        Ok(())
    }

    /// The KYC status of `subject`.
    pub fn get_kyc_status(env: &Env, subject: Address) -> (r: KycStatus)
        ensures
            r == env@.kyc_status(subject@),
    {
        match env.compliance.kyc.get(&subject) {
            None => KycStatus::NotSubmitted,
            Some(record) => {
                match record.expiry {
                    Some(expiry) => {
                        if env.ledger.timestamp > expiry {
                            return KycStatus::Expired;
                        }
                    },
                    None => {},
                }
                KycStatus::from_u32(record.status)
            },
        }
    }

    /// Records the outcome of a compliance check. Only the administrator may.
    pub fn record_compliance_check(
        env: &mut Env,
        subject: Address,
        check_type: Text,
        passed: bool,
    ) -> (r: Result<(), ErrorCode>)
        ensures
            carried_out(
                r,
                old(env)@,
                final(env)@,
                old(env)@.admin_refusal(),
                old(env)@.record_check_effect(subject@, check_type@, passed),
            ),
    {
        match env.require_admin() {
            Ok(_) => {},
            Err(e) => return Err(e),
        }
        let check = ComplianceCheck {
            subject: subject.dup(),
            check_type: check_type.dup(),
            result: if passed {
                1
            } else {
                0
            },
            timestamp: env.ledger.timestamp,
        };
        env.compliance.checks.set((subject.dup(), check_type), check.dup(), PERSISTENT_TTL);
        env.announce(Event::ComplianceChecked { subject, check });
        Ok(())
    }

    /// Whether the last check of a kind recorded for `subject` was passed.
    pub(crate) fn has_passed_check(env: &Env, subject: &Address, check_type: Text) -> (r: bool)
        ensures
            r == env@.passed_check(subject@, check_type@),
    {
        match env.compliance.checks.get(&(subject.dup(), check_type)) {
            Some(check) => check.result == 1,
            None => false,
        }
    }
}

/// A KYC review starts pending, and ends approved or rejected.
pub proof fn kyc_review_runs_its_course(
    s: State,
    subject: Seq<u8>,
    data_hash: Seq<u8>,
    attestor: Seq<u8>,
    reason_hash: Seq<u8>,
)
    requires
        s.submit_kyc_refusal(subject, attestor) is None,
    ensures
        ({
            let opened = s.submit_kyc_effect(subject, data_hash);
            let approved = opened.approve_kyc_effect(subject);
            let rejected = opened.reject_kyc_effect(subject, reason_hash);
            &&& s.kyc_status(subject) == KycStatus::NotSubmitted
            &&& opened.kyc_status(subject) == KycStatus::Pending
            &&& approved.kyc_status(subject) == KycStatus::Approved
            &&& rejected.kyc_status(subject) == KycStatus::Rejected
            &&& opened.submit_kyc_refusal(subject, attestor) == Some(ErrorCode::ComplianceNotMet)
            &&& opened.admin_refusal() is None ==> opened.review_refusal(subject) is None
            &&& approved.admin_refusal() is None ==> approved.review_refusal(subject) == Some(
                ErrorCode::IllegalTransition,
            )
            &&& rejected.admin_refusal() is None ==> rejected.review_refusal(subject) == Some(
                ErrorCode::IllegalTransition,
            )
        }),
{
}

/// With KYC enforced, a subject can be attested about exactly if its review is
/// approved.
pub proof fn only_approved_subjects_are_attested(s: State, subject: Seq<u8>)
    ensures
        s.kyc_refusal(subject) is None <==> s.kyc_status(subject) == KycStatus::Approved,
{
}

/// The last check of a kind decides whether a subject has passed it.
pub proof fn last_check_decides(
    s: State,
    subject: Seq<u8>,
    check_type: Seq<u8>,
    passed: bool,
    other_subject: Seq<u8>,
    other_type: Seq<u8>,
)
    ensures
        ({
            let t = s.record_check_effect(subject, check_type, passed);
            &&& t.passed_check(subject, check_type) == passed
            &&& (other_subject, other_type) != (subject, check_type) ==> t.passed_check(
                other_subject,
                other_type,
            ) == s.passed_check(other_subject, other_type)
        }),
{
}

/// A review is opened by a registered attestor that authorizes it, for a subject that
/// has none, in this order. It is pending from now on, with nothing decided, and the
/// hash of the data is kept as given; this is announced, and nothing else changes.
pub proof fn opening_a_review_is_exact(
    s: State,
    subject: Seq<u8>,
    data_hash: Seq<u8>,
    attestor: Seq<u8>,
)
    ensures
        ({
            let refusal = s.submit_kyc_refusal(subject, attestor);
            let authorized = s.host.authorized.contains(attestor);
            let registered = s.registry.attestors.dom().contains(attestor);
            let reviewed = s.compliance.kyc.dom().contains(subject);
            let t = s.submit_kyc_effect(subject, data_hash);
            &&& refusal == Some(ErrorCode::Unauthorized) <==> !authorized
            &&& refusal == Some(ErrorCode::AttestorNotRegistered) <==> authorized && !registered
            &&& refusal == Some(ErrorCode::ComplianceNotMet) <==> authorized && registered
                && reviewed
            &&& refusal is None <==> authorized && registered && !reviewed
            &&& written(
                s.compliance.kyc,
                t.compliance.kyc,
                subject,
                KycRecordView {
                    subject,
                    status: 1,
                    submitted_at: s.ledger.timestamp,
                    reviewed_at: None,
                    expiry: None,
                    rejection_reason_hash: None,
                },
                PERSISTENT_TTL,
            )
            &&& written(
                s.compliance.kyc_data,
                t.compliance.kyc_data,
                subject,
                data_hash,
                PERSISTENT_TTL,
            )
            &&& t.events == s.events.push(
                EventView::KycSubmitted {
                    subject,
                    notice: WebhookEventView {
                        event_type: bytes_of("kyc_submitted"),
                        transaction_id: 0,
                        timestamp: s.ledger.timestamp,
                        payload_hash: data_hash,
                    },
                },
            )
            &&& t == State {
                compliance: ComplianceState {
                    kyc: t.compliance.kyc,
                    kyc_data: t.compliance.kyc_data,
                    ..s.compliance
                },
                events: t.events,
                ..s
            }
        }),
{
}

/// A pending review is decided by the administrator. It is dated now; an approval says
/// that it is approved, a rejection that it is rejected, and why; the rest of the
/// review stays. This is announced, and nothing else changes.
pub proof fn deciding_a_review_is_exact(s: State, subject: Seq<u8>, reason_hash: Seq<u8>)
    ensures
        ({
            let refusal = s.review_refusal(subject);
            let reviewed = s.compliance.kyc.dom().contains(subject);
            let record = s.compliance.kyc[subject].value;
            let t = s.approve_kyc_effect(subject);
            let u = s.reject_kyc_effect(subject, reason_hash);
            &&& s.admin_refusal() is Some ==> refusal == s.admin_refusal()
            &&& s.admin_refusal() is None && !reviewed ==> refusal == Some(ErrorCode::KycNotFound)
            &&& s.admin_refusal() is None && reviewed && record.status != 1 ==> refusal == Some(
                ErrorCode::IllegalTransition,
            )
            &&& s.admin_refusal() is None && reviewed && record.status == 1 ==> refusal is None
            &&& refusal is None ==> written(
                s.compliance.kyc,
                t.compliance.kyc,
                subject,
                KycRecordView { status: 2, reviewed_at: Some(s.ledger.timestamp), ..record },
                PERSISTENT_TTL,
            )
            &&& refusal is None ==> written(
                s.compliance.kyc,
                u.compliance.kyc,
                subject,
                KycRecordView {
                    status: 3,
                    reviewed_at: Some(s.ledger.timestamp),
                    rejection_reason_hash: Some(reason_hash),
                    ..record
                },
                PERSISTENT_TTL,
            )
            &&& t.events == s.events.push(
                EventView::KycApproved {
                    subject,
                    notice: WebhookEventView {
                        event_type: bytes_of("kyc_approved"),
                        transaction_id: 0,
                        timestamp: s.ledger.timestamp,
                        payload_hash: Seq::empty(),
                    },
                },
            )
            &&& u.events == s.events.push(
                EventView::KycRejected {
                    subject,
                    notice: WebhookEventView {
                        event_type: bytes_of("kyc_rejected"),
                        transaction_id: 0,
                        timestamp: s.ledger.timestamp,
                        payload_hash: reason_hash,
                    },
                },
            )
            &&& t == State {
                compliance: ComplianceState { kyc: t.compliance.kyc, ..s.compliance },
                events: t.events,
                ..s
            }
            &&& u == State {
                compliance: ComplianceState { kyc: u.compliance.kyc, ..s.compliance },
                events: u.events,
                ..s
            }
        }),
{
}

/// The status of a subject is read off its review: there is none without a review, it
/// has expired once the time is past the expiry of the review, and otherwise the code
/// decides, one for pending, two for approved, three for rejected and four for expired.
pub proof fn status_is_exact(s: State, subject: Seq<u8>)
    ensures
        ({
            let reviewed = s.compliance.kyc.dom().contains(subject);
            let record = s.compliance.kyc[subject].value;
            let over = record.expiry matches Some(expiry) && s.ledger.timestamp > expiry;
            let status = s.kyc_status(subject);
            &&& !reviewed ==> status == KycStatus::NotSubmitted
            &&& reviewed && over ==> status == KycStatus::Expired
            &&& reviewed && !over && record.status == 1 ==> status == KycStatus::Pending
            &&& reviewed && !over && record.status == 2 ==> status == KycStatus::Approved
            &&& reviewed && !over && record.status == 3 ==> status == KycStatus::Rejected
            &&& reviewed && !over && record.status == 4 ==> status == KycStatus::Expired
            &&& reviewed && !over && (record.status == 0 || record.status > 4) ==> status
                == KycStatus::NotSubmitted
        }),
{
}

/// The code of a status stands for that status.
pub proof fn status_codes_read_back(status: KycStatus)
    ensures
        KycStatus::of_code(status.code()) == status,
{
}

/// With KYC enforced, each status but an approval has its own refusal.
pub proof fn status_refusals_are_exact(s: State, subject: Seq<u8>)
    ensures
        ({
            let status = s.kyc_status(subject);
            let refusal = s.kyc_refusal(subject);
            &&& refusal is None <==> status == KycStatus::Approved
            &&& refusal == Some(ErrorCode::KycPending) <==> status == KycStatus::Pending
            &&& refusal == Some(ErrorCode::KycRejected) <==> status == KycStatus::Rejected
            &&& refusal == Some(ErrorCode::ComplianceNotMet) <==> status == KycStatus::Expired
            &&& refusal == Some(ErrorCode::KycNotFound) <==> status == KycStatus::NotSubmitted
        }),
{
}

/// A check is written with its outcome, one for passed and zero for failed, and dated
/// now. It is announced, and nothing else changes. A check counts as passed exactly if
/// its outcome is one.
pub proof fn checks_are_exact(s: State, subject: Seq<u8>, check_type: Seq<u8>, passed: bool)
    ensures
        ({
            let check = ComplianceCheckView {
                subject,
                check_type,
                result: if passed {
                    1
                } else {
                    0
                },
                timestamp: s.ledger.timestamp,
            };
            let key = (subject, check_type);
            let t = s.record_check_effect(subject, check_type, passed);
            &&& written(s.compliance.checks, t.compliance.checks, key, check, PERSISTENT_TTL)
            &&& t.events == s.events.push(EventView::ComplianceChecked { subject, check })
            &&& t == State {
                compliance: ComplianceState { checks: t.compliance.checks, ..s.compliance },
                events: t.events,
                ..s
            }
            &&& s.passed_check(subject, check_type) <==> s.compliance.checks.dom().contains(key)
                && s.compliance.checks[key].value.result == 1
        }),
{
}

} // verus!
