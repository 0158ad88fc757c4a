//! What holds in every state that the contract can reach, whichever temporary
//! entries the host lets lapse between calls.

use crate::calls::{Call, Moment};
use crate::data::bytes_of;
use crate::env::{HostState, Ledger, State};
use crate::services::valid_services;
use crate::table::read;
use crate::types::{
    KycRecordView, KycStatus, QuoteView, RequestContextView, RequestIdView, RoutingAnchorMetaView,
    SessionView, BASIS_POINTS, PERSISTENT_TTL,
};
use vstd::prelude::*;
use vstd::set_lib::lemma_len_subset;

verus! {

impl State {
    /// Attestors and their keys go together, and are counted. Keys for tokens
    /// have the length of a key. Configured services are known ones.
    pub open spec fn registry_consistent(self) -> bool {
        let registry = self.registry;
        &&& registry.attestors.dom() == registry.public_keys.dom()
        &&& registry.attestors.dom().finite()
        &&& self.instance.attestor_count == registry.attestors.dom().len()
        &&& forall|a: Seq<u8>| #[trigger]
            registry.attestors.dom().contains(a) ==> registry.attestors[a].value
        &&& forall|a: Seq<u8>| #[trigger]
            registry.sep10_keys.dom().contains(a) ==> registry.sep10_keys[a].value.len() == 32
        &&& forall|a: Seq<u8>| #[trigger]
            registry.services.dom().contains(a) ==> {
                &&& registry.services[a].value.anchor == a
                &&& registry.services[a].value.service_capability_version == 1
                &&& valid_services(registry.services[a].value.services)
            }
    }

    /// Attestations are numbered from zero without gaps, each is by an issuer
    /// about a payload of which there is no other, and the payloads marked as
    /// attested are theirs.
    pub open spec fn attestations_consistent(self) -> bool {
        let records = self.attestations.records;
        let used = self.attestations.used;
        &&& forall|id: u64| #[trigger]
            records.dom().contains(id) <==> id < self.instance.next_attestation
        &&& forall|id: u64| #[trigger]
            records.dom().contains(id) ==> {
                let a = records[id].value;
                &&& a.id == id
                &&& a.timestamp != 0
                &&& a.signature.len() == 64
                &&& read(used, (a.issuer, a.payload_hash)) == Some(a.timestamp)
            }
        &&& forall|i: u64, j: u64|
            #![trigger records.dom().contains(i), records.dom().contains(j)]
            records.dom().contains(i) && records.dom().contains(j) && i != j ==> (
            records[i].value.issuer,
            records[i].value.payload_hash,
            ) != (records[j].value.issuer, records[j].value.payload_hash)
        &&& forall|k: (Seq<u8>, Seq<u8>)| #[trigger]
            used.dom().contains(k) ==> exists|id: u64| #[trigger]
                records.dom().contains(id) && (
                records[id].value.issuer,
                records[id].value.payload_hash,
                ) == k
    }

    /// Sessions and audit entries are numbered from zero without gaps. A
    /// session's operations are logged without gaps, each in an entry of its
    /// own.
    pub open spec fn sessions_consistent(self) -> bool {
        let sessions = self.sessions.sessions;
        let audits = self.sessions.audits;
        let logs = self.sessions.logs;
        &&& forall|id: u64| #[trigger]
            sessions.dom().contains(id) <==> id < self.instance.next_session
        &&& forall|id: u64| #[trigger]
            sessions.dom().contains(id) ==> {
                &&& sessions[id].value.session_id == id
                &&& sessions[id].value.nonce <= self.operation_count(id)
            }
        &&& forall|id: u64| #[trigger]
            self.sessions.operation_counts.dom().contains(id) ==> sessions.dom().contains(id)
        &&& forall|l: u64| #[trigger]
            audits.dom().contains(l) <==> l < self.instance.next_audit
        &&& forall|l: u64| #[trigger]
            audits.dom().contains(l) ==> {
                let e = audits[l].value;
                &&& e.log_id == l
                &&& e.operation.session_id == e.session_id
                &&& read(logs, (e.session_id, e.operation.operation_index)) == Some(l)
            }
        &&& forall|s: u64, i: u64| #[trigger]
            logs.dom().contains((s, i)) <==> i < self.operation_count(s)
        &&& forall|s: u64, i: u64| #[trigger]
            logs.dom().contains((s, i)) ==> {
                let l = logs[(s, i)].value;
                &&& audits.dom().contains(l)
                &&& audits[l].value.session_id == s
                &&& audits[l].value.operation.operation_index == i
            }
    }

    /// A quote is held under its anchor and number, its fee is at most the whole
    /// amount, and an anchor's latest quote is the one with the highest number.
    pub open spec fn quotes_consistent(self) -> bool {
        let quotes = self.routing.quotes;
        let latest = self.routing.latest;
        &&& forall|a: Seq<u8>, id: u64| #[trigger]
            quotes.dom().contains((a, id)) ==> {
                let q = quotes[(a, id)].value;
                &&& q.anchor == a
                &&& q.quote_id == id
                &&& 1 <= id <= self.instance.quote_count
                &&& q.fee_percentage <= BASIS_POINTS
                &&& latest.dom().contains(a)
                &&& id <= latest[a].value
            }
        &&& forall|a: Seq<u8>| #[trigger]
            latest.dom().contains(a) ==> quotes.dom().contains((a, latest[a].value))
    }

    /// The anchors known for routing are listed once each.
    pub open spec fn anchors_consistent(self) -> bool {
        &&& self.routing.anchors.no_duplicates()
        &&& forall|a: Seq<u8>| #[trigger]
            self.routing.metas.dom().contains(a) <==> self.routing.anchors.contains(a)
        &&& forall|a: Seq<u8>| #[trigger]
            self.routing.metas.dom().contains(a) ==> self.routing.metas[a].value.anchor == a
        &&& forall|a: Seq<u8>| #[trigger]
            self.blacklisted(a) ==> self.routing.blacklist[a].value.anchor == a
    }

    /// A KYC review is pending, approved or rejected; it is dated once it is
    /// decided, and has a reason if it is rejected. A compliance check is held
    /// under its subject and kind.
    pub open spec fn compliance_consistent(self) -> bool {
        let kyc = self.compliance.kyc;
        let checks = self.compliance.checks;
        &&& kyc.dom() == self.compliance.kyc_data.dom()
        &&& forall|a: Seq<u8>| #[trigger]
            kyc.dom().contains(a) ==> {
                let r = kyc[a].value;
                &&& r.subject == a
                &&& r.expiry is None
                &&& {
                    ||| r.status == KycStatus::Pending.code()
                    ||| r.status == KycStatus::Approved.code()
                    ||| r.status == KycStatus::Rejected.code()
                }
                &&& r.reviewed_at is None <==> r.status == KycStatus::Pending.code()
                &&& r.rejection_reason_hash is Some <==> r.status == KycStatus::Rejected.code()
            }
        &&& forall|k: (Seq<u8>, Seq<u8>)| #[trigger]
            checks.dom().contains(k) ==> {
                &&& (checks[k].value.subject, checks[k].value.check_type) == k
                &&& checks[k].value.result <= 1
            }
    }

    /// A cluster is held under its name, and the names are listed once each.
    pub open spec fn clusters_consistent(self) -> bool {
        &&& self.routing.cluster_names.no_duplicates()
        &&& forall|k: Seq<u8>| #[trigger]
            self.routing.clusters.dom().contains(k) <==> self.routing.cluster_names.contains(k)
        &&& forall|k: Seq<u8>| #[trigger]
            self.routing.clusters.dom().contains(k) ==> self.routing.clusters[k].value.name == k
    }

    /// Spans, contexts and traces are held under their request, and the next child
    /// of a trace has an index from one on.
    pub open spec fn tracing_consistent(self) -> bool {
        let tracing = self.tracing;
        &&& forall|k: Seq<u8>| #[trigger]
            tracing.spans.dom().contains(k) ==> tracing.spans[k].value.request_id.id == k
        &&& forall|k: Seq<u8>| #[trigger]
            tracing.requests.dom().contains(k) ==> tracing.requests[k].value.root_request_id.id == k
        &&& forall|k: Seq<u8>| #[trigger]
            tracing.traces.dom().contains(k) ==> {
                &&& tracing.traces[k].value.root_request_id_bytes == k
                &&& tracing.traces[k].value.next_span_index >= 1
            }
    }

    /// Cached metadata is counted, though what has lapsed may still count; the
    /// token settings are in range, and a transaction is held under its number.
    pub open spec fn settings_consistent(self) -> bool {
        &&& self.caches.metadata.dom().finite()
        &&& self.caches.metadata.dom().len() <= self.instance.cache_count
        &&& self.instance.jwt_max_len matches Some(n) ==> 2048 <= n <= 16384
        &&& self.instance.jwt_skew matches Some(n) ==> n <= 300
        &&& forall|id: u64| #[trigger]
            self.transactions.dom().contains(id) ==> self.transactions[id].value.transaction_id
                == id
    }

    /// Everything above.
    pub open spec fn consistent(self) -> bool {
        &&& self.registry_consistent()
        &&& self.attestations_consistent()
        &&& self.sessions_consistent()
        &&& self.quotes_consistent()
        &&& self.anchors_consistent()
        &&& self.clusters_consistent()
        &&& self.compliance_consistent()
        &&& self.tracing_consistent()
        &&& self.settings_consistent()
    }
}

/// A contract without any state is consistent.
pub proof fn fresh_is_consistent(ledger: Ledger, host: HostState)
    ensures
        State::fresh(ledger, host).consistent(),
{
    let s = State::fresh(ledger, host);
    assert(s.registry.attestors.dom() =~= s.registry.public_keys.dom());
    assert(s.compliance.kyc.dom() =~= s.compliance.kyc_data.dom());
    assert(s.registry.attestors.dom() =~= Set::empty());
    assert(s.caches.metadata.dom() =~= Set::empty());
}

/// The registry stays consistent if nothing happens to it.
proof fn registry_same(s: State, t: State)
    requires
        s.registry_consistent(),
        t.registry == s.registry,
        t.instance.attestor_count == s.instance.attestor_count,
    ensures
        t.registry_consistent(),
{
}

#[verifier::rlimit(40)]
proof fn registry_kept(s: State, call: Call)
    requires
        s.registry_consistent(),
        s.refusal(call) is None,
    ensures
        s.effect(call).registry_consistent(),
{
    let t = s.effect(call);
    match call {
        Call::RegisterAttestor { attestor, .. } | Call::RegisterInSession { attestor, .. } => {
            assert(t.registry.attestors.dom() =~= s.registry.attestors.dom().insert(attestor));
            assert(t.registry.public_keys.dom() =~= t.registry.attestors.dom());
        },
        Call::RevokeAttestor { attestor } | Call::RevokeInSession { attestor, .. } => {
            assert(t.registry.attestors.dom() =~= s.registry.attestors.dom().remove(attestor));
            assert(t.registry.public_keys.dom() =~= t.registry.attestors.dom());
        },
        Call::SetSep10Key { .. } | Call::SetEndpoint { .. } | Call::RegisterWebhook { .. }
        | Call::ConfigureServices { .. } => {},
        _ => {
            registry_same(s, t);
        },
    }
}

proof fn record_kept(
    s: State,
    issuer: Seq<u8>,
    subject: Seq<u8>,
    timestamp: u64,
    payload_hash: Seq<u8>,
    signature: Seq<u8>,
)
    requires
        s.attestations_consistent(),
        s.record_refusal(issuer, payload_hash) is None,
        timestamp != 0,
        signature.len() == 64,
    ensures
        s.record_attestation(
            issuer,
            subject,
            timestamp,
            payload_hash,
            signature,
        ).attestations_consistent(),
{
    let t = s.record_attestation(issuer, subject, timestamp, payload_hash, signature);
    let records = t.attestations.records;
    let new_id = s.instance.next_attestation;
    assert forall|i: u64, j: u64|
        #![trigger records.dom().contains(i), records.dom().contains(j)]
        records.dom().contains(i) && records.dom().contains(j) && i != j implies (
    records[i].value.issuer,
    records[i].value.payload_hash,
    ) != (records[j].value.issuer, records[j].value.payload_hash) by {
        assert(s.attestations.records.dom().contains(i) || i == new_id);
        assert(s.attestations.records.dom().contains(j) || j == new_id);
    }
    assert forall|k: (Seq<u8>, Seq<u8>)| #[trigger]
        t.attestations.used.dom().contains(k) implies exists|id: u64| #[trigger]
        records.dom().contains(id) && (records[id].value.issuer, records[id].value.payload_hash)
            == k by {
        if k == (issuer, payload_hash) {
            assert(records.dom().contains(new_id));
        } else {
            assert(s.attestations.used.dom().contains(k));
            let id = choose|id: u64| #[trigger]
                s.attestations.records.dom().contains(id) && (
                s.attestations.records[id].value.issuer,
                s.attestations.records[id].value.payload_hash,
                ) == k;
            assert(id != new_id);
            assert(records.dom().contains(id));
        }
    }
}

/// The attestations stay consistent if nothing happens to them.
proof fn attestations_same(s: State, t: State)
    requires
        s.attestations_consistent(),
        t.attestations == s.attestations,
        t.instance.next_attestation == s.instance.next_attestation,
    ensures
        t.attestations_consistent(),
{
}

#[verifier::rlimit(40)]
proof fn attestations_kept(s: State, call: Call)
    requires
        s.attestations_consistent(),
        s.refusal(call) is None,
    ensures
        s.effect(call).attestations_consistent(),
{
    let t = s.effect(call);
    match call {
        Call::SubmitAttestation { issuer, subject, timestamp, payload_hash, signature } => {
            record_kept(s, issuer, subject, timestamp, payload_hash, signature);
        },
        Call::SubmitKycChecked { issuer, subject, timestamp, payload_hash, signature, .. } => {
            record_kept(s, issuer, subject, timestamp, payload_hash, signature);
        },
        Call::SubmitTraced { issuer, subject, timestamp, payload_hash, signature, .. } => {
            record_kept(s, issuer, subject, timestamp, payload_hash, signature);
        },
        Call::SubmitInSession { issuer, subject, timestamp, payload_hash, signature, .. } => {
            record_kept(s, issuer, subject, timestamp, payload_hash, signature);
        },
        _ => {
            attestations_same(s, t);
        },
    }
}

proof fn log_kept(
    s: State,
    session_id: u64,
    actor: Seq<u8>,
    operation_type: Seq<u8>,
    result_data: u64,
)
    requires
        s.sessions_consistent(),
        s.log_refusal(session_id) is None,
        read(s.sessions.sessions, session_id) is Some,
    ensures
        s.log_operation(session_id, actor, operation_type, result_data).sessions_consistent(),
{
    let t = s.log_operation(session_id, actor, operation_type, result_data);
    assert forall|id: u64| id != session_id implies #[trigger] t.operation_count(id)
        == s.operation_count(id) by {}
    assert forall|a: u64, i: u64| #[trigger] t.sessions.logs.dom().contains((a, i)) implies ({
        let l = t.sessions.logs[(a, i)].value;
        &&& t.sessions.audits.dom().contains(l)
        &&& t.sessions.audits[l].value.session_id == a
        &&& t.sessions.audits[l].value.operation.operation_index == i
    }) by {
        if (a, i) != (session_id, s.operation_count(session_id)) {
            assert(s.sessions.logs.dom().contains((a, i)));
        }
    }
    assert forall|l: u64| #[trigger] t.sessions.audits.dom().contains(l) implies ({
        let e = t.sessions.audits[l].value;
        &&& e.log_id == l
        &&& e.operation.session_id == e.session_id
        &&& read(t.sessions.logs, (e.session_id, e.operation.operation_index)) == Some(l)
    }) by {
        if l != s.instance.next_audit {
            assert(s.sessions.audits.dom().contains(l));
            let e = s.sessions.audits[l].value;
            assert(s.sessions.logs.dom().contains((e.session_id, e.operation.operation_index)));
        }
    }
    assert forall|a: u64, i: u64| #[trigger]
        t.sessions.logs.dom().contains((a, i)) <==> i < t.operation_count(a) by {
        assert(s.sessions.logs.dom().contains((a, i)) <==> i < s.operation_count(a));
    }
}

/// The sessions stay consistent if one of them is replaced by another state of
/// it.
proof fn session_replaced(s: State, t: State, session_id: u64, session: SessionView, ttl: u32)
    requires
        s.sessions_consistent(),
        read(s.sessions.sessions, session_id) is Some,
        session.session_id == session_id,
        session.nonce <= s.operation_count(session_id),
        t.sessions == s.store_session(session_id, session, ttl).sessions,
        t.instance.next_session == s.instance.next_session,
        t.instance.next_audit == s.instance.next_audit,
    ensures
        t.sessions_consistent(),
{
    assert forall|id: u64| #[trigger] t.operation_count(id) == s.operation_count(id) by {}
    assert forall|id: u64| #[trigger] t.sessions.sessions.dom().contains(id) implies {
        &&& t.sessions.sessions[id].value.session_id == id
        &&& t.sessions.sessions[id].value.nonce <= t.operation_count(id)
    } by {
        assert(s.sessions.sessions.dom().contains(id));
    }
}

proof fn new_session_kept(s: State, initiator: Seq<u8>)
    requires
        s.sessions_consistent(),
        s.create_session_refusal(initiator) is None,
    ensures
        s.create_session_effect(initiator).sessions_consistent(),
{
    let t = s.create_session_effect(initiator);
    assert forall|id: u64| #[trigger] t.operation_count(id) == s.operation_count(id) by {}
}

proof fn submission_kept(
    s: State,
    session_id: u64,
    issuer: Seq<u8>,
    subject: Seq<u8>,
    timestamp: u64,
    payload_hash: Seq<u8>,
    signature: Seq<u8>,
)
    requires
        s.sessions_consistent(),
        s.submit_in_session_refusal(
            session_id,
            issuer,
            timestamp,
            payload_hash,
            signature,
        ) is None,
    ensures
        s.submit_in_session_effect(
            session_id,
            issuer,
            subject,
            timestamp,
            payload_hash,
            signature,
        ).sessions_consistent(),
{
    let t = s.submit_in_session_effect(
        session_id,
        issuer,
        subject,
        timestamp,
        payload_hash,
        signature,
    );
    let session = read(s.sessions.sessions, session_id)->0;
    let u = s.spend(issuer, 1).record_attestation(
        issuer,
        subject,
        timestamp,
        payload_hash,
        signature,
    );
    sessions_same(s, u);
    assert(u.operation_count(session_id) == s.operation_count(session_id));
    log_kept(u, session_id, issuer, bytes_of("attest"), s.instance.next_attestation);
    let v = u.log_operation(
        session_id,
        issuer,
        bytes_of("attest"),
        s.instance.next_attestation,
    );
    let next = SessionView { nonce: (session.nonce + 1) as u64, ..session };
    assert(u.sessions.sessions.dom().contains(session_id));
    assert(v.operation_count(session_id) == u.operation_count(session_id) + 1);
    session_replaced(v, t, session_id, next, PERSISTENT_TTL);
}

/// The sessions stay consistent if nothing happens to them.
proof fn sessions_same(s: State, t: State)
    requires
        s.sessions_consistent(),
        t.sessions == s.sessions,
        t.instance.next_session == s.instance.next_session,
        t.instance.next_audit == s.instance.next_audit,
    ensures
        t.sessions_consistent(),
{
    assert forall|id: u64| #[trigger] t.operation_count(id) == s.operation_count(id) by {}
}

#[verifier::rlimit(40)]
proof fn sessions_kept(s: State, call: Call)
    requires
        s.sessions_consistent(),
        s.refusal(call) is None,
    ensures
        s.effect(call).sessions_consistent(),
{
    let t = s.effect(call);
    match call {
        Call::RegisterInSession { session_id, attestor, public_key } => {
            let u = s.add_attestor(attestor, public_key);
            sessions_same(s, u);
            assert(u.operation_count(session_id) == s.operation_count(session_id));
            log_kept(u, session_id, s.instance.admin->0, bytes_of("register"), 0);
            sessions_same(
                u.log_operation(session_id, s.instance.admin->0, bytes_of("register"), 0),
                t,
            );
        },
        Call::RevokeInSession { session_id, attestor } => {
            let u = s.drop_attestor(attestor);
            sessions_same(s, u);
            assert(u.operation_count(session_id) == s.operation_count(session_id));
            log_kept(u, session_id, s.instance.admin->0, bytes_of("revoke"), 0);
            sessions_same(
                u.log_operation(session_id, s.instance.admin->0, bytes_of("revoke"), 0),
                t,
            );
        },
        Call::CreateSession { initiator } => {
            new_session_kept(s, initiator);
        },
        Call::CloseSession { session_id, .. } => {
            let session = read(s.sessions.sessions, session_id)->0;
            assert(s.sessions.sessions.dom().contains(session_id));
            session_replaced(s, t, session_id, SessionView { closed: true, ..session }, 0);
        },
        Call::SubmitInSession {
            session_id,
            issuer,
            subject,
            timestamp,
            payload_hash,
            signature,
        } => {
            submission_kept(s, session_id, issuer, subject, timestamp, payload_hash, signature);
        },
        _ => {
            sessions_same(s, t);
        },
    }
}

proof fn quote_kept(s: State, quote: QuoteView)
    requires
        s.quotes_consistent(),
        quote.quote_id == s.next_quote(),
        s.instance.quote_count < u64::MAX,
        quote.fee_percentage <= BASIS_POINTS,
    ensures
        s.submit_quote_effect(quote).quotes_consistent(),
{
    let t = s.submit_quote_effect(quote);
    let quotes = t.routing.quotes;
    let latest = t.routing.latest;
    assert forall|a: Seq<u8>, id: u64| #[trigger] quotes.dom().contains((a, id)) implies {
        let q = quotes[(a, id)].value;
        &&& q.anchor == a
        &&& q.quote_id == id
        &&& 1 <= id <= t.instance.quote_count
        &&& q.fee_percentage <= BASIS_POINTS
        &&& latest.dom().contains(a)
        &&& id <= latest[a].value
    } by {
        if (a, id) != (quote.anchor, quote.quote_id) {
            assert(s.routing.quotes.dom().contains((a, id)));
        }
    }
    assert forall|a: Seq<u8>| #[trigger] latest.dom().contains(a) implies quotes.dom().contains(
        (a, latest[a].value),
    ) by {
        if a != quote.anchor {
            assert(s.routing.latest.dom().contains(a));
        }
    }
}

/// The quotes stay consistent if nothing happens to them.
proof fn quotes_same(s: State, t: State)
    requires
        s.quotes_consistent(),
        t.routing.quotes == s.routing.quotes,
        t.routing.latest == s.routing.latest,
        t.instance.quote_count == s.instance.quote_count,
    ensures
        t.quotes_consistent(),
{
}

#[verifier::rlimit(40)]
proof fn quotes_kept(s: State, call: Call)
    requires
        s.quotes_consistent(),
        s.refusal(call) is None,
    ensures
        s.effect(call).quotes_consistent(),
{
    let t = s.effect(call);
    match call {
        Call::SubmitQuote { quote } => {
            quote_kept(s, QuoteView { quote_id: s.next_quote(), ..quote });
        },
        _ => {
            quotes_same(s, t);
        },
    }
}

proof fn anchor_kept(s: State, meta: RoutingAnchorMetaView)
    requires
        s.anchors_consistent(),
    ensures
        s.set_meta_effect(meta).anchors_consistent(),
{
    let t = s.set_meta_effect(meta);
    let before = s.routing.anchors;
    if !before.contains(meta.anchor) {
        assert(t.routing.anchors == before.push(meta.anchor));
        assert forall|a: Seq<u8>| before.contains(a) implies #[trigger]
            t.routing.anchors.contains(a) by {
            let i = before.index_of(a);
            assert(t.routing.anchors[i] == a);
        }
        assert(t.routing.anchors[before.len() as int] == meta.anchor);
        assert forall|i: int| 0 <= i < before.len() implies #[trigger] before[i] != meta.anchor by {
            assert(before.contains(before[i]));
        }
    }
    assert forall|a: Seq<u8>| #[trigger] t.blacklisted(a) implies s.blacklisted(a) by {}
    assert forall|a: Seq<u8>| #[trigger]
        t.routing.metas.dom().contains(a) <==> t.routing.anchors.contains(a) by {
        assert(s.routing.metas.dom().contains(a) <==> before.contains(a));
    }
}

/// The anchors stay consistent if nothing happens to them.
proof fn anchors_same(s: State, t: State)
    requires
        s.anchors_consistent(),
        t.routing.anchors == s.routing.anchors,
        t.routing.metas == s.routing.metas,
        t.routing.blacklist == s.routing.blacklist,
    ensures
        t.anchors_consistent(),
{
    assert forall|a: Seq<u8>| #[trigger] t.blacklisted(a) implies s.blacklisted(a) by {}
}

proof fn reactivation_kept(s: State, anchor: Seq<u8>)
    requires
        s.anchors_consistent(),
        s.reactivate_refusal(anchor) is None,
    ensures
        s.reactivate_effect(anchor).anchors_consistent(),
{
    let t = s.reactivate_effect(anchor);
    assert(s.routing.metas.dom().contains(anchor));
    assert forall|a: Seq<u8>| #[trigger]
        t.routing.metas.dom().contains(a) implies s.routing.metas.dom().contains(a) by {}
    assert forall|a: Seq<u8>| #[trigger] t.blacklisted(a) implies s.blacklisted(a) by {}
    assert forall|a: Seq<u8>| #[trigger]
        t.routing.metas.dom().contains(a) <==> t.routing.anchors.contains(a) by {
        assert(s.routing.metas.dom().contains(a) <==> s.routing.anchors.contains(a));
    }
}

proof fn blacklist_kept(s: State, t: State, anchor: Seq<u8>)
    requires
        s.anchors_consistent(),
        t.routing.anchors == s.routing.anchors,
        t.routing.metas == s.routing.metas,
        forall|a: Seq<u8>| #[trigger]
            t.blacklisted(a) && a != anchor ==> s.blacklisted(a) && t.routing.blacklist[a]
                == s.routing.blacklist[a],
        t.blacklisted(anchor) ==> t.routing.blacklist[anchor].value.anchor == anchor,
    ensures
        t.anchors_consistent(),
{
}

#[verifier::rlimit(40)]
proof fn anchors_kept(s: State, call: Call)
    requires
        s.anchors_consistent(),
        s.refusal(call) is None,
    ensures
        s.effect(call).anchors_consistent(),
{
    let t = s.effect(call);
    match call {
        Call::SetMeta { meta } => {
            anchor_kept(s, RoutingAnchorMetaView { is_active: true, ..meta });
        },
        Call::Reactivate { anchor } => {
            reactivation_kept(s, anchor);
        },
        Call::Blacklist { anchor } | Call::Unblacklist { anchor } => {
            blacklist_kept(s, t, anchor);
        },
        _ => {
            anchors_same(s, t);
        },
    }
}

proof fn cluster_kept(s: State, name: Seq<u8>, anchors: Seq<Seq<u8>>)
    requires
        s.clusters_consistent(),
        s.create_cluster_refusal(name) is None,
    ensures
        s.create_cluster_effect(name, anchors).clusters_consistent(),
{
    let t = s.create_cluster_effect(name, anchors);
    let before = s.routing.cluster_names;
    assert(!s.routing.clusters.dom().contains(name));
    assert forall|i: int| 0 <= i < before.len() implies #[trigger] before[i] != name by {
        assert(before.contains(before[i]));
    }
    assert forall|k: Seq<u8>| before.contains(k) implies #[trigger]
        t.routing.cluster_names.contains(k) by {
        let i = before.index_of(k);
        assert(t.routing.cluster_names[i] == k);
    }
    assert(t.routing.cluster_names[before.len() as int] == name);
    assert forall|k: Seq<u8>| #[trigger]
        t.routing.clusters.dom().contains(k) <==> t.routing.cluster_names.contains(k) by {
        assert(s.routing.clusters.dom().contains(k) <==> before.contains(k));
    }
}

/// The clusters stay consistent if nothing happens to them.
proof fn clusters_same(s: State, t: State)
    requires
        s.clusters_consistent(),
        t.routing.clusters == s.routing.clusters,
        t.routing.cluster_names == s.routing.cluster_names,
    ensures
        t.clusters_consistent(),
{
}

#[verifier::rlimit(40)]
proof fn clusters_kept(s: State, call: Call)
    requires
        s.clusters_consistent(),
        s.refusal(call) is None,
    ensures
        s.effect(call).clusters_consistent(),
{
    let t = s.effect(call);
    match call {
        Call::CreateCluster { name, anchors } => {
            cluster_kept(s, name, anchors);
        },
        _ => {
            clusters_same(s, t);
        },
    }
}

proof fn review_kept(s: State, subject: Seq<u8>, record: KycRecordView)
    requires
        s.compliance_consistent(),
        record.subject == subject,
        record.expiry is None,
        record.status == KycStatus::Approved.code() || record.status == KycStatus::Rejected.code(),
        record.reviewed_at is Some,
        record.rejection_reason_hash is Some <==> record.status == KycStatus::Rejected.code(),
        read(s.compliance.kyc, subject) is Some,
    ensures
        s.store_kyc(subject, record).compliance_consistent(),
{
    let t = s.store_kyc(subject, record);
    assert(t.compliance.kyc.dom() =~= s.compliance.kyc.dom());
    assert forall|k: (Seq<u8>, Seq<u8>)| #[trigger]
        t.compliance.checks.dom().contains(k) implies s.compliance.checks.dom().contains(k) by {}
}

proof fn submission_of_kyc_kept(s: State, subject: Seq<u8>, data_hash: Seq<u8>)
    requires
        s.compliance_consistent(),
    ensures
        s.submit_kyc_effect(subject, data_hash).compliance_consistent(),
{
    let t = s.submit_kyc_effect(subject, data_hash);
    assert(t.compliance.kyc.dom() =~= s.compliance.kyc.dom().insert(subject));
    assert(t.compliance.kyc_data.dom() =~= t.compliance.kyc.dom());
    assert forall|k: (Seq<u8>, Seq<u8>)| #[trigger]
        t.compliance.checks.dom().contains(k) implies s.compliance.checks.dom().contains(k) by {}
}

proof fn check_kept(s: State, subject: Seq<u8>, check_type: Seq<u8>, passed: bool)
    requires
        s.compliance_consistent(),
    ensures
        s.record_check_effect(subject, check_type, passed).compliance_consistent(),
{
    let t = s.record_check_effect(subject, check_type, passed);
    assert forall|k: (Seq<u8>, Seq<u8>)| #[trigger] t.compliance.checks.dom().contains(k) implies {
        &&& (t.compliance.checks[k].value.subject, t.compliance.checks[k].value.check_type) == k
        &&& t.compliance.checks[k].value.result <= 1
    } by {
        if k != (subject, check_type) {
            assert(s.compliance.checks.dom().contains(k));
        }
    }
}

/// The reviews and checks stay consistent if nothing happens to them.
proof fn compliance_same(s: State, t: State)
    requires
        s.compliance_consistent(),
        t.compliance == s.compliance,
    ensures
        t.compliance_consistent(),
{
}

#[verifier::rlimit(40)]
proof fn compliance_kept(s: State, call: Call)
    requires
        s.compliance_consistent(),
        s.refusal(call) is None,
    ensures
        s.effect(call).compliance_consistent(),
{
    let t = s.effect(call);
    match call {
        Call::SubmitKyc { subject, data_hash, .. } => {
            submission_of_kyc_kept(s, subject, data_hash);
        },
        Call::ApproveKyc { subject } => {
            assert(s.compliance.kyc.dom().contains(subject));
            let record = KycRecordView {
                status: KycStatus::Approved.code(),
                reviewed_at: Some(s.now()),
                ..read(s.compliance.kyc, subject)->0
            };
            review_kept(s, subject, record);
            compliance_same(s.store_kyc(subject, record), t);
        },
        Call::RejectKyc { subject, reason_hash } => {
            assert(s.compliance.kyc.dom().contains(subject));
            let record = KycRecordView {
                status: KycStatus::Rejected.code(),
                reviewed_at: Some(s.now()),
                rejection_reason_hash: Some(reason_hash),
                ..read(s.compliance.kyc, subject)->0
            };
            review_kept(s, subject, record);
            compliance_same(s.store_kyc(subject, record), t);
        },
        Call::RecordCheck { subject, check_type, passed } => {
            check_kept(s, subject, check_type, passed);
        },
        _ => {
            compliance_same(s, t);
        },
    }
}

proof fn span_kept(
    s: State,
    request_id: RequestIdView,
    operation: Seq<u8>,
    actor: Seq<u8>,
    parent: Seq<u8>,
    span_index: u32,
)
    requires
        s.tracing_consistent(),
    ensures
        s.store_span(request_id, operation, actor, parent, span_index).tracing_consistent(),
{
}

proof fn context_kept(s: State, root: Seq<u8>, context: RequestContextView)
    requires
        s.tracing_consistent(),
        context.root_request_id.id == root,
    ensures
        s.store_context(root, context).tracing_consistent(),
{
}

proof fn operation_kept(s: State, root: Seq<u8>, name: Seq<u8>)
    requires
        s.tracing_consistent(),
    ensures
        s.append_operation(root, name).tracing_consistent(),
{
    let context = s.context_of(root);
    assert(context.root_request_id.id == root) by {
        if s.tracing.requests.dom().contains(root) {
        }
    }
    context_kept(
        s,
        root,
        RequestContextView { operation_chain: context.operation_chain.push(name), ..context },
    );
}

proof fn child_kept(
    s: State,
    parent: RequestIdView,
    child: RequestIdView,
    operation: Seq<u8>,
    actor: Seq<u8>,
)
    requires
        s.tracing_consistent(),
        s.propagate_span_refusal(parent, actor) is None,
    ensures
        s.propagate_span_effect(parent, child, operation, actor).tracing_consistent(),
{
}

/// The traces stay consistent if nothing happens to them.
proof fn tracing_same(s: State, t: State)
    requires
        s.tracing_consistent(),
        t.tracing == s.tracing,
    ensures
        t.tracing_consistent(),
{
}

#[verifier::rlimit(40)]
proof fn tracing_kept(s: State, call: Call)
    requires
        s.tracing_consistent(),
        s.refusal(call) is None,
    ensures
        s.effect(call).tracing_consistent(),
{
    let t = s.effect(call);
    match call {
        Call::SubmitTraced {
            request_id,
            issuer,
            subject,
            timestamp,
            payload_hash,
            signature,
        } => {
            let u = s.spend(issuer, 1).record_attestation(
                issuer,
                subject,
                timestamp,
                payload_hash,
                signature,
            );
            let name = bytes_of("submit_attestation");
            tracing_same(s, u);
            span_kept(u, request_id, name, issuer, Seq::empty(), 0);
            let v = u.store_span(request_id, name, issuer, Seq::empty(), 0);
            operation_kept(v, request_id.id, name);
            tracing_same(v.append_operation(request_id.id, name), t);
        },
        Call::TraceQuote { request_id, anchor } => {
            let name = bytes_of("submit_quote");
            span_kept(s, request_id, name, anchor, Seq::empty(), 0);
            let v = s.store_span(request_id, name, anchor, Seq::empty(), 0);
            operation_kept(v, request_id.id, name);
        },
        Call::PropagateSpan { parent, child, operation, actor } => {
            child_kept(s, parent, child, operation, actor);
        },
        Call::CreateContext { root } => {
            context_kept(s, root.id, s.new_context(root));
        },
        Call::AppendOperation { root, name } => {
            operation_kept(s, root, name);
        },
        _ => {
            tracing_same(s, t);
        },
    }
}

/// The settings stay consistent if nothing happens to them.
proof fn settings_same(s: State, t: State)
    requires
        s.settings_consistent(),
        t.caches.metadata == s.caches.metadata,
        t.transactions == s.transactions,
        t.instance.cache_count == s.instance.cache_count,
        t.instance.jwt_max_len == s.instance.jwt_max_len,
        t.instance.jwt_skew == s.instance.jwt_skew,
    ensures
        t.settings_consistent(),
{
}

#[verifier::rlimit(40)]
proof fn settings_kept(s: State, call: Call)
    requires
        s.settings_consistent(),
        s.refusal(call) is None,
    ensures
        s.effect(call).settings_consistent(),
{
    let t = s.effect(call);
    match call {
        Call::CacheMetadata { anchor, .. } => {
            assert(t.caches.metadata.dom() =~= s.caches.metadata.dom().insert(anchor));
        },
        Call::RefreshMetadata { anchor, metadata, .. } => {
            if !s.already_cached(anchor, metadata) {
                assert(t.caches.metadata.dom() =~= s.caches.metadata.dom().insert(anchor));
            }
        },
        Call::DropMetadata { anchor } => {
            assert(t.caches.metadata.dom() =~= s.caches.metadata.dom().remove(anchor));
        },
        Call::ServeMetadata { anchor } => {
            assert(t.caches.metadata.dom() =~= s.caches.metadata.dom());
        },
        Call::SetJwtMaxLen { .. } | Call::SetJwtSkew { .. } | Call::CreateTransaction { .. } => {},
        _ => {
            settings_same(s, t);
        },
    }
}

/// Every call keeps the state consistent.
pub proof fn call_keeps_consistency(s: State, call: Call)
    requires
        s.consistent(),
    ensures
        s.after(call).consistent(),
{
    if s.refusal(call) is None {
        registry_kept(s, call);
        attestations_kept(s, call);
        sessions_kept(s, call);
        quotes_kept(s, call);
        anchors_kept(s, call);
        clusters_kept(s, call);
        compliance_kept(s, call);
        tracing_kept(s, call);
        settings_kept(s, call);
    }
}

/// The passage of time keeps the state consistent, whatever lapses with it.
pub proof fn moment_keeps_consistency(s: State, moment: Moment)
    requires
        s.consistent(),
    ensures
        s.at(moment).consistent(),
{
    let t = s.at(moment);
    sessions_same(s, t);
    anchors_same(s, t);
    assert(t.caches.metadata.dom().subset_of(s.caches.metadata.dom()));
    lemma_len_subset(t.caches.metadata.dom(), s.caches.metadata.dom());
}

/// Every state that calls lead to, starting without any state, is consistent.
pub proof fn reachable_is_consistent(ledger: Ledger, host: HostState, calls: Seq<(Moment, Call)>)
    ensures
        State::fresh(ledger, host).run(calls).consistent(),
    decreases calls.len(),
{
    if calls.len() == 0 {
        fresh_is_consistent(ledger, host);
    } else {
        reachable_is_consistent(ledger, host, calls.drop_last());
        let before = State::fresh(ledger, host).run(calls.drop_last());
        moment_keeps_consistency(before, calls.last().0);
        call_keeps_consistency(before.at(calls.last().0), calls.last().1);
    }
}

} // verus!
