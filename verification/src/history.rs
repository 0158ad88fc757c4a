//! What calls and the passage of time never undo.

use crate::calls::{Call, Moment};
use crate::consistency::{call_keeps_consistency, moment_keeps_consistency};
use crate::env::State;
use crate::table::{put, read, Stored};
use crate::types::{ErrorCode, KycStatus, RequestIdView, PERSISTENT_TTL, REPLAY_TTL};
use vstd::prelude::*;

verus! {

/// Whether what is held in `before` is held unchanged in `after`.
pub open spec fn values_kept<K, V>(before: Map<K, Stored<V>>, after: Map<K, Stored<V>>) -> bool {
    forall|k: K| #[trigger]
        before.dom().contains(k) ==> after.dom().contains(k) && after[k].value == before[k].value
}

impl State {
    /// The records that are never rewritten: attestations, the marks of attested
    /// payloads, audit entries and their index, quotes, and clusters.
    pub open spec fn records_kept(self, later: State) -> bool {
        &&& values_kept(self.attestations.records, later.attestations.records)
        &&& values_kept(self.attestations.used, later.attestations.used)
        &&& values_kept(self.sessions.audits, later.sessions.audits)
        &&& values_kept(self.sessions.logs, later.sessions.logs)
        &&& values_kept(self.routing.quotes, later.routing.quotes)
        &&& values_kept(self.routing.clusters, later.routing.clusters)
    }

    /// Counters do not go back.
    pub open spec fn counters_kept(self, later: State) -> bool {
        &&& self.instance.next_attestation <= later.instance.next_attestation
        &&& self.instance.next_session <= later.instance.next_session
        &&& self.instance.next_audit <= later.instance.next_audit
        &&& self.instance.quote_count <= later.instance.quote_count
        &&& forall|id: u64| #[trigger]
            self.operation_count(id) <= later.operation_count(id)
    }

    /// The administrator stays, the version only advances in its patch level,
    /// and a migration that has run stays marked.
    pub open spec fn administration_kept(self, later: State) -> bool {
        &&& self.instance.admin is Some ==> later.instance.admin == self.instance.admin
        &&& self.version().major == later.version().major
        &&& self.version().minor == later.version().minor
        &&& self.version().patch <= later.version().patch
        &&& values_kept(self.instance.migrated, later.instance.migrated)
    }

    /// A session keeps its initiator, start and lifetime, its nonce does not go
    /// back, and once closed it stays closed.
    pub open spec fn sessions_kept_open_or_closed(self, later: State) -> bool {
        forall|id: u64| #[trigger]
            self.sessions.sessions.dom().contains(id) ==> {
                let a = self.sessions.sessions[id].value;
                let b = later.sessions.sessions[id].value;
                &&& later.sessions.sessions.dom().contains(id)
                &&& b.initiator == a.initiator
                &&& b.created_at == a.created_at
                &&& b.session_ttl_seconds == a.session_ttl_seconds
                &&& a.nonce <= b.nonce
                &&& a.closed ==> b.closed
            }
    }

    /// A KYC review stays, keeps its date of submission, and once it is decided
    /// it does not change.
    pub open spec fn reviews_kept(self, later: State) -> bool {
        forall|a: Seq<u8>| #[trigger]
            self.compliance.kyc.dom().contains(a) ==> {
                let x = self.compliance.kyc[a].value;
                let y = later.compliance.kyc[a].value;
                &&& later.compliance.kyc.dom().contains(a)
                &&& y.submitted_at == x.submitted_at
                &&& x.status != KycStatus::Pending.code() ==> y == x
            }
    }

    /// Announcements are only added.
    pub open spec fn events_kept(self, later: State) -> bool {
        &&& self.events.len() <= later.events.len()
        &&& self.events == later.events.take(self.events.len() as int)
    }

    /// Anchors that are known stay listed, each at its place.
    pub open spec fn anchors_stay_listed(self, later: State) -> bool {
        &&& self.routing.anchors.len() <= later.routing.anchors.len()
        &&& self.routing.anchors == later.routing.anchors.take(self.routing.anchors.len() as int)
    }

    /// Everything above.
    pub open spec fn history_kept(self, later: State) -> bool {
        &&& self.records_kept(later)
        &&& self.counters_kept(later)
        &&& self.administration_kept(later)
        &&& self.sessions_kept_open_or_closed(later)
        &&& self.reviews_kept(later)
        &&& self.events_kept(later)
        &&& self.anchors_stay_listed(later)
    }
}

/// What is held stays if an entry is added under a new key.
proof fn added_under_new_key<K, V>(m: Map<K, Stored<V>>, key: K, value: V, ttl: u32)
    requires
        !m.dom().contains(key),
    ensures
        values_kept(m, put(m, key, value, ttl)),
{
}

#[verifier::rlimit(40)]
proof fn call_keeps_attestations(s: State, call: Call)
    requires
        s.consistent(),
        s.refusal(call) is None,
    ensures
        values_kept(s.attestations.records, s.effect(call).attestations.records),
        values_kept(s.attestations.used, s.effect(call).attestations.used),
{
    let t = s.effect(call);
    let id = s.instance.next_attestation;
    assert(!s.attestations.records.dom().contains(id));
    match call {
        Call::SubmitAttestation { issuer, timestamp, payload_hash, .. }
        | Call::SubmitKycChecked { issuer, timestamp, payload_hash, .. }
        | Call::SubmitTraced { issuer, timestamp, payload_hash, .. }
        | Call::SubmitInSession { issuer, timestamp, payload_hash, .. } => {
            let record = t.attestations.records[id].value;
            added_under_new_key(s.attestations.records, id, record, PERSISTENT_TTL);
            added_under_new_key(
                s.attestations.used,
                (issuer, payload_hash),
                timestamp,
                REPLAY_TTL,
            );
        },
        _ => {
            assert(t.attestations == s.attestations);
        },
    }
}

#[verifier::rlimit(40)]
proof fn call_keeps_logs(s: State, call: Call)
    requires
        s.consistent(),
        s.refusal(call) is None,
    ensures
        values_kept(s.sessions.audits, s.effect(call).sessions.audits),
        values_kept(s.sessions.logs, s.effect(call).sessions.logs),
{
    let t = s.effect(call);
    let id = s.instance.next_audit;
    assert(!s.sessions.audits.dom().contains(id));
    match call {
        Call::SubmitInSession { session_id, .. } | Call::RegisterInSession { session_id, .. }
        | Call::RevokeInSession { session_id, .. } => {
            let key = (session_id, s.operation_count(session_id));
            assert(!s.sessions.logs.dom().contains(key));
            let entry = t.sessions.audits[id].value;
            added_under_new_key(s.sessions.audits, id, entry, PERSISTENT_TTL);
            added_under_new_key(s.sessions.logs, key, id, PERSISTENT_TTL);
        },
        _ => {
            assert(t.sessions.audits == s.sessions.audits);
            assert(t.sessions.logs == s.sessions.logs);
        },
    }
}

#[verifier::rlimit(40)]
proof fn call_keeps_quotes(s: State, call: Call)
    requires
        s.consistent(),
        s.refusal(call) is None,
    ensures
        values_kept(s.routing.quotes, s.effect(call).routing.quotes),
{
    let t = s.effect(call);
    match call {
        Call::SubmitQuote { quote } => {
            let key = (quote.anchor, s.next_quote());
            assert(!s.routing.quotes.dom().contains(key));
            let stored = t.routing.quotes[key].value;
            added_under_new_key(s.routing.quotes, key, stored, PERSISTENT_TTL);
        },
        _ => {
            assert(t.routing.quotes == s.routing.quotes);
        },
    }
}

#[verifier::rlimit(40)]
proof fn call_keeps_clusters(s: State, call: Call)
    requires
        s.refusal(call) is None,
    ensures
        values_kept(s.routing.clusters, s.effect(call).routing.clusters),
{
    let t = s.effect(call);
    match call {
        Call::CreateCluster { name, .. } => {
            assert(!s.routing.clusters.dom().contains(name));
            let stored = t.routing.clusters[name].value;
            added_under_new_key(s.routing.clusters, name, stored, PERSISTENT_TTL);
        },
        _ => {
            assert(t.routing.clusters == s.routing.clusters);
        },
    }
}

/// The counts of operations do not go back if one of them goes up.
proof fn counts_kept(s: State, t: State, session_id: u64)
    requires
        s.operation_count(session_id) < u64::MAX,
        t.sessions.operation_counts == put(
            s.sessions.operation_counts,
            session_id,
            (s.operation_count(session_id) + 1) as u64,
            PERSISTENT_TTL,
        ),
    ensures
        forall|id: u64| #[trigger] s.operation_count(id) <= t.operation_count(id),
{
}

#[verifier::rlimit(40)]
proof fn call_keeps_counters(s: State, call: Call)
    requires
        s.refusal(call) is None,
    ensures
        s.counters_kept(s.effect(call)),
{
    let t = s.effect(call);
    match call {
        Call::SubmitInSession { session_id, .. } | Call::RegisterInSession { session_id, .. }
        | Call::RevokeInSession { session_id, .. } => {
            counts_kept(s, t, session_id);
        },
        _ => {
            assert(t.sessions.operation_counts == s.sessions.operation_counts);
            assert forall|id: u64| #[trigger] s.operation_count(id) <= t.operation_count(id) by {}
        },
    }
}

#[verifier::rlimit(40)]
proof fn call_keeps_administration(s: State, call: Call)
    requires
        s.refusal(call) is None,
    ensures
        s.administration_kept(s.effect(call)),
{
    let t = s.effect(call);
    match call {
        Call::Initialize { .. } | Call::Upgrade { .. } | Call::Migrate => {},
        _ => {
            assert(t.instance.admin == s.instance.admin);
            assert(t.instance.version == s.instance.version);
            assert(t.instance.migrated == s.instance.migrated);
        },
    }
}

#[verifier::rlimit(40)]
proof fn call_keeps_sessions(s: State, call: Call)
    requires
        s.consistent(),
        s.refusal(call) is None,
    ensures
        s.sessions_kept_open_or_closed(s.effect(call)),
{
    let t = s.effect(call);
    match call {
        Call::CreateSession { .. } => {
            assert(!s.sessions.sessions.dom().contains(s.instance.next_session));
        },
        Call::CloseSession { .. } | Call::SubmitInSession { .. } => {},
        _ => {
            assert(t.sessions.sessions == s.sessions.sessions);
        },
    }
}

#[verifier::rlimit(40)]
proof fn call_keeps_reviews(s: State, call: Call)
    requires
        s.refusal(call) is None,
    ensures
        s.reviews_kept(s.effect(call)),
{
    let t = s.effect(call);
    match call {
        Call::SubmitKyc { .. } | Call::ApproveKyc { .. } | Call::RejectKyc { .. } => {},
        _ => {
            assert(t.compliance.kyc == s.compliance.kyc);
        },
    }
}

#[verifier::rlimit(40)]
proof fn call_keeps_events(s: State, call: Call)
    requires
        s.refusal(call) is None,
    ensures
        s.events_kept(s.effect(call)),
{
    let t = s.effect(call);
    assert(t.events.take(s.events.len() as int) =~= s.events);
}

#[verifier::rlimit(40)]
proof fn call_keeps_anchors(s: State, call: Call)
    requires
        s.refusal(call) is None,
    ensures
        s.anchors_stay_listed(s.effect(call)),
{
    let t = s.effect(call);
    match call {
        Call::SetMeta { .. } => {},
        _ => {
            assert(t.routing.anchors == s.routing.anchors);
        },
    }
    assert(t.routing.anchors.take(s.routing.anchors.len() as int) =~= s.routing.anchors);
}

/// A call keeps the history.
pub proof fn call_keeps_history(s: State, call: Call)
    requires
        s.consistent(),
    ensures
        s.history_kept(s.after(call)),
{
    match s.refusal(call) {
        None => {
            call_keeps_attestations(s, call);
            call_keeps_logs(s, call);
            call_keeps_quotes(s, call);
            call_keeps_clusters(s, call);
            call_keeps_counters(s, call);
            call_keeps_administration(s, call);
            call_keeps_sessions(s, call);
            call_keeps_reviews(s, call);
            call_keeps_events(s, call);
            call_keeps_anchors(s, call);
        },
        Some(_) => {
            assert(s.routing.anchors.take(s.routing.anchors.len() as int) =~= s.routing.anchors);
            assert(s.events.take(s.events.len() as int) =~= s.events);
        },
    }
}

/// The passage of time keeps the history.
pub proof fn moment_keeps_history(s: State, moment: Moment)
    ensures
        s.history_kept(s.at(moment)),
{
    assert(s.routing.anchors.take(s.routing.anchors.len() as int) =~= s.routing.anchors);
    assert(s.events.take(s.events.len() as int) =~= s.events);
    assert forall|id: u64| #[trigger] s.operation_count(id) <= s.at(moment).operation_count(
        id,
    ) by {}
}

/// What is kept from one state to a second, and from there to a third, is kept
/// from the first to the third.
proof fn history_kept_in_two_steps(a: State, b: State, c: State)
    requires
        a.history_kept(b),
        b.history_kept(c),
    ensures
        a.history_kept(c),
{
    assert forall|id: u64| #[trigger] a.operation_count(id) <= c.operation_count(id) by {
        assert(a.operation_count(id) <= b.operation_count(id));
        assert(b.operation_count(id) <= c.operation_count(id));
    }
    assert(a.events =~= c.events.take(a.events.len() as int)) by {
        assert(b.events.take(a.events.len() as int) == a.events);
        assert(c.events.take(b.events.len() as int) == b.events);
        assert(c.events.take(b.events.len() as int).take(a.events.len() as int)
            =~= c.events.take(a.events.len() as int));
    }
    assert(a.routing.anchors =~= c.routing.anchors.take(a.routing.anchors.len() as int)) by {
        let n = a.routing.anchors.len() as int;
        let m = b.routing.anchors.len() as int;
        assert(b.routing.anchors.take(n) == a.routing.anchors);
        assert(c.routing.anchors.take(m) == b.routing.anchors);
        assert(c.routing.anchors.take(m).take(n) =~= c.routing.anchors.take(n));
    }
    assert forall|k: Seq<u8>| #[trigger] a.compliance.kyc.dom().contains(k) implies ({
        let x = a.compliance.kyc[k].value;
        let y = c.compliance.kyc[k].value;
        &&& c.compliance.kyc.dom().contains(k)
        &&& y.submitted_at == x.submitted_at
        &&& x.status != KycStatus::Pending.code() ==> y == x
    }) by {
        assert(b.compliance.kyc.dom().contains(k));
    }
    assert forall|id: u64| #[trigger] a.sessions.sessions.dom().contains(id) implies ({
        let x = a.sessions.sessions[id].value;
        let y = c.sessions.sessions[id].value;
        &&& c.sessions.sessions.dom().contains(id)
        &&& y.initiator == x.initiator
        &&& y.created_at == x.created_at
        &&& y.session_ttl_seconds == x.session_ttl_seconds
        &&& x.nonce <= y.nonce
        &&& x.closed ==> y.closed
    }) by {
        assert(b.sessions.sessions.dom().contains(id));
    }
    values_kept_in_two_steps(
        a.attestations.records,
        b.attestations.records,
        c.attestations.records,
    );
    values_kept_in_two_steps(a.attestations.used, b.attestations.used, c.attestations.used);
    values_kept_in_two_steps(a.sessions.audits, b.sessions.audits, c.sessions.audits);
    values_kept_in_two_steps(a.sessions.logs, b.sessions.logs, c.sessions.logs);
    values_kept_in_two_steps(a.routing.quotes, b.routing.quotes, c.routing.quotes);
    values_kept_in_two_steps(a.routing.clusters, b.routing.clusters, c.routing.clusters);
    values_kept_in_two_steps(a.instance.migrated, b.instance.migrated, c.instance.migrated);
}

proof fn values_kept_in_two_steps<K, V>(
    a: Map<K, Stored<V>>,
    b: Map<K, Stored<V>>,
    c: Map<K, Stored<V>>,
)
    requires
        values_kept(a, b),
        values_kept(b, c),
    ensures
        values_kept(a, c),
{
    assert forall|k: K| #[trigger] a.dom().contains(k) implies c.dom().contains(k) && c[k].value
        == a[k].value by {
        assert(b.dom().contains(k));
    }
}

/// Calls keep the history, however many there are.
pub proof fn calls_keep_history(s: State, calls: Seq<(Moment, Call)>)
    requires
        s.consistent(),
    ensures
        s.run(calls).consistent(),
        s.history_kept(s.run(calls)),
    decreases calls.len(),
{
    if calls.len() == 0 {
        assert(s.routing.anchors.take(s.routing.anchors.len() as int) =~= s.routing.anchors);
        assert(s.events.take(s.events.len() as int) =~= s.events);
        assert forall|id: u64| #[trigger] s.operation_count(id) <= s.run(calls).operation_count(
            id,
        ) by {}
    } else {
        let before = s.run(calls.drop_last());
        let moment = calls.last().0;
        let call = calls.last().1;
        calls_keep_history(s, calls.drop_last());
        moment_keeps_consistency(before, moment);
        moment_keeps_history(before, moment);
        history_kept_in_two_steps(s, before, before.at(moment));
        call_keeps_consistency(before.at(moment), call);
        call_keeps_history(before.at(moment), call);
        history_kept_in_two_steps(s, before.at(moment), before.at(moment).after(call));
    }
}

/// A payload is attested by an issuer once: after any later calls, an attempt to
/// attest it again is refused in each of the four forms of submission, and
/// recording it is refused as a replay.
pub proof fn replay_is_refused(
    s: State,
    calls: Seq<(Moment, Call)>,
    moment: Moment,
    request_id: RequestIdView,
    session_id: u64,
    issuer: Seq<u8>,
    subject: Seq<u8>,
    timestamp: u64,
    payload_hash: Seq<u8>,
    signature: Seq<u8>,
    require_kyc: bool,
)
    requires
        s.consistent(),
        s.attested(issuer, payload_hash),
    ensures
        ({
            let t = s.run(calls).at(moment);
            &&& t.record_refusal(issuer, payload_hash) == Some(ErrorCode::ReplayAttack)
            &&& t.refusal(
                Call::SubmitAttestation { issuer, subject, timestamp, payload_hash, signature },
            ) is Some
            &&& t.refusal(
                Call::SubmitKycChecked {
                    issuer,
                    subject,
                    timestamp,
                    payload_hash,
                    signature,
                    require_kyc,
                },
            ) is Some
            &&& t.refusal(
                Call::SubmitTraced {
                    request_id,
                    issuer,
                    subject,
                    timestamp,
                    payload_hash,
                    signature,
                },
            ) is Some
            &&& t.refusal(
                Call::SubmitInSession {
                    session_id,
                    issuer,
                    subject,
                    timestamp,
                    payload_hash,
                    signature,
                },
            ) is Some
        }),
{
    calls_keep_history(s, calls);
    assert(s.attestations.used.dom().contains((issuer, payload_hash)));
    assert(s.run(calls).at(moment).attested(issuer, payload_hash));
}

/// Once there is an administrator, `initialize` is refused after any later
/// calls, and the administrator stays.
pub proof fn initialization_is_once(
    s: State,
    calls: Seq<(Moment, Call)>,
    moment: Moment,
    admin: Seq<u8>,
)
    requires
        s.consistent(),
        s.instance.admin is Some,
    ensures
        ({
            let t = s.run(calls).at(moment);
            &&& t.instance.admin == s.instance.admin
            &&& t.initialize_refusal(admin) is Some
            &&& t.authorized(admin) ==> t.initialize_refusal(admin) == Some(
                ErrorCode::AlreadyInitialized,
            )
        }),
{
    calls_keep_history(s, calls);
}

/// A closed session stays closed: after any later calls, every operation in it
/// is refused, and so is closing it again.
pub proof fn closed_session_stays_closed(
    s: State,
    calls: Seq<(Moment, Call)>,
    moment: Moment,
    session_id: u64,
    account: Seq<u8>,
    public_key: Seq<u8>,
)
    requires
        s.consistent(),
        read(s.sessions.sessions, session_id) matches Some(session) && session.closed,
    ensures
        ({
            let t = s.run(calls).at(moment);
            &&& t.session_refusal(session_id) is Some
            &&& t.refusal(Call::CloseSession { session_id, initiator: account }) is Some
            &&& t.refusal(
                Call::RegisterInSession { session_id, attestor: account, public_key },
            ) is Some
            &&& t.refusal(Call::RevokeInSession { session_id, attestor: account }) is Some
            &&& forall|
                subject: Seq<u8>,
                timestamp: u64,
                payload_hash: Seq<u8>,
                signature: Seq<u8>,
            | #[trigger]
                t.refusal(
                    Call::SubmitInSession {
                        session_id,
                        issuer: account,
                        subject,
                        timestamp,
                        payload_hash,
                        signature,
                    },
                ) is Some
        }),
{
    calls_keep_history(s, calls);
    assert(s.sessions.sessions.dom().contains(session_id));
}

/// An attestation, once stored, reads the same after any later calls.
pub proof fn attestation_never_changes(s: State, calls: Seq<(Moment, Call)>, id: u64)
    requires
        s.consistent(),
        read(s.attestations.records, id) is Some,
    ensures
        read(s.run(calls).attestations.records, id) == read(s.attestations.records, id),
{
    calls_keep_history(s, calls);
    assert(s.attestations.records.dom().contains(id));
}

/// An audit entry, once written, reads the same after any later calls, and
/// stays where it is in its session's log.
pub proof fn audit_trail_never_changes(
    s: State,
    calls: Seq<(Moment, Call)>,
    session_id: u64,
    index: u64,
)
    requires
        s.consistent(),
        index < s.operation_count(session_id),
    ensures
        s.logged(session_id, index) is Some,
        s.run(calls).logged(session_id, index) == s.logged(session_id, index),
{
    calls_keep_history(s, calls);
    assert(s.sessions.logs.dom().contains((session_id, index)));
    let id = s.sessions.logs[(session_id, index)].value;
    assert(s.sessions.audits.dom().contains(id));
}

/// A quote, once published, reads the same after any later calls.
pub proof fn quote_never_changes(
    s: State,
    calls: Seq<(Moment, Call)>,
    anchor: Seq<u8>,
    quote_id: u64,
)
    requires
        s.consistent(),
        read(s.routing.quotes, (anchor, quote_id)) is Some,
    ensures
        read(s.run(calls).routing.quotes, (anchor, quote_id)) == read(
            s.routing.quotes,
            (anchor, quote_id),
        ),
{
    calls_keep_history(s, calls);
    assert(s.routing.quotes.dom().contains((anchor, quote_id)));
}

/// A decision on a KYC review is final: after any later calls the review reads
/// the same, and another decision is refused.
pub proof fn kyc_decision_is_final(
    s: State,
    calls: Seq<(Moment, Call)>,
    moment: Moment,
    subject: Seq<u8>,
    reason_hash: Seq<u8>,
)
    requires
        s.consistent(),
        read(s.compliance.kyc, subject) matches Some(record) && record.status
            != KycStatus::Pending.code(),
    ensures
        ({
            let t = s.run(calls).at(moment);
            &&& read(t.compliance.kyc, subject) == read(s.compliance.kyc, subject)
            &&& t.kyc_status(subject) == s.kyc_status(subject)
            &&& t.refusal(Call::ApproveKyc { subject }) is Some
            &&& t.refusal(Call::RejectKyc { subject, reason_hash }) is Some
        }),
{
    calls_keep_history(s, calls);
    assert(s.compliance.kyc.dom().contains(subject));
    assert(s.run(calls).compliance.kyc.dom().contains(subject));
}

/// A known anchor keeps its place in the list of anchors after any later calls.
pub proof fn anchor_keeps_its_place(s: State, calls: Seq<(Moment, Call)>, anchor: Seq<u8>)
    requires
        s.consistent(),
        s.routing.anchors.contains(anchor),
    ensures
        s.run(calls).routing.anchors.contains(anchor),
        s.run(calls).routing.anchors.index_of(anchor) == s.routing.anchors.index_of(anchor),
{
    calls_keep_history(s, calls);
    let before = s.routing.anchors;
    let after = s.run(calls).routing.anchors;
    let i = before.index_of(anchor);
    assert(after.take(before.len() as int)[i] == anchor);
    assert(after[i] == anchor);
}

} // verus!
