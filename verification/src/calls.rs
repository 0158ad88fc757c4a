//! The calls that can change the contract's state, as one type.

use crate::env::{HostState, Ledger, State};
use crate::stores::{CachesState, TracingState};
use crate::table::{read, Stored};
use crate::types::{
    AnchorMetadataView, CapacityConfig, ErrorCode, QuoteView, RateLimitConfig, RequestIdView,
    RoutingAnchorMetaView, RoutingOptionsView, StellarTomlView,
};
use vstd::prelude::*;

verus! {

/// A call with its arguments. Entry points that do the same share a variant.
pub enum Call {
    Initialize { admin: Seq<u8> },
    Upgrade { new_wasm_hash: Seq<u8> },
    Migrate,
    SetJwtMaxLen { max_len: u32 },
    SetJwtSkew { skew_seconds: u64 },
    SetRateLimit { config: RateLimitConfig },
    SetCapacity { config: CapacityConfig },
    SetSep10Key { issuer: Seq<u8>, public_key: Seq<u8> },
    RegisterAttestor {
        attestor: Seq<u8>,
        token: Seq<u8>,
        issuer: Seq<u8>,
        public_key: Seq<u8>,
    },
    RevokeAttestor { attestor: Seq<u8> },
    SetEndpoint { attestor: Seq<u8>, url: Seq<u8> },
    RegisterWebhook { attestor: Seq<u8>, url: Seq<u8> },
    ConfigureServices { anchor: Seq<u8>, services: Seq<u32>, version: u32 },
    SubmitAttestation {
        issuer: Seq<u8>,
        subject: Seq<u8>,
        timestamp: u64,
        payload_hash: Seq<u8>,
        signature: Seq<u8>,
    },
    SubmitKycChecked {
        issuer: Seq<u8>,
        subject: Seq<u8>,
        timestamp: u64,
        payload_hash: Seq<u8>,
        signature: Seq<u8>,
        require_kyc: bool,
    },
    SubmitTraced {
        request_id: RequestIdView,
        issuer: Seq<u8>,
        subject: Seq<u8>,
        timestamp: u64,
        payload_hash: Seq<u8>,
        signature: Seq<u8>,
    },
    SubmitInSession {
        session_id: u64,
        issuer: Seq<u8>,
        subject: Seq<u8>,
        timestamp: u64,
        payload_hash: Seq<u8>,
        signature: Seq<u8>,
    },
    RegisterInSession { session_id: u64, attestor: Seq<u8>, public_key: Seq<u8> },
    RevokeInSession { session_id: u64, attestor: Seq<u8> },
    TraceQuote { request_id: RequestIdView, anchor: Seq<u8> },
    PropagateSpan {
        parent: RequestIdView,
        child: RequestIdView,
        operation: Seq<u8>,
        actor: Seq<u8>,
    },
    CreateContext { root: RequestIdView },
    AppendOperation { root: Seq<u8>, name: Seq<u8> },
    SubmitKyc { subject: Seq<u8>, data_hash: Seq<u8>, attestor: Seq<u8> },
    ApproveKyc { subject: Seq<u8> },
    RejectKyc { subject: Seq<u8>, reason_hash: Seq<u8> },
    RecordCheck { subject: Seq<u8>, check_type: Seq<u8>, passed: bool },
    CreateSession { initiator: Seq<u8> },
    CloseSession { session_id: u64, initiator: Seq<u8> },
    /// The quote's own number is not an argument; the call gives it one.
    SubmitQuote { quote: QuoteView },
    ReceiveQuote { receiver: Seq<u8>, anchor: Seq<u8>, quote_id: u64 },
    AcceptQuote { receiver: Seq<u8>, anchor: Seq<u8>, quote_id: u64, require_compliance: bool },
    CacheMetadata {
        anchor: Seq<u8>,
        metadata: AnchorMetadataView,
        ttl_seconds: u64,
        stale_ttl_seconds: u64,
    },
    RefreshMetadata {
        anchor: Seq<u8>,
        metadata: AnchorMetadataView,
        ttl_seconds: u64,
        stale_ttl_seconds: u64,
    },
    DropMetadata { anchor: Seq<u8> },
    ServeMetadata { anchor: Seq<u8> },
    CacheCapabilities {
        anchor: Seq<u8>,
        toml_url: Seq<u8>,
        capabilities: Seq<u8>,
        ttl_seconds: u64,
    },
    DropCapabilities { anchor: Seq<u8> },
    /// An anchor is active when it becomes known.
    SetMeta { meta: RoutingAnchorMetaView },
    Reactivate { anchor: Seq<u8> },
    Blacklist { anchor: Seq<u8> },
    Unblacklist { anchor: Seq<u8> },
    CreateCluster { name: Seq<u8>, anchors: Seq<Seq<u8>> },
    Route { options: RoutingOptionsView },
    CacheToml { anchor: Seq<u8>, toml: StellarTomlView, ttl_seconds: u64 },
    DropToml { anchor: Seq<u8> },
    CreateTransaction { transaction_id: u64, initiator: Seq<u8> },
}

/// Who has to authorize a call.
pub enum Signer {
    /// Nobody.
    Anyone,
    /// The administrator.
    Admin,
    /// An account that the call names.
    Account { address: Seq<u8> },
}

impl Call {
    /// Who has to authorize the call.
    pub open spec fn signer(self) -> Signer {
        match self {
            Call::Initialize { admin } => Signer::Account { address: admin },
            Call::SetEndpoint { attestor, .. } => Signer::Account { address: attestor },
            Call::RegisterWebhook { attestor, .. } => Signer::Account { address: attestor },
            Call::ConfigureServices { anchor, .. } => Signer::Account { address: anchor },
            Call::SubmitAttestation { issuer, .. } => Signer::Account { address: issuer },
            Call::SubmitKycChecked { issuer, .. } => Signer::Account { address: issuer },
            Call::SubmitTraced { issuer, .. } => Signer::Account { address: issuer },
            Call::SubmitInSession { issuer, .. } => Signer::Account { address: issuer },
            Call::TraceQuote { anchor, .. } => Signer::Account { address: anchor },
            Call::PropagateSpan { actor, .. } => Signer::Account { address: actor },
            Call::CreateContext { .. } => Signer::Anyone,
            Call::AppendOperation { .. } => Signer::Anyone,
            Call::SubmitKyc { attestor, .. } => Signer::Account { address: attestor },
            Call::CreateSession { initiator } => Signer::Account { address: initiator },
            Call::CloseSession { initiator, .. } => Signer::Account { address: initiator },
            Call::SubmitQuote { quote } => Signer::Account { address: quote.anchor },
            Call::ReceiveQuote { receiver, .. } => Signer::Account { address: receiver },
            Call::AcceptQuote { receiver, .. } => Signer::Account { address: receiver },
            Call::ServeMetadata { .. } => Signer::Anyone,
            Call::Route { .. } => Signer::Anyone,
            Call::CacheToml { anchor, .. } => Signer::Account { address: anchor },
            Call::DropToml { anchor } => Signer::Account { address: anchor },
            Call::CreateTransaction { .. } => Signer::Anyone,
            _ => Signer::Admin,
        }
    }
}

impl State {
    /// Why a call is refused.
    pub open spec fn refusal(self, call: Call) -> Option<ErrorCode> {
        match call {
            Call::Initialize { admin } => self.initialize_refusal(admin),
            Call::Upgrade { .. } => self.upgrade_refusal(),
            Call::Migrate => self.admin_refusal(),
            Call::SetJwtMaxLen { max_len } => self.set_jwt_max_len_refusal(max_len),
            Call::SetJwtSkew { skew_seconds } => self.set_jwt_skew_refusal(skew_seconds),
            Call::SetRateLimit { config } => self.set_rate_limit_refusal(config),
            Call::SetCapacity { .. } => self.admin_refusal(),
            Call::SetSep10Key { public_key, .. } => self.set_sep10_key_refusal(public_key),
            Call::RegisterAttestor { attestor, token, issuer, .. } => {
                self.register_attestor_refusal(attestor, token, issuer)
            },
            Call::RevokeAttestor { attestor } => self.revoke_attestor_refusal(attestor),
            Call::SetEndpoint { attestor, url } => self.set_url_refusal(attestor, url),
            Call::RegisterWebhook { attestor, url } => self.set_url_refusal(attestor, url),
            Call::ConfigureServices { anchor, services, version } => {
                self.configure_services_refusal(anchor, services, version)
            },
            Call::SubmitAttestation { issuer, timestamp, payload_hash, signature, .. } => {
                self.submit_refusal(issuer, timestamp, payload_hash, signature)
            },
            Call::SubmitKycChecked {
                issuer,
                subject,
                timestamp,
                payload_hash,
                signature,
                require_kyc,
            } => self.submit_kyc_checked_refusal(
                issuer,
                subject,
                timestamp,
                payload_hash,
                signature,
                require_kyc,
            ),
            Call::SubmitTraced { issuer, timestamp, payload_hash, signature, .. } => {
                self.submit_traced_refusal(issuer, timestamp, payload_hash, signature)
            },
            Call::SubmitInSession {
                session_id,
                issuer,
                timestamp,
                payload_hash,
                signature,
                ..
            } => self.submit_in_session_refusal(
                session_id,
                issuer,
                timestamp,
                payload_hash,
                signature,
            ),
            Call::RegisterInSession { session_id, attestor, .. } => {
                self.register_in_session_refusal(session_id, attestor)
            },
            Call::RevokeInSession { session_id, attestor } => {
                self.revoke_in_session_refusal(session_id, attestor)
            },
            Call::TraceQuote { anchor, .. } => self.trace_quote_refusal(anchor),
            Call::PropagateSpan { parent, actor, .. } => self.propagate_span_refusal(parent, actor),
            Call::CreateContext { .. } => None,
            Call::AppendOperation { .. } => None,
            Call::SubmitKyc { subject, attestor, .. } => self.submit_kyc_refusal(subject, attestor),
            Call::ApproveKyc { subject } => self.review_refusal(subject),
            Call::RejectKyc { subject, .. } => self.review_refusal(subject),
            Call::RecordCheck { .. } => self.admin_refusal(),
            Call::CreateSession { initiator } => self.create_session_refusal(initiator),
            Call::CloseSession { session_id, initiator } => {
                self.close_session_refusal(session_id, initiator)
            },
            Call::SubmitQuote { quote } => {
                self.submit_quote_refusal(quote.anchor, quote.fee_percentage)
            },
            Call::ReceiveQuote { receiver, anchor, quote_id } => {
                self.receive_quote_refusal(receiver, anchor, quote_id)
            },
            Call::AcceptQuote { receiver, anchor, quote_id, require_compliance } => {
                self.accept_quote_refusal(receiver, anchor, quote_id, require_compliance)
            },
            Call::CacheMetadata { anchor, .. } => self.cache_metadata_refusal(anchor),
            Call::RefreshMetadata { anchor, metadata, .. } => {
                self.refresh_swr_refusal(anchor, metadata)
            },
            Call::DropMetadata { .. } => self.admin_refusal(),
            Call::ServeMetadata { anchor } => self.serve_metadata_refusal(anchor),
            Call::CacheCapabilities { .. } => self.admin_refusal(),
            Call::DropCapabilities { .. } => self.admin_refusal(),
            Call::SetMeta { .. } => self.admin_refusal(),
            Call::Reactivate { anchor } => self.reactivate_refusal(anchor),
            Call::Blacklist { .. } => self.admin_refusal(),
            Call::Unblacklist { .. } => self.admin_refusal(),
            Call::CreateCluster { name, .. } => self.create_cluster_refusal(name),
            Call::Route { options } => self.route_refusal(options),
            Call::CacheToml { anchor, .. } => self.own_refusal(anchor),
            Call::DropToml { anchor } => self.own_refusal(anchor),
            Call::CreateTransaction { .. } => None,
        }
    }

    /// The state after a call that is not refused.
    pub open spec fn effect(self, call: Call) -> State {
        match call {
            Call::Initialize { admin } => self.initialize_effect(admin),
            Call::Upgrade { new_wasm_hash } => self.upgrade_effect(new_wasm_hash),
            Call::Migrate => self.migrate_effect(),
            Call::SetJwtMaxLen { max_len } => self.set_jwt_max_len_effect(max_len),
            Call::SetJwtSkew { skew_seconds } => self.set_jwt_skew_effect(skew_seconds),
            Call::SetRateLimit { config } => self.set_rate_limit_effect(config),
            Call::SetCapacity { config } => self.set_capacity_effect(config),
            Call::SetSep10Key { issuer, public_key } => {
                self.set_sep10_key_effect(issuer, public_key)
            },
            Call::RegisterAttestor { attestor, public_key, .. } => {
                self.register_attestor_effect(attestor, public_key)
            },
            Call::RevokeAttestor { attestor } => self.revoke_attestor_effect(attestor),
            Call::SetEndpoint { attestor, url } => self.set_endpoint_effect(attestor, url),
            Call::RegisterWebhook { attestor, url } => self.register_webhook_effect(attestor, url),
            Call::ConfigureServices { anchor, services, version } => {
                self.configure_services_effect(anchor, services, version)
            },
            Call::SubmitAttestation { issuer, subject, timestamp, payload_hash, signature } => {
                self.submit_effect(issuer, subject, timestamp, payload_hash, signature)
            },
            Call::SubmitKycChecked {
                issuer,
                subject,
                timestamp,
                payload_hash,
                signature,
                ..
            } => self.submit_kyc_checked_effect(
                issuer,
                subject,
                timestamp,
                payload_hash,
                signature,
            ),
            Call::SubmitTraced {
                request_id,
                issuer,
                subject,
                timestamp,
                payload_hash,
                signature,
            } => self.submit_traced_effect(
                request_id,
                issuer,
                subject,
                timestamp,
                payload_hash,
                signature,
            ),
            Call::SubmitInSession {
                session_id,
                issuer,
                subject,
                timestamp,
                payload_hash,
                signature,
            } => self.submit_in_session_effect(
                session_id,
                issuer,
                subject,
                timestamp,
                payload_hash,
                signature,
            ),
            Call::RegisterInSession { session_id, attestor, public_key } => {
                self.register_in_session_effect(session_id, attestor, public_key)
            },
            Call::RevokeInSession { session_id, attestor } => {
                self.revoke_in_session_effect(session_id, attestor)
            },
            Call::TraceQuote { request_id, anchor } => self.trace_quote_effect(request_id, anchor),
            Call::PropagateSpan { parent, child, operation, actor } => {
                self.propagate_span_effect(parent, child, operation, actor)
            },
            Call::CreateContext { root } => self.store_context(root.id, self.new_context(root)),
            Call::AppendOperation { root, name } => self.append_operation(root, name),
            Call::SubmitKyc { subject, data_hash, .. } => self.submit_kyc_effect(subject, data_hash),
            Call::ApproveKyc { subject } => self.approve_kyc_effect(subject),
            Call::RejectKyc { subject, reason_hash } => self.reject_kyc_effect(subject, reason_hash),
            Call::RecordCheck { subject, check_type, passed } => {
                self.record_check_effect(subject, check_type, passed)
            },
            Call::CreateSession { initiator } => self.create_session_effect(initiator),
            Call::CloseSession { session_id, initiator } => {
                self.close_session_effect(session_id, initiator)
            },
            Call::SubmitQuote { quote } => self.submit_quote_effect(
                QuoteView { quote_id: self.next_quote(), ..quote },
            ),
            Call::ReceiveQuote { receiver, quote_id, .. } => {
                self.receive_quote_effect(receiver, quote_id)
            },
            Call::AcceptQuote { receiver, quote_id, .. } => {
                self.accept_quote_effect(receiver, quote_id)
            },
            Call::CacheMetadata { anchor, metadata, ttl_seconds, stale_ttl_seconds } => {
                self.cache_metadata_effect(anchor, metadata, ttl_seconds, stale_ttl_seconds)
            },
            Call::RefreshMetadata { anchor, metadata, ttl_seconds, stale_ttl_seconds } => {
                self.refresh_swr_effect(anchor, metadata, ttl_seconds, stale_ttl_seconds)
            },
            Call::DropMetadata { anchor } => self.drop_metadata_effect(anchor),
            Call::ServeMetadata { anchor } => self.serve_metadata_effect(anchor),
            Call::CacheCapabilities { anchor, toml_url, capabilities, ttl_seconds } => {
                self.cache_capabilities_effect(anchor, toml_url, capabilities, ttl_seconds)
            },
            Call::DropCapabilities { anchor } => self.drop_capabilities_effect(anchor),
            Call::SetMeta { meta } => self.set_meta_effect(
                RoutingAnchorMetaView { is_active: true, ..meta },
            ),
            Call::Reactivate { anchor } => self.reactivate_effect(anchor),
            Call::Blacklist { anchor } => self.blacklist_effect(anchor),
            Call::Unblacklist { anchor } => self.unblacklist_effect(anchor),
            Call::CreateCluster { name, anchors } => self.create_cluster_effect(name, anchors),
            Call::Route { options } => self.route_effect(options),
            Call::CacheToml { anchor, toml, ttl_seconds } => {
                self.cache_toml_effect(anchor, toml, ttl_seconds)
            },
            Call::DropToml { anchor } => self.drop_toml_effect(anchor),
            Call::CreateTransaction { transaction_id, initiator } => {
                self.create_transaction_effect(transaction_id, initiator)
            },
        }
    }

    /// The state after a call, refused or not.
    pub open spec fn after(self, call: Call) -> State {
        match self.refusal(call) {
            Some(_) => self,
            None => self.effect(call),
        }
    }

    /// The state as another call finds it: the ledger has moved on, the host
    /// gives new answers and has let temporary entries lapse, and the rate
    /// limiter grants anew.
    pub open spec fn at(self, moment: Moment) -> State {
        let lapsed = moment.lapsed;
        State {
            ledger: moment.ledger,
            host: moment.host,
            allowances: moment.allowances,
            tracing: TracingState {
                spans: self.tracing.spans.remove_keys(lapsed.spans),
                traces: self.tracing.traces.remove_keys(lapsed.traces),
                children: self.tracing.children.remove_keys(lapsed.children),
                requests: self.tracing.requests.remove_keys(lapsed.requests),
            },
            caches: CachesState {
                metadata: self.caches.metadata.remove_keys(lapsed.metadata),
                capabilities: self.caches.capabilities.remove_keys(lapsed.capabilities),
                tomls: self.caches.tomls.remove_keys(lapsed.tomls),
            },
            ..self
        }
    }

    /// The state after some calls, each at its moment.
    pub open spec fn run(self, calls: Seq<(Moment, Call)>) -> State
        decreases calls.len(),
    {
        if calls.len() == 0 {
            self
        } else {
            self.run(calls.drop_last()).at(calls.last().0).after(calls.last().1)
        }
    }
}

/// The temporary entries that the host has dropped, by their keys. The host drops
/// one when its lifetime has run out; which have is the host's to say, so any may
/// be listed here. Persistent entries are not dropped: the host archives them, and
/// runs no call on an archived entry before it is restored.
pub struct Lapsed {
    pub spans: Set<Seq<u8>>,
    pub traces: Set<Seq<u8>>,
    pub children: Set<(Seq<u8>, u32)>,
    pub requests: Set<Seq<u8>>,
    pub metadata: Set<Seq<u8>>,
    pub capabilities: Set<Seq<u8>>,
    pub tomls: Set<Seq<u8>>,
}

/// What can differ between two calls without a call doing it.
pub struct Moment {
    pub ledger: Ledger,
    pub host: HostState,
    pub allowances: Map<Seq<u8>, Stored<u32>>,
    pub lapsed: Lapsed,
}

/// A call that succeeds has been authorized by whoever has to authorize it.
#[verifier::rlimit(40)]
pub proof fn success_needs_authorization(s: State, call: Call)
    requires
        s.refusal(call) is None,
    ensures
        match call.signer() {
            Signer::Anyone => true,
            Signer::Admin => s.instance.admin matches Some(admin) && s.authorized(admin),
            Signer::Account { address } => s.authorized(address),
        },
{
}

/// What an account has published changes only if the account authorizes it: its
/// endpoint, its webhook, its services, its discovery document, and which of its
/// quotes is the latest.
#[verifier::rlimit(40)]
pub proof fn published_entries_are_the_accounts_own(s: State, call: Call, account: Seq<u8>)
    requires
        !s.authorized(account),
    ensures
        ({
            let t = s.after(call);
            &&& read(t.registry.endpoints, account) == read(s.registry.endpoints, account)
            &&& read(t.registry.webhooks, account) == read(s.registry.webhooks, account)
            &&& read(t.registry.services, account) == read(s.registry.services, account)
            &&& read(t.caches.tomls, account) == read(s.caches.tomls, account)
            &&& read(t.routing.latest, account) == read(s.routing.latest, account)
        }),
{
}

/// What the administrator controls changes only if the administrator authorizes
/// it: attestors and their keys, the keys for tokens, what routing knows of
/// anchors and which of them it excludes, clusters, compliance checks, cached
/// capabilities, and the settings.
#[verifier::rlimit(40)]
pub proof fn controlled_entries_are_the_administrators(s: State, call: Call)
    requires
        s.admin_refusal() is Some,
        s.refusal(call) is None,
    ensures
        ({
            let t = s.after(call);
            &&& t.registry.attestors == s.registry.attestors
            &&& t.registry.public_keys == s.registry.public_keys
            &&& t.registry.sep10_keys == s.registry.sep10_keys
            &&& t.routing.metas == s.routing.metas
            &&& t.routing.anchors == s.routing.anchors
            &&& t.routing.blacklist == s.routing.blacklist
            &&& t.routing.clusters == s.routing.clusters
            &&& t.routing.cluster_names == s.routing.cluster_names
            &&& t.compliance.checks == s.compliance.checks
            &&& t.caches.capabilities == s.caches.capabilities
            &&& t.caches.metadata.dom() =~= s.caches.metadata.dom()
            &&& t.instance.version == s.instance.version
            &&& t.instance.jwt_max_len == s.instance.jwt_max_len
            &&& t.instance.jwt_skew == s.instance.jwt_skew
            &&& t.instance.capacity == s.instance.capacity
            &&& t.instance.rate_limit == s.instance.rate_limit
            &&& t.wasm == s.wasm
        }),
{
}

} // verus!
