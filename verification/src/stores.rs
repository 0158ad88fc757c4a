//! What the contract keeps, grouped by purpose.

use crate::data::{contents, lifted, Address, Bytes, Text};
use crate::table::{Stored, Table};
use crate::types::{
    AnchorBlacklistEntry, AnchorBlacklistEntryView, AnchorCluster, AnchorClusterView, AnchorServices,
    AnchorServicesView, Attestation, AttestationView, AuditLog, AuditLogView, CachedToml, CachedTomlView, CapabilitiesCache, CapabilitiesCacheView, CapacityConfig,
    ComplianceCheck, ComplianceCheckView, ContractVersion, KycRecord, KycRecordView, MetadataCache,
    MetadataCacheView, Quote, QuoteView, RateLimitConfig, RequestContext, RequestContextView,
    RoutingAnchorMeta, RoutingAnchorMetaView, Session, SessionView, TracingContext,
    TracingContextView, TracingSpan, TracingSpanView,
};
use vstd::prelude::*;

verus! {

/// What the contract instance itself holds.
pub struct Instance {
    /// The administrator, once there is one.
    pub admin: Option<Address>,
    /// The version, once the contract has been upgraded.
    pub version: Option<ContractVersion>,
    /// The code installed by the latest upgrade.
    pub last_wasm_hash: Option<[u8; 32]>,
    /// The patch levels whose migration has run.
    pub migrated: Table<u32, bool>,
    pub jwt_max_len: Option<u32>,
    pub jwt_skew: Option<u64>,
    pub rate_limit: Option<RateLimitConfig>,
    pub capacity: Option<CapacityConfig>,
    /// How many attestors are registered.
    pub attestor_count: u32,
    /// How many anchors have cached metadata.
    pub cache_count: u32,
    /// The identifier that the next attestation gets.
    pub next_attestation: u64,
    /// The identifier that the next session gets.
    pub next_session: u64,
    /// How many quotes have been submitted.
    pub quote_count: u64,
    /// The identifier that the next audit entry gets.
    pub next_audit: u64,
    /// For how many ledgers the instance has been asked to live.
    pub ttl: u32,
}

/// The content of [`Instance`].
pub struct InstanceState {
    pub admin: Option<Seq<u8>>,
    pub version: Option<ContractVersion>,
    pub last_wasm_hash: Option<Seq<u8>>,
    pub migrated: Map<u32, Stored<bool>>,
    pub jwt_max_len: Option<u32>,
    pub jwt_skew: Option<u64>,
    pub rate_limit: Option<RateLimitConfig>,
    pub capacity: Option<CapacityConfig>,
    pub attestor_count: u32,
    pub cache_count: u32,
    pub next_attestation: u64,
    pub next_session: u64,
    pub quote_count: u64,
    pub next_audit: u64,
    pub ttl: u32,
}

impl InstanceState {
    /// Nothing stored yet.
    pub open spec fn empty() -> Self {
        InstanceState {
            admin: None,
            version: None,
            last_wasm_hash: None,
            migrated: Map::empty(),
            jwt_max_len: None,
            jwt_skew: None,
            rate_limit: None,
            capacity: None,
            attestor_count: 0,
            cache_count: 0,
            next_attestation: 0,
            next_session: 0,
            quote_count: 0,
            next_audit: 0,
            ttl: 0,
        }
    }
}

impl View for Instance {
    type V = InstanceState;

    open spec fn view(&self) -> InstanceState {
        InstanceState {
            admin: lifted(self.admin),
            version: self.version,
            last_wasm_hash: lifted(self.last_wasm_hash),
            migrated: self.migrated@,
            jwt_max_len: self.jwt_max_len,
            jwt_skew: self.jwt_skew,
            rate_limit: self.rate_limit,
            capacity: self.capacity,
            attestor_count: self.attestor_count,
            cache_count: self.cache_count,
            next_attestation: self.next_attestation,
            next_session: self.next_session,
            quote_count: self.quote_count,
            next_audit: self.next_audit,
            ttl: self.ttl,
        }
    }
}

impl Instance {
    /// Nothing stored yet.
    pub fn new() -> (r: Self)
        ensures
            r@ == InstanceState::empty(),
    {
        let r = Instance {
            admin: None,
            version: None,
            last_wasm_hash: None,
            migrated: Table::new(),
            jwt_max_len: None,
            jwt_skew: None,
            rate_limit: None,
            capacity: None,
            attestor_count: 0,
            cache_count: 0,
            next_attestation: 0,
            next_session: 0,
            quote_count: 0,
            next_audit: 0,
            ttl: 0,
        };
        r
    }
}

/// Who may attest, and what each anchor has registered.
pub struct Registry {
    /// Keys that verify SEP-10 tokens, by issuer.
    pub sep10_keys: Table<Address, Bytes>,
    pub attestors: Table<Address, bool>,
    /// Keys that verify attestations, by attestor.
    pub public_keys: Table<Address, [u8; 32]>,
    pub endpoints: Table<Address, Text>,
    pub webhooks: Table<Address, Text>,
    pub services: Table<Address, AnchorServices>,
}

/// The content of [`Registry`].
pub struct RegistryState {
    pub sep10_keys: Map<Seq<u8>, Stored<Seq<u8>>>,
    pub attestors: Map<Seq<u8>, Stored<bool>>,
    pub public_keys: Map<Seq<u8>, Stored<Seq<u8>>>,
    pub endpoints: Map<Seq<u8>, Stored<Seq<u8>>>,
    pub webhooks: Map<Seq<u8>, Stored<Seq<u8>>>,
    pub services: Map<Seq<u8>, Stored<AnchorServicesView>>,
}

impl RegistryState {
    /// Nothing stored yet.
    pub open spec fn empty() -> Self {
        RegistryState {
            sep10_keys: Map::empty(),
            attestors: Map::empty(),
            public_keys: Map::empty(),
            endpoints: Map::empty(),
            webhooks: Map::empty(),
            services: Map::empty(),
        }
    }
}

impl View for Registry {
    type V = RegistryState;

    open spec fn view(&self) -> RegistryState {
        RegistryState {
            sep10_keys: self.sep10_keys@,
            attestors: self.attestors@,
            public_keys: self.public_keys@,
            endpoints: self.endpoints@,
            webhooks: self.webhooks@,
            services: self.services@,
        }
    }
}

impl Registry {
    /// Nothing stored yet.
    pub fn new() -> (r: Self)
        ensures
            r@ == RegistryState::empty(),
    {
        let r = Registry {
            sep10_keys: Table::new(),
            attestors: Table::new(),
            public_keys: Table::new(),
            endpoints: Table::new(),
            webhooks: Table::new(),
            services: Table::new(),
        };
        r
    }
}

/// The attestations, and the guard against submitting one twice.
pub struct Attestations {
    pub records: Table<u64, Attestation>,
    /// The time stated in the attestation, by issuer and payload hash.
    pub used: Table<(Address, Bytes), u64>,
}

/// The content of [`Attestations`].
pub struct AttestationsState {
    pub records: Map<u64, Stored<AttestationView>>,
    pub used: Map<(Seq<u8>, Seq<u8>), Stored<u64>>,
}

impl AttestationsState {
    /// Nothing stored yet.
    pub open spec fn empty() -> Self {
        AttestationsState {
            records: Map::empty(),
            used: Map::empty(),
        }
    }
}

impl View for Attestations {
    type V = AttestationsState;

    open spec fn view(&self) -> AttestationsState {
        AttestationsState {
            records: self.records@,
            used: self.used@,
        }
    }
}

impl Attestations {
    /// Nothing stored yet.
    pub fn new() -> (r: Self)
        ensures
            r@ == AttestationsState::empty(),
    {
        let r = Attestations {
            records: Table::new(),
            used: Table::new(),
        };
        r
    }
}

/// Traces and request contexts.
pub struct Tracing {
    /// Spans, by request identifier.
    pub spans: Table<Bytes, TracingSpan>,
    /// Traces, by the identifier of their root.
    pub traces: Table<Bytes, TracingContext>,
    /// Request identifiers of child spans, by root and index.
    pub children: Table<(Bytes, u32), Bytes>,
    /// Request contexts, by the identifier of their root.
    pub requests: Table<Bytes, RequestContext>,
}

/// The content of [`Tracing`].
pub struct TracingState {
    pub spans: Map<Seq<u8>, Stored<TracingSpanView>>,
    pub traces: Map<Seq<u8>, Stored<TracingContextView>>,
    pub children: Map<(Seq<u8>, u32), Stored<Seq<u8>>>,
    pub requests: Map<Seq<u8>, Stored<RequestContextView>>,
}

impl TracingState {
    /// Nothing stored yet.
    pub open spec fn empty() -> Self {
        TracingState {
            spans: Map::empty(),
            traces: Map::empty(),
            children: Map::empty(),
            requests: Map::empty(),
        }
    }
}

impl View for Tracing {
    type V = TracingState;

    open spec fn view(&self) -> TracingState {
        TracingState {
            spans: self.spans@,
            traces: self.traces@,
            children: self.children@,
            requests: self.requests@,
        }
    }
}

impl Tracing {
    /// Nothing stored yet.
    pub fn new() -> (r: Self)
        ensures
            r@ == TracingState::empty(),
    {
        let r = Tracing {
            spans: Table::new(),
            traces: Table::new(),
            children: Table::new(),
            requests: Table::new(),
        };
        r
    }
}

/// KYC reviews and compliance checks.
pub struct Compliance {
    pub kyc: Table<Address, KycRecord>,
    /// Hash of the data submitted for a review.
    pub kyc_data: Table<Address, Bytes>,
    /// Checks, by subject and kind.
    pub checks: Table<(Address, Text), ComplianceCheck>,
}

/// The content of [`Compliance`].
pub struct ComplianceState {
    pub kyc: Map<Seq<u8>, Stored<KycRecordView>>,
    pub kyc_data: Map<Seq<u8>, Stored<Seq<u8>>>,
    pub checks: Map<(Seq<u8>, Seq<u8>), Stored<ComplianceCheckView>>,
}

impl ComplianceState {
    /// Nothing stored yet.
    pub open spec fn empty() -> Self {
        ComplianceState {
            kyc: Map::empty(),
            kyc_data: Map::empty(),
            checks: Map::empty(),
        }
    }
}

impl View for Compliance {
    type V = ComplianceState;

    open spec fn view(&self) -> ComplianceState {
        ComplianceState {
            kyc: self.kyc@,
            kyc_data: self.kyc_data@,
            checks: self.checks@,
        }
    }
}

impl Compliance {
    /// Nothing stored yet.
    pub fn new() -> (r: Self)
        ensures
            r@ == ComplianceState::empty(),
    {
        let r = Compliance {
            kyc: Table::new(),
            kyc_data: Table::new(),
            checks: Table::new(),
        };
        r
    }
}

/// Sessions and their audit trail.
pub struct Sessions {
    pub sessions: Table<u64, Session>,
    pub nonces: Table<u64, u64>,
    /// How many operations a session has logged.
    pub operation_counts: Table<u64, u64>,
    pub audits: Table<u64, AuditLog>,
    /// Audit identifiers, by session and operation index.
    pub logs: Table<(u64, u64), u64>,
}

/// The content of [`Sessions`].
pub struct SessionsState {
    pub sessions: Map<u64, Stored<SessionView>>,
    pub nonces: Map<u64, Stored<u64>>,
    pub operation_counts: Map<u64, Stored<u64>>,
    pub audits: Map<u64, Stored<AuditLogView>>,
    pub logs: Map<(u64, u64), Stored<u64>>,
}

impl SessionsState {
    /// Nothing stored yet.
    pub open spec fn empty() -> Self {
        SessionsState {
            sessions: Map::empty(),
            nonces: Map::empty(),
            operation_counts: Map::empty(),
            audits: Map::empty(),
            logs: Map::empty(),
        }
    }
}

impl View for Sessions {
    type V = SessionsState;

    open spec fn view(&self) -> SessionsState {
        SessionsState {
            sessions: self.sessions@,
            nonces: self.nonces@,
            operation_counts: self.operation_counts@,
            audits: self.audits@,
            logs: self.logs@,
        }
    }
}

impl Sessions {
    /// Nothing stored yet.
    pub fn new() -> (r: Self)
        ensures
            r@ == SessionsState::empty(),
    {
        let r = Sessions {
            sessions: Table::new(),
            nonces: Table::new(),
            operation_counts: Table::new(),
            audits: Table::new(),
            logs: Table::new(),
        };
        r
    }
}

/// Quotes, and what routing knows of the anchors that publish them.
pub struct Routing {
    pub quotes: Table<(Address, u64), Quote>,
    /// The latest quote of an anchor.
    pub latest: Table<Address, u64>,
    pub metas: Table<Address, RoutingAnchorMeta>,
    /// The anchors that routing knows, in the order in which it met them.
    pub anchors: Vec<Address>,
    /// Anchors that routing leaves out.
    pub blacklist: Table<Address, AnchorBlacklistEntry>,
    /// For how many ledgers the list of anchors has been asked to live.
    pub anchors_ttl: u32,
    /// Named groups of anchors.
    pub clusters: Table<Text, AnchorCluster>,
    /// The names of the groups, in the order in which they were made.
    pub cluster_names: Vec<Text>,
    /// For how many ledgers the list of names has been asked to live.
    pub cluster_names_ttl: u32,
}

/// The content of [`Routing`].
pub struct RoutingState {
    pub quotes: Map<(Seq<u8>, u64), Stored<QuoteView>>,
    pub latest: Map<Seq<u8>, Stored<u64>>,
    pub metas: Map<Seq<u8>, Stored<RoutingAnchorMetaView>>,
    pub anchors: Seq<Seq<u8>>,
    pub blacklist: Map<Seq<u8>, Stored<AnchorBlacklistEntryView>>,
    pub anchors_ttl: u32,
    pub clusters: Map<Seq<u8>, Stored<AnchorClusterView>>,
    pub cluster_names: Seq<Seq<u8>>,
    pub cluster_names_ttl: u32,
}

impl RoutingState {
    /// Nothing stored yet.
    pub open spec fn empty() -> Self {
        RoutingState {
            quotes: Map::empty(),
            latest: Map::empty(),
            metas: Map::empty(),
            anchors: Seq::empty(),
            blacklist: Map::empty(),
            anchors_ttl: 0,
            clusters: Map::empty(),
            cluster_names: Seq::empty(),
            cluster_names_ttl: 0,
        }
    }
}

impl View for Routing {
    type V = RoutingState;

    open spec fn view(&self) -> RoutingState {
        RoutingState {
            quotes: self.quotes@,
            latest: self.latest@,
            metas: self.metas@,
            anchors: contents(self.anchors@),
            blacklist: self.blacklist@,
            anchors_ttl: self.anchors_ttl,
            clusters: self.clusters@,
            cluster_names: contents(self.cluster_names@),
            cluster_names_ttl: self.cluster_names_ttl,
        }
    }
}

impl Routing {
    /// Nothing stored yet.
    pub fn new() -> (r: Self)
        ensures
            r@ == RoutingState::empty(),
    {
        let r = Routing {
            quotes: Table::new(),
            latest: Table::new(),
            metas: Table::new(),
            anchors: Vec::new(),
            blacklist: Table::new(),
            anchors_ttl: 0,
            clusters: Table::new(),
            cluster_names: Vec::new(),
            cluster_names_ttl: 0,
        };
        assert(r@.anchors =~= Seq::empty());
        assert(r@.cluster_names =~= Seq::empty());
        r
    }
}

/// Documents cached for a limited time.
pub struct Caches {
    pub metadata: Table<Address, MetadataCache>,
    pub capabilities: Table<Address, CapabilitiesCache>,
    pub tomls: Table<Address, CachedToml>,
}

/// The content of [`Caches`].
pub struct CachesState {
    pub metadata: Map<Seq<u8>, Stored<MetadataCacheView>>,
    pub capabilities: Map<Seq<u8>, Stored<CapabilitiesCacheView>>,
    pub tomls: Map<Seq<u8>, Stored<CachedTomlView>>,
}

impl CachesState {
    /// Nothing stored yet.
    pub open spec fn empty() -> Self {
        CachesState {
            metadata: Map::empty(),
            capabilities: Map::empty(),
            tomls: Map::empty(),
        }
    }
}

impl View for Caches {
    type V = CachesState;

    open spec fn view(&self) -> CachesState {
        CachesState {
            metadata: self.metadata@,
            capabilities: self.capabilities@,
            tomls: self.tomls@,
        }
    }
}

impl Caches {
    /// Nothing stored yet.
    pub fn new() -> (r: Self)
        ensures
            r@ == CachesState::empty(),
    {
        let r = Caches {
            metadata: Table::new(),
            capabilities: Table::new(),
            tomls: Table::new(),
        };
        r
    }
}

} // verus!
