//! The records that the contract stores and returns, each with its content as
//! a mathematical value.

use crate::data::{
    contents, dup_list, dup_option, lifted, same_option, Address, Bytes, Comparable, Duplicate, Text,
};
use vstd::prelude::*;

verus! {

/// Code of the deposit service.
pub const SERVICE_DEPOSITS: u32 = 1;

/// Code of the withdrawal service.
pub const SERVICE_WITHDRAWALS: u32 = 2;

/// Code of the quote service.
pub const SERVICE_QUOTES: u32 = 3;

/// Code of the KYC service.
pub const SERVICE_KYC: u32 = 4;

/// The newest capability version that the contract understands. A record
/// configured under an older version stays readable: its service codes are
/// among those recognised now.
pub const SERVICE_CAPABILITY_VERSION: u32 = 1;

/// The highest service code that [`SERVICE_CAPABILITY_VERSION`] recognises.
pub const MAX_KNOWN_SERVICE_CODE: u32 = 4;

/// Session lifetime in seconds, used where a session states none.
pub const DEFAULT_SESSION_TTL: u64 = 3600;

/// Lifetime, in ledgers, of an entry that guards against replay.
pub const REPLAY_TTL: u32 = 120_960;

/// Lifetime, in ledgers, of a persistent entry.
pub const PERSISTENT_TTL: u32 = 1_555_200;

/// Lifetime, in ledgers, of tracing data.
pub const SPAN_TTL: u32 = 17_280;

/// Lifetime, in ledgers, of the contract instance.
pub const INSTANCE_TTL: u32 = 518_400;

/// The shortest lifetime, in ledgers, asked for a cache entry.
pub const MIN_TEMP_TTL: u32 = 15;

/// The default, and smallest, limit on the length of a SEP-10 token.
pub const MAX_JWT_LEN: u32 = 2048;

/// The largest limit on the length of a SEP-10 token.
pub const JWT_LEN_CEILING: u32 = 16384;

/// Default clock skew tolerance in seconds.
pub const DEFAULT_CLOCK_SKEW: u64 = 60;

/// The largest clock skew tolerance in seconds.
pub const MAX_CLOCK_SKEW: u64 = 300;

/// The largest fee and the largest uptime, in basis points.
pub const BASIS_POINTS: u32 = 10_000;

/// Why a call was refused. A refused call leaves the contract's state as it was.
#[derive(Clone, Copy, Debug, PartialEq, Eq, Structural)]
pub enum ErrorCode {
    AlreadyInitialized,
    NotInitialized,
    ValidationError,
    InvalidSep10Token,
    AttestorAlreadyRegistered,
    AttestorNotRegistered,
    InvalidEndpointFormat,
    UnsupportedCapabilityVersion,
    InvalidServiceType,
    ServicesNotConfigured,
    UnauthorizedAttestor,
    RateLimitExceeded,
    InvalidTimestamp,
    ReplayAttack,
    KycPending,
    KycRejected,
    KycNotFound,
    ComplianceNotMet,
    IllegalTransition,
    AttestationNotFound,
    InvalidQuote,
    NoQuotesAvailable,
    InvalidWeights,
    CacheNotFound,
    CacheExpired,
    SessionExpired,
    SessionClosed,
    /// A limit of the [`CapacityConfig`] is reached.
    CapacityExceeded,
    /// The host has not authorized the call on behalf of the address it needs.
    Unauthorized,
    /// The host has refused the signature.
    InvalidSignature,
    /// A counter or a point in time does not fit its type.
    ArithmeticOverflow,
}

/// A service that an anchor can offer.
#[derive(Clone, Copy, Debug, PartialEq, Eq, Structural)]
pub enum ServiceType {
    Deposits,
    Withdrawals,
    Quotes,
    KYC,
}

impl ServiceType {
    /// The code that stands for the service on chain.
    pub open spec fn code(self) -> u32 {
        match self {
            ServiceType::Deposits => 1,
            ServiceType::Withdrawals => 2,
            ServiceType::Quotes => 3,
            ServiceType::KYC => 4,
        }
    }

    /// The code that stands for the service on chain.
    pub fn as_u32(&self) -> (r: u32)
        ensures
            r == self.code(),
    {
        match self {
            ServiceType::Deposits => SERVICE_DEPOSITS,
            ServiceType::Withdrawals => SERVICE_WITHDRAWALS,
            ServiceType::Quotes => SERVICE_QUOTES,
            ServiceType::KYC => SERVICE_KYC,
        }
    }
}

/// Where a subject's KYC review stands.
#[derive(Clone, Copy, Debug, PartialEq, Eq, Structural)]
pub enum KycStatus {
    NotSubmitted,
    Pending,
    Approved,
    Rejected,
    Expired,
}

impl KycStatus {
    /// The code under which a [`KycRecord`] holds the status.
    pub open spec fn code(self) -> u32 {
        match self {
            KycStatus::NotSubmitted => 0,
            KycStatus::Pending => 1,
            KycStatus::Approved => 2,
            KycStatus::Rejected => 3,
            KycStatus::Expired => 4,
        }
    }

    /// The status that a code stands for; an unknown code stands for
    /// [`KycStatus::NotSubmitted`].
    pub open spec fn of_code(code: u32) -> KycStatus {
        if code == 1 {
            KycStatus::Pending
        } else if code == 2 {
            KycStatus::Approved
        } else if code == 3 {
            KycStatus::Rejected
        } else if code == 4 {
            KycStatus::Expired
        } else {
            KycStatus::NotSubmitted
        }
    }

    /// The code under which a [`KycRecord`] holds the status.
    pub fn as_u32(self) -> (r: u32)
        ensures
            r == self.code(),
    {
        match self {
            KycStatus::NotSubmitted => 0,
            KycStatus::Pending => 1,
            KycStatus::Approved => 2,
            KycStatus::Rejected => 3,
            KycStatus::Expired => 4,
        }
    }

    /// The status that a code stands for.
    pub fn from_u32(code: u32) -> (r: KycStatus)
        ensures
            r == KycStatus::of_code(code),
    {
        match code {
            1 => KycStatus::Pending,
            2 => KycStatus::Approved,
            3 => KycStatus::Rejected,
            4 => KycStatus::Expired,
            _ => KycStatus::NotSubmitted,
        }
    }
}

/// Where a cached metadata entry stands in its lifetime.
#[derive(Clone, Copy, Debug, PartialEq, Eq, Structural)]
pub enum MetadataCacheState {
    /// There is no entry.
    Missing,
    /// Within the primary lifetime.
    Fresh,
    /// Past the primary lifetime, within the grace period: usable, due for a refresh.
    Stale,
    /// Past the grace period: not to be served.
    Expired,
}

/// The state in which a transaction record starts.
#[derive(Clone, Copy, Debug, PartialEq, Eq, Structural)]
pub enum TransactionState {
    Pending,
}

impl View for TransactionState {
    type V = TransactionState;

    open spec fn view(&self) -> TransactionState {
        *self
    }
}

impl Duplicate for TransactionState {
    fn dup(&self) -> (r: Self) {
        *self
    }
}

/// The contract's version, and when it last changed.
#[derive(Clone, Copy, Debug, PartialEq, Eq, Structural)]
pub struct ContractVersion {
    pub major: u32,
    pub minor: u32,
    pub patch: u32,
    /// Ledger time of the latest upgrade, zero before the first.
    pub upgraded_at: u64,
}

impl ContractVersion {
    /// The next patch version, reached at `upgraded_at`.
    pub fn bump_patch(self, upgraded_at: u64) -> (r: Self)
        requires
            self.patch < u32::MAX,
        ensures
            r == (ContractVersion {
                major: self.major,
                minor: self.minor,
                patch: (self.patch + 1) as u32,
                upgraded_at,
            }),
    {
        ContractVersion {
            major: self.major,
            minor: self.minor,
            patch: self.patch + 1,
            upgraded_at,
        }
    }
}

/// How many attestors and how many cached metadata entries the contract accepts.
#[derive(Clone, Copy, Debug, PartialEq, Eq, Structural)]
pub struct CapacityConfig {
    pub max_attestors: u32,
    pub max_cache_entries: u32,
}

/// How many submissions an attestor may make in a window of time.
#[derive(Clone, Copy, Debug, PartialEq, Eq, Structural)]
pub struct RateLimitConfig {
    pub max_submissions: u32,
    pub window_length: u32,
}

impl View for RateLimitConfig {
    type V = RateLimitConfig;

    open spec fn view(&self) -> RateLimitConfig {
        *self
    }
}

impl Comparable for RateLimitConfig {
    fn same(&self, other: &Self) -> (r: bool) {
        *self == *other
    }
}

/// A client session: who opened it, when, and whether it is still open.
#[derive(Clone, Debug, PartialEq)]
pub struct Session {
    pub session_id: u64,
    pub initiator: Address,
    pub created_at: u64,
    pub nonce: u64,
    pub operation_count: u64,
    /// Lifetime in seconds; zero stands for [`DEFAULT_SESSION_TTL`].
    pub session_ttl_seconds: u64,
    pub closed: bool,
}

/// The content of a [`Session`].
pub struct SessionView {
    pub session_id: u64,
    pub initiator: Seq<u8>,
    pub created_at: u64,
    pub nonce: u64,
    pub operation_count: u64,
    pub session_ttl_seconds: u64,
    pub closed: bool,
}

impl View for Session {
    type V = SessionView;

    open spec fn view(&self) -> SessionView {
        SessionView {
            session_id: self.session_id,
            initiator: self.initiator@,
            created_at: self.created_at,
            nonce: self.nonce,
            operation_count: self.operation_count,
            session_ttl_seconds: self.session_ttl_seconds,
            closed: self.closed,
        }
    }
}

impl Duplicate for Session {
    fn dup(&self) -> (r: Self) {
        Session {
            session_id: self.session_id,
            initiator: self.initiator.dup(),
            created_at: self.created_at,
            nonce: self.nonce,
            operation_count: self.operation_count,
            session_ttl_seconds: self.session_ttl_seconds,
            closed: self.closed,
        }
    }
}

/// An exchange offer that an anchor has published.
#[derive(Clone, Debug, PartialEq)]
pub struct Quote {
    pub quote_id: u64,
    pub anchor: Address,
    pub base_asset: Text,
    pub quote_asset: Text,
    pub rate: u64,
    pub fee_percentage: u32,
    pub minimum_amount: u64,
    pub maximum_amount: u64,
    pub valid_until: u64,
}

/// The content of a [`Quote`].
pub struct QuoteView {
    pub quote_id: u64,
    pub anchor: Seq<u8>,
    pub base_asset: Seq<u8>,
    pub quote_asset: Seq<u8>,
    pub rate: u64,
    pub fee_percentage: u32,
    pub minimum_amount: u64,
    pub maximum_amount: u64,
    pub valid_until: u64,
}

impl View for Quote {
    type V = QuoteView;

    open spec fn view(&self) -> QuoteView {
        QuoteView {
            quote_id: self.quote_id,
            anchor: self.anchor@,
            base_asset: self.base_asset@,
            quote_asset: self.quote_asset@,
            rate: self.rate,
            fee_percentage: self.fee_percentage,
            minimum_amount: self.minimum_amount,
            maximum_amount: self.maximum_amount,
            valid_until: self.valid_until,
        }
    }
}

impl Duplicate for Quote {
    fn dup(&self) -> (r: Self) {
        Quote {
            quote_id: self.quote_id,
            anchor: self.anchor.dup(),
            base_asset: self.base_asset.dup(),
            quote_asset: self.quote_asset.dup(),
            rate: self.rate,
            fee_percentage: self.fee_percentage,
            minimum_amount: self.minimum_amount,
            maximum_amount: self.maximum_amount,
            valid_until: self.valid_until,
        }
    }
}

/// What an audited operation did.
#[derive(Clone, Debug, PartialEq)]
pub struct OperationContext {
    pub session_id: u64,
    pub operation_index: u64,
    pub operation_type: Text,
    pub timestamp: u64,
    pub status: Text,
    pub result_data: u64,
}

/// The content of a [`OperationContext`].
pub struct OperationContextView {
    pub session_id: u64,
    pub operation_index: u64,
    pub operation_type: Seq<u8>,
    pub timestamp: u64,
    pub status: Seq<u8>,
    pub result_data: u64,
}

impl View for OperationContext {
    type V = OperationContextView;

    open spec fn view(&self) -> OperationContextView {
        OperationContextView {
            session_id: self.session_id,
            operation_index: self.operation_index,
            operation_type: self.operation_type@,
            timestamp: self.timestamp,
            status: self.status@,
            result_data: self.result_data,
        }
    }
}

impl Duplicate for OperationContext {
    fn dup(&self) -> (r: Self) {
        OperationContext {
            session_id: self.session_id,
            operation_index: self.operation_index,
            operation_type: self.operation_type.dup(),
            timestamp: self.timestamp,
            status: self.status.dup(),
            result_data: self.result_data,
        }
    }
}

/// An audit entry of a session.
#[derive(Clone, Debug, PartialEq)]
pub struct AuditLog {
    pub log_id: u64,
    pub session_id: u64,
    pub actor: Address,
    pub operation: OperationContext,
}

/// The content of a [`AuditLog`].
pub struct AuditLogView {
    pub log_id: u64,
    pub session_id: u64,
    pub actor: Seq<u8>,
    pub operation: OperationContextView,
}

impl View for AuditLog {
    type V = AuditLogView;

    open spec fn view(&self) -> AuditLogView {
        AuditLogView {
            log_id: self.log_id,
            session_id: self.session_id,
            actor: self.actor@,
            operation: self.operation@,
        }
    }
}

impl Duplicate for AuditLog {
    fn dup(&self) -> (r: Self) {
        AuditLog {
            log_id: self.log_id,
            session_id: self.session_id,
            actor: self.actor.dup(),
            operation: self.operation.dup(),
        }
    }
}

/// The identifier of a request.
#[derive(Clone, Debug, PartialEq)]
pub struct RequestId {
    pub id: Bytes,
    pub created_at: u64,
}

/// The content of a [`RequestId`].
pub struct RequestIdView {
    pub id: Seq<u8>,
    pub created_at: u64,
}

impl View for RequestId {
    type V = RequestIdView;

    open spec fn view(&self) -> RequestIdView {
        RequestIdView {
            id: self.id@,
            created_at: self.created_at,
        }
    }
}

impl Duplicate for RequestId {
    fn dup(&self) -> (r: Self) {
        RequestId {
            id: self.id.dup(),
            created_at: self.created_at,
        }
    }
}

/// A root request and the names of the operations performed under it, in order.
#[derive(Clone, Debug, PartialEq)]
pub struct RequestContext {
    /// The root request that started the chain.
    pub root_request_id: RequestId,
    /// Names of the operations performed, in order.
    pub operation_chain: Vec<Text>,
    /// Ledger time at which the context was created.
    pub created_at: u64,
}

/// The content of a [`RequestContext`].
pub struct RequestContextView {
    pub root_request_id: RequestIdView,
    pub operation_chain: Seq<Seq<u8>>,
    pub created_at: u64,
}

impl View for RequestContext {
    type V = RequestContextView;

    open spec fn view(&self) -> RequestContextView {
        RequestContextView {
            root_request_id: self.root_request_id@,
            operation_chain: contents(self.operation_chain@),
            created_at: self.created_at,
        }
    }
}

impl Duplicate for RequestContext {
    fn dup(&self) -> (r: Self) {
        RequestContext {
            root_request_id: self.root_request_id.dup(),
            operation_chain: dup_list(&self.operation_chain),
            created_at: self.created_at,
        }
    }
}

/// A signed statement of an attestor about a subject.
#[derive(Clone, Debug, PartialEq)]
pub struct Attestation {
    pub id: u64,
    pub issuer: Address,
    pub subject: Address,
    pub timestamp: u64,
    pub payload_hash: Bytes,
    pub signature: Bytes,
}

/// The content of a [`Attestation`].
pub struct AttestationView {
    pub id: u64,
    pub issuer: Seq<u8>,
    pub subject: Seq<u8>,
    pub timestamp: u64,
    pub payload_hash: Seq<u8>,
    pub signature: Seq<u8>,
}

impl View for Attestation {
    type V = AttestationView;

    open spec fn view(&self) -> AttestationView {
        AttestationView {
            id: self.id,
            issuer: self.issuer@,
            subject: self.subject@,
            timestamp: self.timestamp,
            payload_hash: self.payload_hash@,
            signature: self.signature@,
        }
    }
}

impl Duplicate for Attestation {
    fn dup(&self) -> (r: Self) {
        Attestation {
            id: self.id,
            issuer: self.issuer.dup(),
            subject: self.subject.dup(),
            timestamp: self.timestamp,
            payload_hash: self.payload_hash.dup(),
            signature: self.signature.dup(),
        }
    }
}

/// One step of a trace.
#[derive(Clone, Debug, PartialEq)]
pub struct TracingSpan {
    pub request_id: RequestId,
    pub operation: Text,
    pub actor: Address,
    pub started_at: u64,
    pub completed_at: u64,
    pub status: Text,
    /// Identifier of the parent span, empty for a root span.
    pub parent_request_id_bytes: Bytes,
    /// Position of the span in its trace.
    pub span_index: u32,
}

/// The content of a [`TracingSpan`].
pub struct TracingSpanView {
    pub request_id: RequestIdView,
    pub operation: Seq<u8>,
    pub actor: Seq<u8>,
    pub started_at: u64,
    pub completed_at: u64,
    pub status: Seq<u8>,
    pub parent_request_id_bytes: Seq<u8>,
    pub span_index: u32,
}

impl View for TracingSpan {
    type V = TracingSpanView;

    open spec fn view(&self) -> TracingSpanView {
        TracingSpanView {
            request_id: self.request_id@,
            operation: self.operation@,
            actor: self.actor@,
            started_at: self.started_at,
            completed_at: self.completed_at,
            status: self.status@,
            parent_request_id_bytes: self.parent_request_id_bytes@,
            span_index: self.span_index,
        }
    }
}

impl Duplicate for TracingSpan {
    fn dup(&self) -> (r: Self) {
        TracingSpan {
            request_id: self.request_id.dup(),
            operation: self.operation.dup(),
            actor: self.actor.dup(),
            started_at: self.started_at,
            completed_at: self.completed_at,
            status: self.status.dup(),
            parent_request_id_bytes: self.parent_request_id_bytes.dup(),
            span_index: self.span_index,
        }
    }
}

/// The root of a trace and the index its next child span gets.
#[derive(Clone, Debug, PartialEq)]
pub struct TracingContext {
    pub root_request_id_bytes: Bytes,
    pub next_span_index: u32,
}

/// The content of a [`TracingContext`].
pub struct TracingContextView {
    pub root_request_id_bytes: Seq<u8>,
    pub next_span_index: u32,
}

impl View for TracingContext {
    type V = TracingContextView;

    open spec fn view(&self) -> TracingContextView {
        TracingContextView {
            root_request_id_bytes: self.root_request_id_bytes@,
            next_span_index: self.next_span_index,
        }
    }
}

impl Duplicate for TracingContext {
    fn dup(&self) -> (r: Self) {
        TracingContext {
            root_request_id_bytes: self.root_request_id_bytes.dup(),
            next_span_index: self.next_span_index,
        }
    }
}

/// The services an anchor offers, and the capability version they were configured under.
#[derive(Clone, Debug, PartialEq)]
pub struct AnchorServices {
    pub anchor: Address,
    pub services: Vec<u32>,
    pub service_capability_version: u32,
}

/// The content of a [`AnchorServices`].
pub struct AnchorServicesView {
    pub anchor: Seq<u8>,
    pub services: Seq<u32>,
    pub service_capability_version: u32,
}

impl View for AnchorServices {
    type V = AnchorServicesView;

    open spec fn view(&self) -> AnchorServicesView {
        AnchorServicesView {
            anchor: self.anchor@,
            services: contents(self.services@),
            service_capability_version: self.service_capability_version,
        }
    }
}

impl Duplicate for AnchorServices {
    fn dup(&self) -> (r: Self) {
        AnchorServices {
            anchor: self.anchor.dup(),
            services: dup_list(&self.services),
            service_capability_version: self.service_capability_version,
        }
    }
}

/// What routing knows of an anchor.
#[derive(Clone, Debug, PartialEq)]
pub struct RoutingAnchorMeta {
    pub anchor: Address,
    pub reputation_score: u32,
    pub average_settlement_time: u64,
    pub liquidity_score: u32,
    pub uptime_percentage: u32,
    pub total_volume: u64,
    pub is_active: bool,
}

/// The content of a [`RoutingAnchorMeta`].
pub struct RoutingAnchorMetaView {
    pub anchor: Seq<u8>,
    pub reputation_score: u32,
    pub average_settlement_time: u64,
    pub liquidity_score: u32,
    pub uptime_percentage: u32,
    pub total_volume: u64,
    pub is_active: bool,
}

impl View for RoutingAnchorMeta {
    type V = RoutingAnchorMetaView;

    open spec fn view(&self) -> RoutingAnchorMetaView {
        RoutingAnchorMetaView {
            anchor: self.anchor@,
            reputation_score: self.reputation_score,
            average_settlement_time: self.average_settlement_time,
            liquidity_score: self.liquidity_score,
            uptime_percentage: self.uptime_percentage,
            total_volume: self.total_volume,
            is_active: self.is_active,
        }
    }
}

impl Duplicate for RoutingAnchorMeta {
    fn dup(&self) -> (r: Self) {
        RoutingAnchorMeta {
            anchor: self.anchor.dup(),
            reputation_score: self.reputation_score,
            average_settlement_time: self.average_settlement_time,
            liquidity_score: self.liquidity_score,
            uptime_percentage: self.uptime_percentage,
            total_volume: self.total_volume,
            is_active: self.is_active,
        }
    }
}

/// What a client wants to exchange.
#[derive(Clone, Debug, PartialEq)]
pub struct RoutingRequest {
    pub base_asset: Text,
    pub quote_asset: Text,
    pub amount: u64,
    pub operation_type: u32,
}

/// The content of a [`RoutingRequest`].
pub struct RoutingRequestView {
    pub base_asset: Seq<u8>,
    pub quote_asset: Seq<u8>,
    pub amount: u64,
    pub operation_type: u32,
}

impl View for RoutingRequest {
    type V = RoutingRequestView;

    open spec fn view(&self) -> RoutingRequestView {
        RoutingRequestView {
            base_asset: self.base_asset@,
            quote_asset: self.quote_asset@,
            amount: self.amount,
            operation_type: self.operation_type,
        }
    }
}

/// A routing request with the filters and the strategy to apply.
#[derive(Clone, Debug, PartialEq)]
pub struct RoutingOptions {
    pub request: RoutingRequest,
    /// Names of strategies; the first one is applied.
    pub strategy: Vec<Text>,
    pub min_reputation: u32,
    pub max_anchors: u32,
    pub require_kyc: bool,
    pub require_compliance: bool,
    pub subject: Address,
}

/// The content of a [`RoutingOptions`].
pub struct RoutingOptionsView {
    pub request: RoutingRequestView,
    pub strategy: Seq<Seq<u8>>,
    pub min_reputation: u32,
    pub max_anchors: u32,
    pub require_kyc: bool,
    pub require_compliance: bool,
    pub subject: Seq<u8>,
}

impl View for RoutingOptions {
    type V = RoutingOptionsView;

    open spec fn view(&self) -> RoutingOptionsView {
        RoutingOptionsView {
            request: self.request@,
            strategy: contents(self.strategy@),
            min_reputation: self.min_reputation,
            max_anchors: self.max_anchors,
            require_kyc: self.require_kyc,
            require_compliance: self.require_compliance,
            subject: self.subject@,
        }
    }
}

/// The outcome of a compliance check.
#[derive(Clone, Debug, PartialEq)]
pub struct ComplianceCheck {
    pub subject: Address,
    pub check_type: Text,
    /// 1 when the check passed, 0 when it did not.
    pub result: u32,
    pub timestamp: u64,
}

/// The content of a [`ComplianceCheck`].
pub struct ComplianceCheckView {
    pub subject: Seq<u8>,
    pub check_type: Seq<u8>,
    pub result: u32,
    pub timestamp: u64,
}

impl View for ComplianceCheck {
    type V = ComplianceCheckView;

    open spec fn view(&self) -> ComplianceCheckView {
        ComplianceCheckView {
            subject: self.subject@,
            check_type: self.check_type@,
            result: self.result,
            timestamp: self.timestamp,
        }
    }
}

impl Duplicate for ComplianceCheck {
    fn dup(&self) -> (r: Self) {
        ComplianceCheck {
            subject: self.subject.dup(),
            check_type: self.check_type.dup(),
            result: self.result,
            timestamp: self.timestamp,
        }
    }
}

/// The state of a subject's KYC review.
#[derive(Clone, Debug, PartialEq)]
pub struct KycRecord {
    pub subject: Address,
    /// A [`KycStatus`] code.
    pub status: u32,
    pub submitted_at: u64,
    pub reviewed_at: Option<u64>,
    pub expiry: Option<u64>,
    pub rejection_reason_hash: Option<Bytes>,
}

/// The content of a [`KycRecord`].
pub struct KycRecordView {
    pub subject: Seq<u8>,
    pub status: u32,
    pub submitted_at: u64,
    pub reviewed_at: Option<u64>,
    pub expiry: Option<u64>,
    pub rejection_reason_hash: Option<Seq<u8>>,
}

impl View for KycRecord {
    type V = KycRecordView;

    open spec fn view(&self) -> KycRecordView {
        KycRecordView {
            subject: self.subject@,
            status: self.status,
            submitted_at: self.submitted_at,
            reviewed_at: self.reviewed_at,
            expiry: self.expiry,
            rejection_reason_hash: lifted(self.rejection_reason_hash),
        }
    }
}

impl Duplicate for KycRecord {
    fn dup(&self) -> (r: Self) {
        KycRecord {
            subject: self.subject.dup(),
            status: self.status,
            submitted_at: self.submitted_at,
            reviewed_at: self.reviewed_at,
            expiry: self.expiry,
            rejection_reason_hash: dup_option(&self.rejection_reason_hash),
        }
    }
}

/// Metadata of an anchor as fetched from it.
#[derive(Clone, Debug, PartialEq)]
pub struct AnchorMetadata {
    pub anchor: Address,
    pub reputation_score: u32,
    pub liquidity_score: u32,
    pub uptime_percentage: u32,
    pub total_volume: u64,
    pub average_settlement_time: u64,
    pub is_active: bool,
}

/// The content of a [`AnchorMetadata`].
pub struct AnchorMetadataView {
    pub anchor: Seq<u8>,
    pub reputation_score: u32,
    pub liquidity_score: u32,
    pub uptime_percentage: u32,
    pub total_volume: u64,
    pub average_settlement_time: u64,
    pub is_active: bool,
}

impl View for AnchorMetadata {
    type V = AnchorMetadataView;

    open spec fn view(&self) -> AnchorMetadataView {
        AnchorMetadataView {
            anchor: self.anchor@,
            reputation_score: self.reputation_score,
            liquidity_score: self.liquidity_score,
            uptime_percentage: self.uptime_percentage,
            total_volume: self.total_volume,
            average_settlement_time: self.average_settlement_time,
            is_active: self.is_active,
        }
    }
}

impl Duplicate for AnchorMetadata {
    fn dup(&self) -> (r: Self) {
        AnchorMetadata {
            anchor: self.anchor.dup(),
            reputation_score: self.reputation_score,
            liquidity_score: self.liquidity_score,
            uptime_percentage: self.uptime_percentage,
            total_volume: self.total_volume,
            average_settlement_time: self.average_settlement_time,
            is_active: self.is_active,
        }
    }
}

impl Comparable for AnchorMetadata {
    fn same(&self, other: &Self) -> (r: bool) {
        self.anchor.same(&other.anchor)
            && self.reputation_score == other.reputation_score
            && self.liquidity_score == other.liquidity_score
            && self.uptime_percentage == other.uptime_percentage
            && self.total_volume == other.total_volume
            && self.average_settlement_time == other.average_settlement_time
            && self.is_active == other.is_active
    }
}

/// A cached [`AnchorMetadata`] with its two time limits.
#[derive(Clone, Debug, PartialEq)]
pub struct MetadataCache {
    pub metadata: AnchorMetadata,
    pub cached_at: u64,
    pub ttl_seconds: u64,
    /// Grace period after `ttl_seconds` in which the entry may still be served.
    pub stale_ttl_seconds: u64,
    /// Set once the entry has been served in its grace period.
    pub needs_refresh: bool,
}

/// The content of a [`MetadataCache`].
pub struct MetadataCacheView {
    pub metadata: AnchorMetadataView,
    pub cached_at: u64,
    pub ttl_seconds: u64,
    pub stale_ttl_seconds: u64,
    pub needs_refresh: bool,
}

impl View for MetadataCache {
    type V = MetadataCacheView;

    open spec fn view(&self) -> MetadataCacheView {
        MetadataCacheView {
            metadata: self.metadata@,
            cached_at: self.cached_at,
            ttl_seconds: self.ttl_seconds,
            stale_ttl_seconds: self.stale_ttl_seconds,
            needs_refresh: self.needs_refresh,
        }
    }
}

impl Duplicate for MetadataCache {
    fn dup(&self) -> (r: Self) {
        MetadataCache {
            metadata: self.metadata.dup(),
            cached_at: self.cached_at,
            ttl_seconds: self.ttl_seconds,
            stale_ttl_seconds: self.stale_ttl_seconds,
            needs_refresh: self.needs_refresh,
        }
    }
}

/// A cached capability document.
#[derive(Clone, Debug, PartialEq)]
pub struct CapabilitiesCache {
    pub toml_url: Text,
    pub capabilities: Text,
    pub cached_at: u64,
    pub ttl_seconds: u64,
}

/// The content of a [`CapabilitiesCache`].
pub struct CapabilitiesCacheView {
    pub toml_url: Seq<u8>,
    pub capabilities: Seq<u8>,
    pub cached_at: u64,
    pub ttl_seconds: u64,
}

impl View for CapabilitiesCache {
    type V = CapabilitiesCacheView;

    open spec fn view(&self) -> CapabilitiesCacheView {
        CapabilitiesCacheView {
            toml_url: self.toml_url@,
            capabilities: self.capabilities@,
            cached_at: self.cached_at,
            ttl_seconds: self.ttl_seconds,
        }
    }
}

impl Duplicate for CapabilitiesCache {
    fn dup(&self) -> (r: Self) {
        CapabilitiesCache {
            toml_url: self.toml_url.dup(),
            capabilities: self.capabilities.dup(),
            cached_at: self.cached_at,
            ttl_seconds: self.ttl_seconds,
        }
    }
}

/// Terms under which an anchor handles an asset.
#[derive(Clone, Debug, PartialEq)]
pub struct AssetInfo {
    pub code: Text,
    pub issuer: Text,
    pub deposit_enabled: bool,
    pub withdrawal_enabled: bool,
    pub deposit_fee_fixed: u64,
    pub deposit_fee_percent: u32,
    pub withdrawal_fee_fixed: u64,
    pub withdrawal_fee_percent: u32,
    pub deposit_min_amount: u64,
    pub deposit_max_amount: u64,
    pub withdrawal_min_amount: u64,
    pub withdrawal_max_amount: u64,
}

/// The content of a [`AssetInfo`].
pub struct AssetInfoView {
    pub code: Seq<u8>,
    pub issuer: Seq<u8>,
    pub deposit_enabled: bool,
    pub withdrawal_enabled: bool,
    pub deposit_fee_fixed: u64,
    pub deposit_fee_percent: u32,
    pub withdrawal_fee_fixed: u64,
    pub withdrawal_fee_percent: u32,
    pub deposit_min_amount: u64,
    pub deposit_max_amount: u64,
    pub withdrawal_min_amount: u64,
    pub withdrawal_max_amount: u64,
}

impl View for AssetInfo {
    type V = AssetInfoView;

    open spec fn view(&self) -> AssetInfoView {
        AssetInfoView {
            code: self.code@,
            issuer: self.issuer@,
            deposit_enabled: self.deposit_enabled,
            withdrawal_enabled: self.withdrawal_enabled,
            deposit_fee_fixed: self.deposit_fee_fixed,
            deposit_fee_percent: self.deposit_fee_percent,
            withdrawal_fee_fixed: self.withdrawal_fee_fixed,
            withdrawal_fee_percent: self.withdrawal_fee_percent,
            deposit_min_amount: self.deposit_min_amount,
            deposit_max_amount: self.deposit_max_amount,
            withdrawal_min_amount: self.withdrawal_min_amount,
            withdrawal_max_amount: self.withdrawal_max_amount,
        }
    }
}

impl Duplicate for AssetInfo {
    fn dup(&self) -> (r: Self) {
        AssetInfo {
            code: self.code.dup(),
            issuer: self.issuer.dup(),
            deposit_enabled: self.deposit_enabled,
            withdrawal_enabled: self.withdrawal_enabled,
            deposit_fee_fixed: self.deposit_fee_fixed,
            deposit_fee_percent: self.deposit_fee_percent,
            withdrawal_fee_fixed: self.withdrawal_fee_fixed,
            withdrawal_fee_percent: self.withdrawal_fee_percent,
            deposit_min_amount: self.deposit_min_amount,
            deposit_max_amount: self.deposit_max_amount,
            withdrawal_min_amount: self.withdrawal_min_amount,
            withdrawal_max_amount: self.withdrawal_max_amount,
        }
    }
}

/// An anchor's published discovery document.
#[derive(Clone, Debug, PartialEq)]
pub struct StellarToml {
    pub version: Text,
    pub network_passphrase: Text,
    pub accounts: Vec<Text>,
    pub signing_key: Text,
    pub currencies: Vec<AssetInfo>,
    pub transfer_server: Text,
    pub transfer_server_sep0024: Text,
    pub kyc_server: Text,
    pub web_auth_endpoint: Text,
}

/// The content of a [`StellarToml`].
pub struct StellarTomlView {
    pub version: Seq<u8>,
    pub network_passphrase: Seq<u8>,
    pub accounts: Seq<Seq<u8>>,
    pub signing_key: Seq<u8>,
    pub currencies: Seq<AssetInfoView>,
    pub transfer_server: Seq<u8>,
    pub transfer_server_sep0024: Seq<u8>,
    pub kyc_server: Seq<u8>,
    pub web_auth_endpoint: Seq<u8>,
}

impl View for StellarToml {
    type V = StellarTomlView;

    open spec fn view(&self) -> StellarTomlView {
        StellarTomlView {
            version: self.version@,
            network_passphrase: self.network_passphrase@,
            accounts: contents(self.accounts@),
            signing_key: self.signing_key@,
            currencies: contents(self.currencies@),
            transfer_server: self.transfer_server@,
            transfer_server_sep0024: self.transfer_server_sep0024@,
            kyc_server: self.kyc_server@,
            web_auth_endpoint: self.web_auth_endpoint@,
        }
    }
}

impl Duplicate for StellarToml {
    fn dup(&self) -> (r: Self) {
        StellarToml {
            version: self.version.dup(),
            network_passphrase: self.network_passphrase.dup(),
            accounts: dup_list(&self.accounts),
            signing_key: self.signing_key.dup(),
            currencies: dup_list(&self.currencies),
            transfer_server: self.transfer_server.dup(),
            transfer_server_sep0024: self.transfer_server_sep0024.dup(),
            kyc_server: self.kyc_server.dup(),
            web_auth_endpoint: self.web_auth_endpoint.dup(),
        }
    }
}

/// A cached discovery document.
#[derive(Clone, Debug, PartialEq)]
pub struct CachedToml {
    pub toml: StellarToml,
    pub cached_at: u64,
    pub ttl_seconds: u64,
}

/// The content of a [`CachedToml`].
pub struct CachedTomlView {
    pub toml: StellarTomlView,
    pub cached_at: u64,
    pub ttl_seconds: u64,
}

impl View for CachedToml {
    type V = CachedTomlView;

    open spec fn view(&self) -> CachedTomlView {
        CachedTomlView {
            toml: self.toml@,
            cached_at: self.cached_at,
            ttl_seconds: self.ttl_seconds,
        }
    }
}

impl Duplicate for CachedToml {
    fn dup(&self) -> (r: Self) {
        CachedToml {
            toml: self.toml.dup(),
            cached_at: self.cached_at,
            ttl_seconds: self.ttl_seconds,
        }
    }
}

/// An attestor and the URL it has registered.
#[derive(Clone, Debug, PartialEq)]
pub struct EndpointUpdated {
    pub attestor: Address,
    pub endpoint: Text,
}

/// The content of a [`EndpointUpdated`].
pub struct EndpointUpdatedView {
    pub attestor: Seq<u8>,
    pub endpoint: Seq<u8>,
}

impl View for EndpointUpdated {
    type V = EndpointUpdatedView;

    open spec fn view(&self) -> EndpointUpdatedView {
        EndpointUpdatedView {
            attestor: self.attestor@,
            endpoint: self.endpoint@,
        }
    }
}

impl Duplicate for EndpointUpdated {
    fn dup(&self) -> (r: Self) {
        EndpointUpdated {
            attestor: self.attestor.dup(),
            endpoint: self.endpoint.dup(),
        }
    }
}

/// The notice sent to webhooks.
#[derive(Clone, Debug, PartialEq)]
pub struct WebhookEvent {
    pub event_type: Text,
    pub transaction_id: u64,
    pub timestamp: u64,
    pub payload_hash: Bytes,
}

/// The content of a [`WebhookEvent`].
pub struct WebhookEventView {
    pub event_type: Seq<u8>,
    pub transaction_id: u64,
    pub timestamp: u64,
    pub payload_hash: Seq<u8>,
}

impl View for WebhookEvent {
    type V = WebhookEventView;

    open spec fn view(&self) -> WebhookEventView {
        WebhookEventView {
            event_type: self.event_type@,
            transaction_id: self.transaction_id,
            timestamp: self.timestamp,
            payload_hash: self.payload_hash@,
        }
    }
}

impl Duplicate for WebhookEvent {
    fn dup(&self) -> (r: Self) {
        WebhookEvent {
            event_type: self.event_type.dup(),
            transaction_id: self.transaction_id,
            timestamp: self.timestamp,
            payload_hash: self.payload_hash.dup(),
        }
    }
}

/// The state of a transaction and how it got there.
#[derive(Clone, Debug, PartialEq)]
pub struct TransactionStateRecord {
    pub transaction_id: u64,
    pub state: TransactionState,
    pub initiator: Address,
    pub timestamp: u64,
    pub last_updated: u64,
    pub error_message: Option<Text>,
    /// Each state entered, with the ledger time.
    pub state_history: Vec<(TransactionState, u64)>,
}

/// The content of a [`TransactionStateRecord`].
pub struct TransactionStateRecordView {
    pub transaction_id: u64,
    pub state: TransactionState,
    pub initiator: Seq<u8>,
    pub timestamp: u64,
    pub last_updated: u64,
    pub error_message: Option<Seq<u8>>,
    pub state_history: Seq<(TransactionState, u64)>,
}

impl View for TransactionStateRecord {
    type V = TransactionStateRecordView;

    open spec fn view(&self) -> TransactionStateRecordView {
        TransactionStateRecordView {
            transaction_id: self.transaction_id,
            state: self.state,
            initiator: self.initiator@,
            timestamp: self.timestamp,
            last_updated: self.last_updated,
            error_message: lifted(self.error_message),
            state_history: contents(self.state_history@),
        }
    }
}

impl Duplicate for TransactionStateRecord {
    fn dup(&self) -> (r: Self) {
        TransactionStateRecord {
            transaction_id: self.transaction_id,
            state: self.state,
            initiator: self.initiator.dup(),
            timestamp: self.timestamp,
            last_updated: self.last_updated,
            error_message: dup_option(&self.error_message),
            state_history: dup_list(&self.state_history),
        }
    }
}

/// An anchor that routing leaves out.
#[derive(Clone, Debug, PartialEq)]
pub struct AnchorBlacklistEntry {
    pub anchor: Address,
    pub blacklisted_at: u64,
}

/// The content of a [`AnchorBlacklistEntry`].
pub struct AnchorBlacklistEntryView {
    pub anchor: Seq<u8>,
    pub blacklisted_at: u64,
}

impl View for AnchorBlacklistEntry {
    type V = AnchorBlacklistEntryView;

    open spec fn view(&self) -> AnchorBlacklistEntryView {
        AnchorBlacklistEntryView {
            anchor: self.anchor@,
            blacklisted_at: self.blacklisted_at,
        }
    }
}

impl Duplicate for AnchorBlacklistEntry {
    fn dup(&self) -> (r: Self) {
        AnchorBlacklistEntry {
            anchor: self.anchor.dup(),
            blacklisted_at: self.blacklisted_at,
        }
    }
}

/// A named group of anchors.
#[derive(Clone, Debug, PartialEq)]
pub struct AnchorCluster {
    pub name: Text,
    pub anchors: Vec<Address>,
    pub created_at: u64,
}

/// The content of a [`AnchorCluster`].
pub struct AnchorClusterView {
    pub name: Seq<u8>,
    pub anchors: Seq<Seq<u8>>,
    pub created_at: u64,
}

impl View for AnchorCluster {
    type V = AnchorClusterView;

    open spec fn view(&self) -> AnchorClusterView {
        AnchorClusterView {
            name: self.name@,
            anchors: contents(self.anchors@),
            created_at: self.created_at,
        }
    }
}

impl Duplicate for AnchorCluster {
    fn dup(&self) -> (r: Self) {
        AnchorCluster {
            name: self.name.dup(),
            anchors: dup_list(&self.anchors),
            created_at: self.created_at,
        }
    }
}

/// A signature over a message, and the key it is to be verified with.
#[derive(Clone, Debug, PartialEq)]
pub struct SignatureCheck {
    pub public_key: [u8; 32],
    pub message: Bytes,
    pub signature: Bytes,
}

/// The content of a [`SignatureCheck`].
pub struct SignatureCheckView {
    pub public_key: Seq<u8>,
    pub message: Seq<u8>,
    pub signature: Seq<u8>,
}

impl View for SignatureCheck {
    type V = SignatureCheckView;

    open spec fn view(&self) -> SignatureCheckView {
        SignatureCheckView {
            public_key: self.public_key@,
            message: self.message@,
            signature: self.signature@,
        }
    }
}

impl Comparable for SignatureCheck {
    fn same(&self, other: &Self) -> (r: bool) {
        self.public_key.same(&other.public_key)
            && self.message.same(&other.message)
            && self.signature.same(&other.signature)
    }
}

/// A SEP-10 token, the key it is to be verified with, and the subject it must name.
#[derive(Clone, Debug, PartialEq)]
pub struct TokenCheck {
    pub token: Text,
    pub public_key: Bytes,
    pub subject: Option<Address>,
}

/// The content of a [`TokenCheck`].
pub struct TokenCheckView {
    pub token: Seq<u8>,
    pub public_key: Seq<u8>,
    pub subject: Option<Seq<u8>>,
}

impl View for TokenCheck {
    type V = TokenCheckView;

    open spec fn view(&self) -> TokenCheckView {
        TokenCheckView {
            token: self.token@,
            public_key: self.public_key@,
            subject: lifted(self.subject),
        }
    }
}

impl Comparable for TokenCheck {
    fn same(&self, other: &Self) -> (r: bool) {
        self.token.same(&other.token)
            && self.public_key.same(&other.public_key)
            && same_option(&self.subject, &other.subject)
    }
}

} // verus!
