//! The environment of a call: the ledger, the host's answers, and the
//! contract's state.

use crate::data::{contents, holds, lifted, Address, Duplicate};
use crate::events::{Event, EventView};
use crate::stores::{
    Attestations, AttestationsState, Caches, CachesState, Compliance, ComplianceState, Instance,
    InstanceState, Registry, RegistryState, Routing, RoutingState, Sessions, SessionsState, Tracing,
    TracingState,
};
use crate::table::{longer, put, read, written, Stored, Table};
use crate::types::{
    ErrorCode, RateLimitConfig, SignatureCheck, SignatureCheckView, TokenCheck, TokenCheckView,
    TransactionStateRecord, TransactionStateRecordView, INSTANCE_TTL,
};
use vstd::prelude::*;

verus! {

/// The ledger in which a call runs.
#[derive(Clone, Copy, Debug, PartialEq, Eq, Structural)]
pub struct Ledger {
    pub timestamp: u64,
    pub sequence: u32,
}

/// What the host has answered for this call. The contract cannot decide these
/// questions itself: each list holds what the host has accepted, and whatever
/// is not listed counts as refused.
pub struct Host {
    /// Addresses on whose behalf the call is authorized.
    pub authorized: Vec<Address>,
    /// Ed25519 signatures that hold.
    pub signatures: Vec<SignatureCheck>,
    /// SEP-10 tokens that hold.
    pub tokens: Vec<TokenCheck>,
    /// Texts that are acceptable anchor domains.
    pub domains: Vec<String>,
    /// Configurations that the rate limiter takes.
    pub rate_limits: Vec<RateLimitConfig>,
}

/// The content of [`Host`].
pub struct HostState {
    pub authorized: Seq<Seq<u8>>,
    pub signatures: Seq<SignatureCheckView>,
    pub tokens: Seq<TokenCheckView>,
    pub domains: Seq<Seq<char>>,
    pub rate_limits: Seq<RateLimitConfig>,
}

impl View for Host {
    type V = HostState;

    open spec fn view(&self) -> HostState {
        HostState {
            authorized: contents(self.authorized@),
            signatures: contents(self.signatures@),
            tokens: contents(self.tokens@),
            domains: contents(self.domains@),
            rate_limits: contents(self.rate_limits@),
        }
    }
}

/// Everything a call can see and change.
pub struct Env {
    pub ledger: Ledger,
    pub host: Host,
    pub instance: Instance,
    pub registry: Registry,
    pub attestations: Attestations,
    pub tracing: Tracing,
    pub compliance: Compliance,
    pub sessions: Sessions,
    pub routing: Routing,
    pub caches: Caches,
    pub transactions: Table<u64, TransactionStateRecord>,
    /// How many more submissions the rate limiter grants an attestor.
    pub allowances: Table<Address, u32>,
    /// The code that the host has been asked to install.
    pub wasm: Option<[u8; 32]>,
    /// What has been announced, in order.
    pub events: Vec<Event>,
}

/// The content of [`Env`].
pub struct State {
    pub ledger: Ledger,
    pub host: HostState,
    pub instance: InstanceState,
    pub registry: RegistryState,
    pub attestations: AttestationsState,
    pub tracing: TracingState,
    pub compliance: ComplianceState,
    pub sessions: SessionsState,
    pub routing: RoutingState,
    pub caches: CachesState,
    pub transactions: Map<u64, Stored<TransactionStateRecordView>>,
    pub allowances: Map<Seq<u8>, Stored<u32>>,
    pub wasm: Option<Seq<u8>>,
    pub events: Seq<EventView>,
}

impl View for Env {
    type V = State;

    open spec fn view(&self) -> State {
        State {
            ledger: self.ledger,
            host: self.host@,
            instance: self.instance@,
            registry: self.registry@,
            attestations: self.attestations@,
            tracing: self.tracing@,
            compliance: self.compliance@,
            sessions: self.sessions@,
            routing: self.routing@,
            caches: self.caches@,
            transactions: self.transactions@,
            allowances: self.allowances@,
            wasm: lifted(self.wasm),
            events: contents(self.events@),
        }
    }
}

impl State {
    /// A contract without any state.
    pub open spec fn fresh(ledger: Ledger, host: HostState) -> State {
        State {
            ledger,
            host,
            instance: InstanceState::empty(),
            registry: RegistryState::empty(),
            attestations: AttestationsState::empty(),
            tracing: TracingState::empty(),
            compliance: ComplianceState::empty(),
            sessions: SessionsState::empty(),
            routing: RoutingState::empty(),
            caches: CachesState::empty(),
            transactions: Map::empty(),
            allowances: Map::empty(),
            wasm: None,
            events: Seq::empty(),
        }
    }

    /// The ledger time.
    pub open spec fn now(self) -> u64 {
        self.ledger.timestamp
    }

    /// Whether the call is authorized on behalf of `address`.
    pub open spec fn authorized(self, address: Seq<u8>) -> bool {
        self.host.authorized.contains(address)
    }

    /// The state after announcing `event`.
    pub open spec fn announce(self, event: EventView) -> State {
        State { events: self.events.push(event), ..self }
    }

    /// Why a call that only the administrator may make is refused.
    pub open spec fn admin_refusal(self) -> Option<ErrorCode> {
        match self.instance.admin {
            None => Some(ErrorCode::NotInitialized),
            Some(admin) => if self.authorized(admin) {
                None
            } else {
                Some(ErrorCode::Unauthorized)
            },
        }
    }

    /// How many more submissions the rate limiter grants `attestor`.
    pub open spec fn allowance(self, attestor: Seq<u8>) -> u32 {
        match read(self.allowances, attestor) {
            Some(n) => n,
            None => 0,
        }
    }

    /// The state after `attestor` has used up `n` submissions.
    pub open spec fn spend(self, attestor: Seq<u8>, n: u32) -> State {
        State {
            allowances: put(
                self.allowances,
                attestor,
                (self.allowance(attestor) - n) as u32,
                0,
            ),
            ..self
        }
    }
}

impl InstanceState {
    /// The instance with its lifetime extended.
    pub open spec fn extended(self) -> InstanceState {
        InstanceState { ttl: longer(self.ttl, INSTANCE_TTL), ..self }
    }
}

impl Instance {
    /// Asks for the instance to live [`INSTANCE_TTL`] ledgers.
    pub fn extend(&mut self)
        ensures
            final(self)@ == old(self)@.extended(),
    {
        if self.ttl < INSTANCE_TTL {
            self.ttl = INSTANCE_TTL;
        }
    }
}

impl Env {
    /// A contract without any state.
    pub fn new(ledger: Ledger, host: Host) -> (r: Env)
        ensures
            r@ == State::fresh(ledger, host@),
    {
        let r = Env {
            ledger,
            host,
            instance: Instance::new(),
            registry: Registry::new(),
            attestations: Attestations::new(),
            tracing: Tracing::new(),
            compliance: Compliance::new(),
            sessions: Sessions::new(),
            routing: Routing::new(),
            caches: Caches::new(),
            transactions: Table::new(),
            allowances: Table::new(),
            wasm: None,
            events: Vec::new(),
        };
        assert(r@.events =~= Seq::empty());
        r
    }

    /// Whether the call is authorized on behalf of `address`.
    pub fn authorized(&self, address: &Address) -> (r: bool)
        ensures
            r == self@.authorized(address@),
    {
        holds(&self.host.authorized, address)
    }

    /// Announces `event`.
    pub fn announce(&mut self, event: Event)
        ensures
            final(self)@ == old(self)@.announce(event@),
    {
        self.events.push(event);
        assert(contents(self.events@) =~= contents(old(self).events@).push(event@));
    }

    /// How many more submissions the rate limiter grants `attestor`.
    pub fn allowance(&self, attestor: &Address) -> (r: u32)
        ensures
            r == self@.allowance(attestor@),
    {
        match self.allowances.get(attestor) {
            Some(n) => n,
            None => 0,
        }
    }

    /// Uses up `n` submissions of `attestor`.
    pub fn spend(&mut self, attestor: &Address, n: u32)
        requires
            n <= old(self)@.allowance(attestor@),
        ensures
            final(self)@ == old(self)@.spend(attestor@, n),
    {
        let left: u32 = self.allowance(attestor) - n;
        self.allowances.set(attestor.dup(), left, 0);
    }

    /// Refuses a call that the administrator has not authorized.
    pub fn require_admin(&self) -> (r: Result<(), ErrorCode>)
        ensures
            match r {
                Ok(_) => self@.admin_refusal() is None,
                Err(e) => self@.admin_refusal() == Some(e),
            },
    {
        match &self.instance.admin {
            None => Err(ErrorCode::NotInitialized),
            Some(admin) => if self.authorized(admin) {
                Ok(())
            } else {
                Err(ErrorCode::Unauthorized)
            },
        }
    }
}

/// Whether an instance has been asked to live [`INSTANCE_TTL`] ledgers, and no less
/// than before.
pub open spec fn kept_alive(before: InstanceState, after: InstanceState) -> bool {
    &&& after.ttl >= INSTANCE_TTL
    &&& after.ttl >= before.ttl
    &&& after.ttl == INSTANCE_TTL || after.ttl == before.ttl
}

/// A call of the administrator is let through exactly if there is an administrator
/// and the host has authorized the call on its behalf. Without an administrator the
/// contract says that it is not initialized.
pub proof fn administrator_must_authorize(s: State)
    ensures
        s.admin_refusal() is None <==> (s.instance.admin matches Some(admin)
            && s.host.authorized.contains(admin)),
        s.admin_refusal() == Some(ErrorCode::NotInitialized) <==> s.instance.admin is None,
        s.admin_refusal() == Some(ErrorCode::Unauthorized) <==> (
        s.instance.admin matches Some(admin) && !s.host.authorized.contains(admin)),
{
}

/// A call is authorized by exactly those that the host lists, and its time is the
/// ledger's.
pub proof fn host_decides_authorization(s: State, address: Seq<u8>)
    ensures
        s.authorized(address) <==> exists|i: int|
            0 <= i < s.host.authorized.len() && #[trigger] s.host.authorized[i] == address,
        s.now() == s.ledger.timestamp,
{
}

/// An announcement comes after those before it, and changes nothing else.
pub proof fn announcement_comes_last(s: State, event: EventView)
    ensures
        ({
            let t = s.announce(event);
            &&& t.events.len() == s.events.len() + 1
            &&& t.events.last() == event
            &&& forall|i: int| 0 <= i < s.events.len() ==> #[trigger] t.events[i] == s.events[i]
            &&& t == State { events: t.events, ..s }
        }),
{
}

/// Submissions that are used up are taken off the allowance of their attestor, and
/// of nobody else. An attestor without an allowance has none.
pub proof fn spending_is_subtracting(s: State, attestor: Seq<u8>, n: u32, other: Seq<u8>)
    requires
        n <= s.allowance(attestor),
    ensures
        ({
            let t = s.spend(attestor, n);
            &&& t.allowance(attestor) == s.allowance(attestor) - n
            &&& other != attestor ==> t.allowance(other) == s.allowance(other)
            &&& written(
                s.allowances,
                t.allowances,
                attestor,
                (s.allowance(attestor) - n) as u32,
                0,
            )
            &&& t == State { allowances: t.allowances, ..s }
        }),
        s.allowances.dom().contains(other) ==> s.allowance(other) == s.allowances[other].value,
        !s.allowances.dom().contains(other) ==> s.allowance(other) == 0,
{
}

/// An instance that is extended lives on, and holds what it held.
pub proof fn extension_keeps_alive(instance: InstanceState)
    ensures
        kept_alive(instance, instance.extended()),
        instance.extended() == (InstanceState { ttl: instance.extended().ttl, ..instance }),
{
}

/// A contract without any state has no administrator, holds nothing, has counted
/// nothing and has announced nothing.
pub proof fn fresh_contract_is_empty(ledger: Ledger, host: HostState)
    ensures
        ({
            let s = State::fresh(ledger, host);
            &&& s.ledger == ledger
            &&& s.host == host
            &&& s.instance.admin is None
            &&& s.instance.version is None
            &&& s.instance.last_wasm_hash is None
            &&& s.instance.jwt_max_len is None
            &&& s.instance.jwt_skew is None
            &&& s.instance.rate_limit is None
            &&& s.instance.capacity is None
            &&& s.instance.attestor_count == 0
            &&& s.instance.cache_count == 0
            &&& s.instance.next_attestation == 0
            &&& s.instance.next_session == 0
            &&& s.instance.quote_count == 0
            &&& s.instance.next_audit == 0
            &&& s.instance.ttl == 0
            &&& s.instance.migrated.dom().is_empty()
            &&& s.registry.sep10_keys.dom().is_empty()
            &&& s.registry.attestors.dom().is_empty()
            &&& s.registry.public_keys.dom().is_empty()
            &&& s.registry.endpoints.dom().is_empty()
            &&& s.registry.webhooks.dom().is_empty()
            &&& s.registry.services.dom().is_empty()
            &&& s.attestations.records.dom().is_empty()
            &&& s.attestations.used.dom().is_empty()
            &&& s.tracing.spans.dom().is_empty()
            &&& s.tracing.traces.dom().is_empty()
            &&& s.tracing.children.dom().is_empty()
            &&& s.tracing.requests.dom().is_empty()
            &&& s.compliance.kyc.dom().is_empty()
            &&& s.compliance.kyc_data.dom().is_empty()
            &&& s.compliance.checks.dom().is_empty()
            &&& s.sessions.sessions.dom().is_empty()
            &&& s.sessions.nonces.dom().is_empty()
            &&& s.sessions.operation_counts.dom().is_empty()
            &&& s.sessions.audits.dom().is_empty()
            &&& s.sessions.logs.dom().is_empty()
            &&& s.routing.quotes.dom().is_empty()
            &&& s.routing.latest.dom().is_empty()
            &&& s.routing.metas.dom().is_empty()
            &&& s.routing.anchors.len() == 0
            &&& s.routing.blacklist.dom().is_empty()
            &&& s.routing.clusters.dom().is_empty()
            &&& s.routing.cluster_names.len() == 0
            &&& s.caches.metadata.dom().is_empty()
            &&& s.caches.capabilities.dom().is_empty()
            &&& s.caches.tomls.dom().is_empty()
            &&& s.transactions.dom().is_empty()
            &&& s.allowances.dom().is_empty()
            &&& s.wasm is None
            &&& s.events.len() == 0
        }),
{
}

} // verus!
