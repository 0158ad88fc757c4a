//! The services that anchors offer.

use crate::contract::{carried_out, first_of, unless, AnchorKitContract};
use crate::data::{contents, holds, Address, Duplicate};
use crate::env::{Env, State};
use crate::events::{Event, EventView};
use crate::stores::RegistryState;
use crate::table::{put, read, written};
use crate::types::{
    AnchorServices, AnchorServicesView, ErrorCode, ServiceType, MAX_KNOWN_SERVICE_CODE,
    PERSISTENT_TTL, SERVICE_CAPABILITY_VERSION, SERVICE_DEPOSITS, SERVICE_QUOTES,
};
use vstd::prelude::*;

verus! {

/// Whether the contract recognises a service code.
pub open spec fn known_service(code: u32) -> bool {
    1 <= code <= 4
}

/// Whether a list of service codes can be configured: it names at least one
/// service, none of them twice, and none that is unknown.
pub open spec fn valid_services(services: Seq<u32>) -> bool {
    &&& services.len() > 0
    &&& services.no_duplicates()
    &&& forall|i: int| 0 <= i < services.len() ==> known_service(#[trigger] services[i])
}

impl State {
    /// Why a configuration of services is refused.
    pub open spec fn configure_services_refusal(
        self,
        anchor: Seq<u8>,
        services: Seq<u32>,
        version: u32,
    ) -> Option<ErrorCode> {
        first_of(
            unless(self.authorized(anchor), ErrorCode::Unauthorized),
            first_of(
                unless(self.registered(anchor), ErrorCode::AttestorNotRegistered),
                first_of(
                    unless(
                        1 <= version <= SERVICE_CAPABILITY_VERSION,
                        ErrorCode::UnsupportedCapabilityVersion,
                    ),
                    unless(valid_services(services), ErrorCode::InvalidServiceType),
                ),
            ),
        )
    }

    /// The state in which `anchor` offers `services`.
    pub open spec fn configure_services_effect(
        self,
        anchor: Seq<u8>,
        services: Seq<u32>,
        version: u32,
    ) -> State {
        let record = AnchorServicesView { anchor, services, service_capability_version: version };
        State {
            registry: RegistryState {
                services: put(self.registry.services, anchor, record, PERSISTENT_TTL),
                ..self.registry
            },
            ..self
        }.announce(EventView::ServicesConfigured { services: record })
    }

    /// Whether `anchor` has configured the service `code`.
    pub open spec fn offers(self, anchor: Seq<u8>, code: u32) -> bool {
        match read(self.registry.services, anchor) {
            Some(record) => record.services.contains(code),
            None => false,
        }
    }
}

impl AnchorKitContract {
    /// Whether the contract recognises a service code.
    pub fn is_known_service_code(code: u32) -> (r: bool)
        ensures
            r == known_service(code),
    {
        code >= SERVICE_DEPOSITS && code <= MAX_KNOWN_SERVICE_CODE
    }

    /// Whether a list of service codes can be configured.
    fn check_services(services: &Vec<u32>) -> (r: bool)
        ensures
            r == valid_services(contents(services@)),
    {
        let ghost all = contents(services@);
        if services.len() == 0 {
            return false;
        }
        let mut seen: Vec<u32> = Vec::new();
        let mut i: usize = 0;
        while i < services.len()
            invariant
                all == contents(services@),
                i <= services@.len(),
                contents(seen@) == all.take(i as int),
                all.take(i as int).no_duplicates(),
                forall|j: int| 0 <= j < i ==> known_service(#[trigger] all[j]),
            decreases services@.len() - i,
        {
            let code: u32 = services[i];
            assert(code == all[i as int]);
            if holds(&seen, &code) {
                proof {
                    let j = choose|j: int|
                        0 <= j < all.take(i as int).len() && all.take(i as int)[j] == code;
                    assert(all[j] == all[i as int]);
                }
                return false;
            }
            if !Self::is_known_service_code(code) {
                return false;
            }
            proof {
                let before = all.take(i as int);
                assert(all.take(i + 1) =~= before.push(code));
                assert forall|a: int| 0 <= a < i implies #[trigger] before[a] != code by {
                    assert(before.contains(before[a]));
                }
            }
            seen.push(code);
            assert(contents(seen@) =~= all.take(i + 1));
            i = i + 1;
        }
        assert(all.take(i as int) =~= all);
        true
    }

    /// Configures the services of `anchor` under the current capability version.
    pub fn configure_services(env: &mut Env, anchor: Address, services: Vec<u32>) -> (r: Result<
        (),
        ErrorCode,
    >)
        ensures
            carried_out(
                r,
                old(env)@,
                final(env)@,
                old(env)@.configure_services_refusal(
                    anchor@,
                    contents(services@),
                    SERVICE_CAPABILITY_VERSION,
                ),
                old(env)@.configure_services_effect(
                    anchor@,
                    contents(services@),
                    SERVICE_CAPABILITY_VERSION,
                ),
            ),
    {
        Self::configure_services_versioned(env, anchor, services, SERVICE_CAPABILITY_VERSION)
    }

    /// Configures the services of `anchor`, a registered attestor who must
    /// authorize it, under a capability version. A version that the contract
    /// does not understand is refused, and so is a list that is empty, repeats
    /// a service or holds an unknown code. A new configuration replaces the one
    /// before.
    pub fn configure_services_versioned(
        env: &mut Env,
        anchor: Address,
        services: Vec<u32>,
        version: u32,
    ) -> (r: Result<(), ErrorCode>)
        ensures
            carried_out(
                r,
                old(env)@,
                final(env)@,
                old(env)@.configure_services_refusal(anchor@, contents(services@), version),
                old(env)@.configure_services_effect(anchor@, contents(services@), version),
            ),
    {
        if !env.authorized(&anchor) {
            return Err(ErrorCode::Unauthorized);
        }
        match Self::check_attestor(env, &anchor) {
            Ok(_) => {},
            Err(e) => return Err(e),
        }
        if version == 0 || version > SERVICE_CAPABILITY_VERSION {
            return Err(ErrorCode::UnsupportedCapabilityVersion);
        }
        if !Self::check_services(&services) {
            return Err(ErrorCode::InvalidServiceType);
        }
        let record = AnchorServices {
            anchor: anchor.dup(),
            services,
            service_capability_version: version,
        };
        env.registry.services.set(anchor, record.dup(), PERSISTENT_TTL);
        env.announce(Event::ServicesConfigured { services: record });
        Ok(())
    }

    /// The newest capability version that the contract understands.
    pub fn current_capability_version(_env: &Env) -> (r: u32)
        ensures
            r == SERVICE_CAPABILITY_VERSION,
    {
        SERVICE_CAPABILITY_VERSION
    }

    /// The capability version under which `anchor` configured its services.
    pub fn get_service_capability_version(env: &Env, anchor: Address) -> (r: Result<
        u32,
        ErrorCode,
    >)
        ensures
            match r {
                Ok(version) => read(env@.registry.services, anchor@) matches Some(record)
                    && version == record.service_capability_version,
                Err(e) => read(env@.registry.services, anchor@) is None && e
                    == ErrorCode::ServicesNotConfigured,
            },
    {
        match env.registry.services.get(&anchor) {
            Some(record) => Ok(record.service_capability_version),
            None => Err(ErrorCode::ServicesNotConfigured),
        }
    }

    /// The services that `anchor` has configured.
    pub fn get_supported_services(env: &Env, anchor: Address) -> (r: Result<
        AnchorServices,
        ErrorCode,
    >)
        ensures
            match r {
                Ok(record) => read(env@.registry.services, anchor@) == Some(record@),
                Err(e) => read(env@.registry.services, anchor@) is None && e
                    == ErrorCode::ServicesNotConfigured,
            },
    {
        match env.registry.services.get(&anchor) {
            Some(record) => Ok(record),
            None => Err(ErrorCode::ServicesNotConfigured),
        }
    }

    /// Whether `anchor` has configured `service`.
    pub fn supports_service(env: &Env, anchor: Address, service: u32) -> (r: Result<
        bool,
        ErrorCode,
    >)
        ensures
            match r {
                Ok(answer) => read(env@.registry.services, anchor@) is Some && answer
                    == env@.offers(anchor@, service),
                Err(e) => read(env@.registry.services, anchor@) is None && e
                    == ErrorCode::ServicesNotConfigured,
            },
    {
        match env.registry.services.get(&anchor) {
            Some(record) => Ok(holds(&record.services, &service)),
            None => Err(ErrorCode::ServicesNotConfigured),
        }
    }

    /// Whether `anchor` has configured the quote service.
    pub fn advertises_quote_service(env: &Env, anchor: &Address) -> (r: bool)
        ensures
            r == env@.offers(anchor@, SERVICE_QUOTES),
    {
        match env.registry.services.get(anchor) {
            Some(record) => holds(&record.services, &SERVICE_QUOTES),
            None => false,
        }
    }
}

/// What an anchor configures is what it offers, no more and no less.
pub proof fn configured_services_are_offered(
    s: State,
    anchor: Seq<u8>,
    services: Seq<u32>,
    version: u32,
    code: u32,
    other: Seq<u8>,
)
    ensures
        ({
            let t = s.configure_services_effect(anchor, services, version);
            &&& t.offers(anchor, code) == services.contains(code)
            &&& read(t.registry.services, anchor) == Some(
                AnchorServicesView { anchor, services, service_capability_version: version },
            )
            &&& other != anchor ==> t.offers(other, code) == s.offers(other, code)
        }),
{
}

/// An anchor offers known services only.
pub proof fn offered_services_are_known(s: State, anchor: Seq<u8>, code: u32)
    requires
        s.consistent(),
        s.offers(anchor, code),
    ensures
        known_service(code),
{
    assert(s.registry.services.dom().contains(anchor));
    let services = s.registry.services[anchor].value.services;
    let i = services.index_of(code);
    assert(known_service(services[i]));
}

/// The services are deposits, withdrawals, quotes and KYC, with the codes one to four,
/// and no other code is recognised.
pub proof fn service_codes_are_exact(code: u32)
    ensures
        known_service(code) <==> code == 1 || code == 2 || code == 3 || code == 4,
        known_service(code) <==> exists|service: ServiceType| #[trigger] service.code() == code,
        ServiceType::Deposits.code() == 1,
        ServiceType::Withdrawals.code() == 2,
        ServiceType::Quotes.code() == 3,
        ServiceType::KYC.code() == 4,
{
    assert(ServiceType::Deposits.code() == 1);
    assert(ServiceType::Withdrawals.code() == 2);
    assert(ServiceType::Quotes.code() == 3);
    assert(ServiceType::KYC.code() == 4);
}

/// Services are configured by an anchor that authorizes it and is a registered
/// attestor, under the version one, as a list that is not empty, repeats nothing, and
/// holds codes from one to four only; these are looked at in this order.
pub proof fn service_refusals_are_exact(
    s: State,
    anchor: Seq<u8>,
    services: Seq<u32>,
    version: u32,
)
    ensures
        ({
            let refusal = s.configure_services_refusal(anchor, services, version);
            let authorized = s.host.authorized.contains(anchor);
            let registered = s.registry.attestors.dom().contains(anchor);
            let distinct = forall|i: int, j: int|
                0 <= i < j < services.len() ==> services[i] != services[j];
            let recognised = forall|i: int|
                0 <= i < services.len() ==> 1 <= #[trigger] services[i] <= 4;
            let valid = services.len() > 0 && distinct && recognised;
            &&& refusal == Some(ErrorCode::Unauthorized) <==> !authorized
            &&& refusal == Some(ErrorCode::AttestorNotRegistered) <==> authorized && !registered
            &&& refusal == Some(ErrorCode::UnsupportedCapabilityVersion) <==> authorized
                && registered && version != 1
            &&& refusal == Some(ErrorCode::InvalidServiceType) <==> authorized && registered
                && version == 1 && !valid
            &&& refusal is None <==> authorized && registered && version == 1 && valid
        }),
{
    let distinct = forall|i: int, j: int|
        0 <= i < j < services.len() ==> services[i] != services[j];
    if distinct {
        assert(services.no_duplicates()) by {
            assert forall|i: int, j: int|
                0 <= i < services.len() && 0 <= j < services.len() && i != j implies services[i]
                != services[j] by {
                if i < j {
                    assert(services[i] != services[j]);
                } else {
                    assert(services[j] != services[i]);
                }
            }
        }
    }
    let recognised = forall|i: int| 0 <= i < services.len() ==> 1 <= #[trigger] services[i] <= 4;
    if !recognised {
        let i = choose|i: int|
            0 <= i < services.len() && !(1 <= #[trigger] services[i] && services[i] <= 4);
        assert(!known_service(services[i]));
    }
}

/// A configuration is written as given and announced, and nothing else changes. A
/// service is offered exactly if the configuration of the anchor lists it.
pub proof fn services_are_written(
    s: State,
    anchor: Seq<u8>,
    services: Seq<u32>,
    version: u32,
    code: u32,
)
    ensures
        ({
            let record = AnchorServicesView {
                anchor,
                services,
                service_capability_version: version,
            };
            let t = s.configure_services_effect(anchor, services, version);
            &&& written(s.registry.services, t.registry.services, anchor, record, PERSISTENT_TTL)
            &&& t.events == s.events.push(EventView::ServicesConfigured { services: record })
            &&& t == State {
                registry: RegistryState { services: t.registry.services, ..s.registry },
                events: t.events,
                ..s
            }
            &&& s.offers(anchor, code) <==> s.registry.services.dom().contains(anchor)
                && s.registry.services[anchor].value.services.contains(code)
        }),
{
}

} // verus!
