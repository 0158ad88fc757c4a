//! Attestors: their SEP-10 identity, registration, endpoints and webhooks.

use crate::contract::{carried_out, first_of, unless, AnchorKitContract};
use crate::data::{holds, lifted, Address, Bytes, Duplicate, Text};
use crate::env::{Env, State};
use crate::events::{Event, EventView};
use crate::stores::{InstanceState, RegistryState};
use crate::table::{erased, put, read, written};
use crate::types::{
    EndpointUpdated, EndpointUpdatedView, ErrorCode, TokenCheck, TokenCheckView, PERSISTENT_TTL,
};
use vstd::prelude::*;
use vstd::utf8::{decode_utf8, valid_utf8};

verus! {

impl State {
    /// Why a verifying key for SEP-10 tokens is refused.
    pub open spec fn set_sep10_key_refusal(self, public_key: Seq<u8>) -> Option<ErrorCode> {
        first_of(self.admin_refusal(), unless(public_key.len() == 32, ErrorCode::ValidationError))
    }

    /// The state with a verifying key for the tokens of `issuer`.
    pub open spec fn set_sep10_key_effect(self, issuer: Seq<u8>, public_key: Seq<u8>) -> State {
        State {
            registry: RegistryState {
                sep10_keys: put(self.registry.sep10_keys, issuer, public_key, PERSISTENT_TTL),
                ..self.registry
            },
            ..self
        }
    }

    /// Why a SEP-10 token is refused: there is no key for its issuer, or the
    /// token does not hold under that key for the subject asked for.
    pub open spec fn token_refusal(
        self,
        token: Seq<u8>,
        issuer: Seq<u8>,
        subject: Option<Seq<u8>>,
    ) -> Option<ErrorCode> {
        match read(self.registry.sep10_keys, issuer) {
            None => Some(ErrorCode::InvalidSep10Token),
            Some(public_key) => unless(
                self.host.tokens.contains(TokenCheckView { token, public_key, subject }),
                ErrorCode::InvalidSep10Token,
            ),
        }
    }

    /// Whether `attestor` is registered.
    pub open spec fn registered(self, attestor: Seq<u8>) -> bool {
        self.registry.attestors.dom().contains(attestor)
    }

    /// How many attestors there may be.
    pub open spec fn attestor_limit(self) -> u32 {
        match self.instance.capacity {
            Some(c) => c.max_attestors,
            None => u32::MAX,
        }
    }

    /// Why a new attestor is refused, its identity aside.
    pub open spec fn add_attestor_refusal(self, attestor: Seq<u8>) -> Option<ErrorCode> {
        first_of(
            unless(!self.registered(attestor), ErrorCode::AttestorAlreadyRegistered),
            unless(
                self.instance.attestor_count < self.attestor_limit(),
                ErrorCode::CapacityExceeded,
            ),
        )
    }

    /// The state with a new attestor.
    pub open spec fn add_attestor(self, attestor: Seq<u8>, public_key: Seq<u8>) -> State {
        State {
            registry: RegistryState {
                attestors: put(self.registry.attestors, attestor, true, PERSISTENT_TTL),
                public_keys: put(self.registry.public_keys, attestor, public_key, PERSISTENT_TTL),
                ..self.registry
            },
            instance: InstanceState {
                attestor_count: (self.instance.attestor_count + 1) as u32,
                ..self.instance
            },
            ..self
        }
    }

    /// The state without an attestor.
    pub open spec fn drop_attestor(self, attestor: Seq<u8>) -> State {
        State {
            registry: RegistryState {
                attestors: self.registry.attestors.remove(attestor),
                public_keys: self.registry.public_keys.remove(attestor),
                ..self.registry
            },
            instance: InstanceState {
                attestor_count: if self.instance.attestor_count > 0 {
                    (self.instance.attestor_count - 1) as u32
                } else {
                    0
                },
                ..self.instance
            },
            ..self
        }
    }

    /// Why `register_attestor` is refused.
    pub open spec fn register_attestor_refusal(
        self,
        attestor: Seq<u8>,
        token: Seq<u8>,
        issuer: Seq<u8>,
    ) -> Option<ErrorCode> {
        first_of(
            self.admin_refusal(),
            first_of(
                self.token_refusal(token, issuer, Some(attestor)),
                self.add_attestor_refusal(attestor),
            ),
        )
    }

    /// The state after `register_attestor`.
    pub open spec fn register_attestor_effect(
        self,
        attestor: Seq<u8>,
        public_key: Seq<u8>,
    ) -> State {
        self.add_attestor(attestor, public_key).announce(EventView::AttestorAdded { attestor })
    }

    /// Why `revoke_attestor` is refused.
    pub open spec fn revoke_attestor_refusal(self, attestor: Seq<u8>) -> Option<ErrorCode> {
        first_of(
            self.admin_refusal(),
            unless(self.registered(attestor), ErrorCode::AttestorNotRegistered),
        )
    }

    /// The state after `revoke_attestor`.
    pub open spec fn revoke_attestor_effect(self, attestor: Seq<u8>) -> State {
        self.drop_attestor(attestor).announce(EventView::AttestorRemoved { attestor })
    }

    /// Whether a URL is text that the host accepts as an anchor domain.
    pub open spec fn acceptable_url(self, url: Seq<u8>) -> bool {
        valid_utf8(url) && self.host.domains.contains(decode_utf8(url))
    }

    /// Why a URL that `attestor` wants to register is refused.
    pub open spec fn set_url_refusal(self, attestor: Seq<u8>, url: Seq<u8>) -> Option<ErrorCode> {
        first_of(
            unless(self.authorized(attestor), ErrorCode::Unauthorized),
            first_of(
                unless(self.registered(attestor), ErrorCode::AttestorNotRegistered),
                unless(self.acceptable_url(url), ErrorCode::InvalidEndpointFormat),
            ),
        )
    }

    /// The state in which `attestor` has the endpoint `url`.
    pub open spec fn set_endpoint_effect(self, attestor: Seq<u8>, url: Seq<u8>) -> State {
        State {
            registry: RegistryState {
                endpoints: put(self.registry.endpoints, attestor, url, PERSISTENT_TTL),
                ..self.registry
            },
            ..self
        }.announce(
            EventView::EndpointUpdated { update: EndpointUpdatedView { attestor, endpoint: url } },
        )
    }

    /// The state in which `attestor` has the webhook `url`.
    pub open spec fn register_webhook_effect(self, attestor: Seq<u8>, url: Seq<u8>) -> State {
        State {
            registry: RegistryState {
                webhooks: put(self.registry.webhooks, attestor, url, PERSISTENT_TTL),
                ..self.registry
            },
            ..self
        }.announce(
            EventView::WebhookRegistered { update: EndpointUpdatedView { attestor, endpoint: url } },
        )
    }

    /// The endpoint of a registered attestor.
    pub open spec fn endpoint(self, attestor: Seq<u8>) -> Option<Seq<u8>> {
        if read(self.registry.attestors, attestor) == Some(true) {
            read(self.registry.endpoints, attestor)
        } else {
            None
        }
    }

    /// The webhook of a registered attestor.
    pub open spec fn webhook(self, attestor: Seq<u8>) -> Option<Seq<u8>> {
        if read(self.registry.attestors, attestor) == Some(true) {
            read(self.registry.webhooks, attestor)
        } else {
            None
        }
    }
}

/// `String::from_utf8` of the standard library. Trusted: it succeeds exactly on
/// valid UTF-8, and the string then holds the characters that the bytes encode.
#[verifier::external_body]
fn string_from_utf8(value: &Text) -> (r: Option<String>)
    ensures
        match r {
            Some(s) => valid_utf8(value@) && s@ == decode_utf8(value@),
            None => !valid_utf8(value@),
        },
{
    String::from_utf8(value.clone()).ok()
}

impl AnchorKitContract {
    /// Stores the 32-byte Ed25519 key that verifies the SEP-10 tokens of
    /// `issuer`. Administrator only.
    pub fn set_sep10_jwt_verifying_key(env: &mut Env, issuer: Address, public_key: Bytes) -> (r:
        Result<(), ErrorCode>)
        ensures
            carried_out(
                r,
                old(env)@,
                final(env)@,
                old(env)@.set_sep10_key_refusal(public_key@),
                old(env)@.set_sep10_key_effect(issuer@, public_key@),
            ),
    {
        match env.require_admin() {
            Ok(_) => {},
            Err(e) => return Err(e),
        }
        if public_key.len() != 32 {
            return Err(ErrorCode::ValidationError);
        }
        env.registry.sep10_keys.set(issuer, public_key, PERSISTENT_TTL);
        Ok(())
    }

    /// Checks a SEP-10 token against the key stored for `issuer`, and against a
    /// subject if there is one.
    fn check_token(env: &Env, token: Text, issuer: &Address, subject: Option<Address>) -> (r:
        Result<(), ErrorCode>)
        ensures
            match r {
                Ok(_) => env@.token_refusal(token@, issuer@, lifted(subject)) is None,
                Err(e) => env@.token_refusal(token@, issuer@, lifted(subject)) == Some(e),
            },
    {
        match env.registry.sep10_keys.get(issuer) {
            None => Err(ErrorCode::InvalidSep10Token),
            Some(public_key) => {
                let check = TokenCheck { token, public_key, subject };
                if holds(&env.host.tokens, &check) {
                    Ok(())
                } else {
                    Err(ErrorCode::InvalidSep10Token)
                }
            },
        }
    }

    /// Verifies a SEP-10 token with the key stored for `issuer`.
    pub fn verify_sep10_token(env: &Env, token: Text, issuer: Address) -> (r: Result<
        (),
        ErrorCode,
    >)
        ensures
            match r {
                Ok(_) => env@.token_refusal(token@, issuer@, None) is None,
                Err(e) => env@.token_refusal(token@, issuer@, None) == Some(e),
            },
    {
        Self::check_token(env, token, &issuer, None)
    }

    /// Verifies a SEP-10 token with the key stored for `issuer`, and that it
    /// names `subject`.
    pub fn verify_sep10_token_for_subject(
        env: &Env,
        token: Text,
        issuer: Address,
        subject: Address,
    ) -> (r: Result<(), ErrorCode>)
        ensures
            match r {
                Ok(_) => env@.token_refusal(token@, issuer@, Some(subject@)) is None,
                Err(e) => env@.token_refusal(token@, issuer@, Some(subject@)) == Some(e),
            },
    {
        Self::check_token(env, token, &issuer, Some(subject))
    }

    /// Refuses an attestor that is registered already or for which there is no
    /// room.
    pub(crate) fn check_new_attestor(env: &Env, attestor: &Address) -> (r: Result<(), ErrorCode>)
        ensures
            match r {
                Ok(_) => env@.add_attestor_refusal(attestor@) is None,
                Err(e) => env@.add_attestor_refusal(attestor@) == Some(e),
            },
    {
        if env.registry.attestors.has(attestor) {
            return Err(ErrorCode::AttestorAlreadyRegistered);
        }
        let limit: u32 = match env.instance.capacity {
            Some(c) => c.max_attestors,
            None => u32::MAX,
        };
        if env.instance.attestor_count < limit {
            Ok(())
        } else {
            Err(ErrorCode::CapacityExceeded)
        }
    }

    /// Adds an attestor to the registry.
    pub(crate) fn add_attestor(env: &mut Env, attestor: &Address, public_key: [u8; 32])
        requires
            old(env)@.instance.attestor_count < u32::MAX,
        ensures
            final(env)@ == old(env)@.add_attestor(attestor@, public_key@),
    {
        env.registry.attestors.set(attestor.dup(), true, PERSISTENT_TTL);
        env.registry.public_keys.set(attestor.dup(), public_key, PERSISTENT_TTL);
        env.instance.attestor_count = env.instance.attestor_count + 1;
    }

    /// Drops an attestor from the registry.
    pub(crate) fn drop_attestor(env: &mut Env, attestor: &Address)
        ensures
            final(env)@ == old(env)@.drop_attestor(attestor@),
    {
        env.registry.attestors.remove(attestor);
        env.registry.public_keys.remove(attestor);
        if env.instance.attestor_count > 0 {
            env.instance.attestor_count = env.instance.attestor_count - 1;
        }
    }

    /// Registers `attestor` under the key that verifies its attestations. A
    /// SEP-10 token of `sep10_issuer` must name the attestor. Administrator
    /// only.
    pub fn register_attestor(
        env: &mut Env,
        attestor: Address,
        sep10_token: Text,
        sep10_issuer: Address,
        public_key: [u8; 32],
    ) -> (r: Result<(), ErrorCode>)
        ensures
            carried_out(
                r,
                old(env)@,
                final(env)@,
                old(env)@.register_attestor_refusal(attestor@, sep10_token@, sep10_issuer@),
                old(env)@.register_attestor_effect(attestor@, public_key@),
            ),
    {
        match env.require_admin() {
            Ok(_) => {},
            Err(e) => return Err(e),
        }
        match Self::check_token(env, sep10_token, &sep10_issuer, Some(attestor.dup())) {
            Ok(_) => {},
            Err(e) => return Err(e),
        }
        match Self::check_new_attestor(env, &attestor) {
            Ok(_) => {},
            Err(e) => return Err(e),
        }
        Self::add_attestor(env, &attestor, public_key);
        env.announce(Event::AttestorAdded { attestor });
        Ok(())
    }

    /// Revokes `attestor`. Administrator only.
    pub fn revoke_attestor(env: &mut Env, attestor: Address) -> (r: Result<(), ErrorCode>)
        ensures
            carried_out(
                r,
                old(env)@,
                final(env)@,
                old(env)@.revoke_attestor_refusal(attestor@),
                old(env)@.revoke_attestor_effect(attestor@),
            ),
    {
        match env.require_admin() {
            Ok(_) => {},
            Err(e) => return Err(e),
        }
        if !env.registry.attestors.has(&attestor) {
            return Err(ErrorCode::AttestorNotRegistered);
        }
        Self::drop_attestor(env, &attestor);
        env.announce(Event::AttestorRemoved { attestor });
        Ok(())
    }

    /// Whether `attestor` is registered.
    pub fn is_attestor(env: &Env, attestor: Address) -> (r: bool)
        ensures
            r == (read(env@.registry.attestors, attestor@) == Some(true)),
    {
        match env.registry.attestors.get(&attestor) {
            Some(flag) => flag,
            None => false,
        }
    }

    /// How many attestors are registered.
    pub fn get_attestor_count(env: &Env) -> (r: u32)
        ensures
            r == env@.instance.attestor_count,
    {
        env.instance.attestor_count
    }

    /// Refuses an address that is not a registered attestor.
    pub(crate) fn check_attestor(env: &Env, attestor: &Address) -> (r: Result<(), ErrorCode>)
        ensures
            match r {
                Ok(_) => env@.registered(attestor@),
                Err(e) => !env@.registered(attestor@) && e == ErrorCode::AttestorNotRegistered,
            },
    {
        if env.registry.attestors.has(attestor) {
            Ok(())
        } else {
            Err(ErrorCode::AttestorNotRegistered)
        }
    }

    /// The text that a byte string holds.
    pub fn soroban_string_to_rust_string(value: &Text) -> (r: Result<String, ErrorCode>)
        ensures
            match r {
                Ok(s) => valid_utf8(value@) && s@ == decode_utf8(value@),
                Err(e) => !valid_utf8(value@) && e == ErrorCode::InvalidEndpointFormat,
            },
    {
        match string_from_utf8(value) {
            Some(s) => Ok(s),
            None => Err(ErrorCode::InvalidEndpointFormat),
        }
    }

    /// Refuses a URL that `attestor` may not register.
    fn check_url(env: &Env, attestor: &Address, url: &Text) -> (r: Result<(), ErrorCode>)
        ensures
            match r {
                Ok(_) => env@.set_url_refusal(attestor@, url@) is None,
                Err(e) => env@.set_url_refusal(attestor@, url@) == Some(e),
            },
    {
        if !env.authorized(attestor) {
            return Err(ErrorCode::Unauthorized);
        }
        match Self::check_attestor(env, attestor) {
            Ok(_) => {},
            Err(e) => return Err(e),
        }
        match Self::soroban_string_to_rust_string(url) {
            Ok(domain) => if holds(&env.host.domains, &domain) {
                Ok(())
            } else {
                Err(ErrorCode::InvalidEndpointFormat)
            },
            Err(e) => Err(e),
        }
    }

    /// Sets the endpoint of `attestor`, who must authorize it.
    pub fn set_endpoint(env: &mut Env, attestor: Address, endpoint: Text) -> (r: Result<
        (),
        ErrorCode,
    >)
        ensures
            carried_out(
                r,
                old(env)@,
                final(env)@,
                old(env)@.set_url_refusal(attestor@, endpoint@),
                old(env)@.set_endpoint_effect(attestor@, endpoint@),
            ),
    {
        match Self::check_url(env, &attestor, &endpoint) {
            Ok(_) => {},
            Err(e) => return Err(e),
        }
        env.registry.endpoints.set(attestor.dup(), endpoint.dup(), PERSISTENT_TTL);
        env.announce(Event::EndpointUpdated { update: EndpointUpdated { attestor, endpoint } });
        Ok(())
    }

    /// The endpoint of `attestor`.
    pub fn get_endpoint(env: &Env, attestor: Address) -> (r: Result<Text, ErrorCode>)
        ensures
            match r {
                Ok(url) => env@.endpoint(attestor@) == Some(url@),
                Err(e) => env@.endpoint(attestor@) is None && e == ErrorCode::AttestorNotRegistered,
            },
    {
        if !Self::is_attestor(env, attestor.dup()) {
            return Err(ErrorCode::AttestorNotRegistered);
        }
        match env.registry.endpoints.get(&attestor) {
            Some(url) => Ok(url),
            None => Err(ErrorCode::AttestorNotRegistered),
        }
    }

    /// Sets the webhook of `attestor`, who must authorize it.
    pub fn register_webhook(env: &mut Env, attestor: Address, webhook_url: Text) -> (r: Result<
        (),
        ErrorCode,
    >)
        ensures
            carried_out(
                r,
                old(env)@,
                final(env)@,
                old(env)@.set_url_refusal(attestor@, webhook_url@),
                old(env)@.register_webhook_effect(attestor@, webhook_url@),
            ),
    {
        match Self::check_url(env, &attestor, &webhook_url) {
            Ok(_) => {},
            Err(e) => return Err(e),
        }
        env.registry.webhooks.set(attestor.dup(), webhook_url.dup(), PERSISTENT_TTL);
        env.announce(
            Event::WebhookRegistered { update: EndpointUpdated { attestor, endpoint: webhook_url } },
        );
        Ok(())
    }

    /// The webhook of `attestor`.
    pub fn get_webhook_url(env: &Env, attestor: Address) -> (r: Result<Text, ErrorCode>)
        ensures
            match r {
                Ok(url) => env@.webhook(attestor@) == Some(url@),
                Err(e) => env@.webhook(attestor@) is None && e == ErrorCode::AttestorNotRegistered,
            },
    {
        if !Self::is_attestor(env, attestor.dup()) {
            return Err(ErrorCode::AttestorNotRegistered);
        }
        match env.registry.webhooks.get(&attestor) {
            Some(url) => Ok(url),
            None => Err(ErrorCode::AttestorNotRegistered),
        }
    }
}

/// A registered attestor is known, with its key, and there are at most as many
/// attestors as the limit allows.
pub proof fn registration_is_known(
    s: State,
    attestor: Seq<u8>,
    token: Seq<u8>,
    issuer: Seq<u8>,
    public_key: Seq<u8>,
)
    requires
        s.register_attestor_refusal(attestor, token, issuer) is None,
    ensures
        ({
            let t = s.register_attestor_effect(attestor, public_key);
            &&& t.registered(attestor)
            &&& read(t.registry.attestors, attestor) == Some(true)
            &&& read(t.registry.public_keys, attestor) == Some(public_key)
            &&& t.instance.attestor_count == s.instance.attestor_count + 1
            &&& t.instance.attestor_count <= t.attestor_limit()
            &&& forall|other: Seq<u8>|
                other != attestor ==> #[trigger] t.registered(other) == s.registered(other)
        }),
{
}

/// A full registry takes no further attestor.
pub proof fn full_registry_refuses(s: State, attestor: Seq<u8>, token: Seq<u8>, issuer: Seq<u8>)
    requires
        s.instance.attestor_count >= s.attestor_limit(),
    ensures
        s.register_attestor_refusal(attestor, token, issuer) is Some,
        s.add_attestor_refusal(attestor) == Some(
            if s.registered(attestor) {
                ErrorCode::AttestorAlreadyRegistered
            } else {
                ErrorCode::CapacityExceeded
            },
        ),
{
}

/// Revoking a new attestor restores the registry, and makes room again.
pub proof fn revocation_undoes_registration(s: State, attestor: Seq<u8>, public_key: Seq<u8>)
    requires
        s.registry.attestors.dom() == s.registry.public_keys.dom(),
        s.add_attestor_refusal(attestor) is None,
    ensures
        s.add_attestor(attestor, public_key).drop_attestor(attestor) == s,
{
    let t = s.add_attestor(attestor, public_key).drop_attestor(attestor);
    assert(!s.registry.public_keys.dom().contains(attestor));
    assert(t.registry.attestors =~= s.registry.attestors);
    assert(t.registry.public_keys =~= s.registry.public_keys);
}

/// An attestor that is not registered can do nothing in that role: neither
/// attest nor submit KYC data, publish a URL or configure services. Its
/// endpoint and webhook are not shown.
pub proof fn stranger_cannot_attest(
    s: State,
    stranger: Seq<u8>,
    subject: Seq<u8>,
    payload_hash: Seq<u8>,
    signature: Seq<u8>,
    url: Seq<u8>,
    services: Seq<u32>,
    version: u32,
)
    requires
        !s.registered(stranger),
    ensures
        s.issuer_refusal(stranger, payload_hash, signature) == Some(
            ErrorCode::AttestorNotRegistered,
        ),
        s.submit_kyc_refusal(subject, stranger) is Some,
        s.set_url_refusal(stranger, url) is Some,
        s.configure_services_refusal(stranger, services, version) is Some,
        s.endpoint(stranger) is None,
        s.webhook(stranger) is None,
{
}

/// A registered attestor reads back the endpoint and the webhook that it set.
pub proof fn urls_read_back(s: State, attestor: Seq<u8>, url: Seq<u8>)
    requires
        read(s.registry.attestors, attestor) == Some(true),
    ensures
        s.set_endpoint_effect(attestor, url).endpoint(attestor) == Some(url),
        s.set_endpoint_effect(attestor, url).webhook(attestor) == s.webhook(attestor),
        s.register_webhook_effect(attestor, url).webhook(attestor) == Some(url),
        s.register_webhook_effect(attestor, url).endpoint(attestor) == s.endpoint(attestor),
{
}

/// A token is judged by the key stored last for its issuer, and without a key no
/// token of an issuer holds.
pub proof fn tokens_go_by_the_stored_key(
    s: State,
    issuer: Seq<u8>,
    public_key: Seq<u8>,
    token: Seq<u8>,
    subject: Option<Seq<u8>>,
)
    ensures
        read(s.registry.sep10_keys, issuer) is None ==> s.token_refusal(token, issuer, subject)
            == Some(ErrorCode::InvalidSep10Token),
        s.set_sep10_key_effect(issuer, public_key).token_refusal(token, issuer, subject) is None
            <==> s.host.tokens.contains(TokenCheckView { token, public_key, subject }),
{
}

/// The key for the tokens of an issuer is set by the administrator, has thirty-two
/// bytes, and is written as given. Nothing else changes.
pub proof fn token_key_is_written(s: State, issuer: Seq<u8>, public_key: Seq<u8>)
    ensures
        ({
            let refusal = s.set_sep10_key_refusal(public_key);
            let t = s.set_sep10_key_effect(issuer, public_key);
            &&& s.admin_refusal() is Some ==> refusal == s.admin_refusal()
            &&& s.admin_refusal() is None && public_key.len() != 32 ==> refusal == Some(
                ErrorCode::ValidationError,
            )
            &&& s.admin_refusal() is None && public_key.len() == 32 ==> refusal is None
            &&& written(
                s.registry.sep10_keys,
                t.registry.sep10_keys,
                issuer,
                public_key,
                PERSISTENT_TTL,
            )
            &&& t == State {
                registry: RegistryState { sep10_keys: t.registry.sep10_keys, ..s.registry },
                ..s
            }
        }),
{
}

/// A token is accepted exactly if there is a key for its issuer and the host has found
/// that the token holds under that key for the subject asked for.
pub proof fn tokens_are_judged_exactly(
    s: State,
    token: Seq<u8>,
    issuer: Seq<u8>,
    subject: Option<Seq<u8>>,
)
    ensures
        ({
            let refusal = s.token_refusal(token, issuer, subject);
            let held = s.registry.sep10_keys.dom().contains(issuer) && s.host.tokens.contains(
                TokenCheckView {
                    token,
                    public_key: s.registry.sep10_keys[issuer].value,
                    subject,
                },
            );
            &&& refusal is None <==> held
            &&& !held ==> refusal == Some(ErrorCode::InvalidSep10Token)
        }),
{
}

/// A registration needs the administrator, a token of the issuer that names the
/// attestor, an attestor that is not registered, and room for it, in this order. The
/// room is what the capacity says, and all there is without one.
pub proof fn registration_refusals_are_exact(
    s: State,
    attestor: Seq<u8>,
    token: Seq<u8>,
    issuer: Seq<u8>,
)
    ensures
        ({
            let refusal = s.register_attestor_refusal(attestor, token, issuer);
            let token_refusal = s.token_refusal(token, issuer, Some(attestor));
            let registered = s.registry.attestors.dom().contains(attestor);
            let limit = match s.instance.capacity {
                Some(capacity) => capacity.max_attestors,
                None => u32::MAX,
            };
            let added = s.add_attestor_refusal(attestor);
            &&& registered ==> added == Some(ErrorCode::AttestorAlreadyRegistered)
            &&& !registered && s.instance.attestor_count >= limit ==> added == Some(
                ErrorCode::CapacityExceeded,
            )
            &&& !registered && s.instance.attestor_count < limit ==> added is None
            &&& s.admin_refusal() is Some ==> refusal == s.admin_refusal()
            &&& s.admin_refusal() is None && token_refusal is Some ==> refusal == token_refusal
            &&& s.admin_refusal() is None && token_refusal is None ==> refusal == added
            &&& s.registered(attestor) <==> registered
        }),
{
}

/// A registration writes the attestor and its key as given, counts it, and is
/// announced. Nothing else changes.
pub proof fn registration_is_exact(s: State, attestor: Seq<u8>, public_key: Seq<u8>)
    requires
        s.instance.attestor_count < u32::MAX,
    ensures
        ({
            let t = s.register_attestor_effect(attestor, public_key);
            &&& written(s.registry.attestors, t.registry.attestors, attestor, true, PERSISTENT_TTL)
            &&& written(
                s.registry.public_keys,
                t.registry.public_keys,
                attestor,
                public_key,
                PERSISTENT_TTL,
            )
            &&& t.instance.attestor_count == s.instance.attestor_count + 1
            &&& t.events == s.events.push(EventView::AttestorAdded { attestor })
            &&& t == State {
                registry: RegistryState {
                    attestors: t.registry.attestors,
                    public_keys: t.registry.public_keys,
                    ..s.registry
                },
                instance: InstanceState {
                    attestor_count: t.instance.attestor_count,
                    ..s.instance
                },
                events: t.events,
                ..s
            }
        }),
{
}

/// A revocation needs the administrator and a registered attestor. It removes the
/// attestor and its key, takes it off the count, and is announced. Nothing else
/// changes.
pub proof fn revocation_is_exact(s: State, attestor: Seq<u8>)
    ensures
        ({
            let registered = s.registry.attestors.dom().contains(attestor);
            let refusal = s.revoke_attestor_refusal(attestor);
            let t = s.revoke_attestor_effect(attestor);
            &&& s.admin_refusal() is Some ==> refusal == s.admin_refusal()
            &&& s.admin_refusal() is None && !registered ==> refusal == Some(
                ErrorCode::AttestorNotRegistered,
            )
            &&& s.admin_refusal() is None && registered ==> refusal is None
            &&& erased(s.registry.attestors, t.registry.attestors, attestor)
            &&& erased(s.registry.public_keys, t.registry.public_keys, attestor)
            &&& s.instance.attestor_count > 0 ==> t.instance.attestor_count
                == s.instance.attestor_count - 1
            &&& s.instance.attestor_count == 0 ==> t.instance.attestor_count == 0
            &&& t.events == s.events.push(EventView::AttestorRemoved { attestor })
            &&& t == State {
                registry: RegistryState {
                    attestors: t.registry.attestors,
                    public_keys: t.registry.public_keys,
                    ..s.registry
                },
                instance: InstanceState {
                    attestor_count: t.instance.attestor_count,
                    ..s.instance
                },
                events: t.events,
                ..s
            }
        }),
{
}

/// A URL is registered by an attestor that authorizes it, is registered, and gives
/// text that the host takes for a domain, in this order.
pub proof fn url_refusals_are_exact(s: State, attestor: Seq<u8>, url: Seq<u8>)
    ensures
        ({
            let refusal = s.set_url_refusal(attestor, url);
            let authorized = s.host.authorized.contains(attestor);
            let registered = s.registry.attestors.dom().contains(attestor);
            let domain = valid_utf8(url) && s.host.domains.contains(decode_utf8(url));
            &&& refusal == Some(ErrorCode::Unauthorized) <==> !authorized
            &&& refusal == Some(ErrorCode::AttestorNotRegistered) <==> authorized && !registered
            &&& refusal == Some(ErrorCode::InvalidEndpointFormat) <==> authorized && registered
                && !domain
            &&& refusal is None <==> authorized && registered && domain
        }),
{
}

/// An endpoint and a webhook are written as given and announced. Nothing else changes.
/// They are shown of a registered attestor only.
pub proof fn urls_are_exact(s: State, attestor: Seq<u8>, url: Seq<u8>)
    ensures
        ({
            let t = s.set_endpoint_effect(attestor, url);
            let u = s.register_webhook_effect(attestor, url);
            let update = EndpointUpdatedView { attestor, endpoint: url };
            let registered = s.registry.attestors.dom().contains(attestor)
                && s.registry.attestors[attestor].value;
            &&& written(s.registry.endpoints, t.registry.endpoints, attestor, url, PERSISTENT_TTL)
            &&& t.events == s.events.push(EventView::EndpointUpdated { update })
            &&& t == State {
                registry: RegistryState { endpoints: t.registry.endpoints, ..s.registry },
                events: t.events,
                ..s
            }
            &&& written(s.registry.webhooks, u.registry.webhooks, attestor, url, PERSISTENT_TTL)
            &&& u.events == s.events.push(EventView::WebhookRegistered { update })
            &&& u == State {
                registry: RegistryState { webhooks: u.registry.webhooks, ..s.registry },
                events: u.events,
                ..s
            }
            &&& s.endpoint(attestor) is Some <==> registered
                && s.registry.endpoints.dom().contains(attestor)
            &&& s.endpoint(attestor) is Some ==> s.endpoint(attestor) == Some(
                s.registry.endpoints[attestor].value,
            )
            &&& s.webhook(attestor) is Some <==> registered
                && s.registry.webhooks.dom().contains(attestor)
            &&& s.webhook(attestor) is Some ==> s.webhook(attestor) == Some(
                s.registry.webhooks[attestor].value,
            )
        }),
{
}

} // verus!
