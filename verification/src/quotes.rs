//! Quotes of anchors.

use crate::contract::{carried_out, first_of, unless, AnchorKitContract};
use crate::data::{bytes_of, text, Address, Duplicate, Text};
use crate::env::{kept_alive, Env, State};
use crate::events::{Event, EventView};
use crate::stores::{InstanceState, RoutingState, TracingState};
use crate::table::{put, read, written};
use crate::types::{
    ErrorCode, Quote, QuoteView, RequestId, RequestIdView, TracingSpanView, BASIS_POINTS,
    PERSISTENT_TTL, SERVICE_QUOTES, SPAN_TTL,
};
use vstd::prelude::*;

verus! {

impl State {
    /// Why `submit_quote` is refused.
    pub open spec fn submit_quote_refusal(
        self,
        anchor: Seq<u8>,
        fee_percentage: u32,
    ) -> Option<ErrorCode> {
        first_of(
            unless(self.authorized(anchor), ErrorCode::Unauthorized),
            first_of(
                unless(fee_percentage <= BASIS_POINTS, ErrorCode::InvalidQuote),
                unless(self.instance.quote_count < u64::MAX, ErrorCode::ArithmeticOverflow),
            ),
        )
    }

    /// The state after `submit_quote` of a quote that carries the next number.
    pub open spec fn submit_quote_effect(self, quote: QuoteView) -> State {
        State {
            instance: InstanceState { quote_count: quote.quote_id, ..self.instance }.extended(),
            routing: RoutingState {
                quotes: put(
                    self.routing.quotes,
                    (quote.anchor, quote.quote_id),
                    quote,
                    PERSISTENT_TTL,
                ),
                latest: put(self.routing.latest, quote.anchor, quote.quote_id, PERSISTENT_TTL),
                ..self.routing
            },
            ..self
        }.announce(
            EventView::QuoteSubmitted {
                quote_id: quote.quote_id,
                anchor: quote.anchor,
                base_asset: quote.base_asset,
                quote_asset: quote.quote_asset,
                rate: quote.rate,
                valid_until: quote.valid_until,
            },
        )
    }

    /// The number of the next quote.
    pub open spec fn next_quote(self) -> u64 {
        (self.instance.quote_count + 1) as u64
    }

    /// Why `receive_quote` is refused.
    pub open spec fn receive_quote_refusal(
        self,
        receiver: Seq<u8>,
        anchor: Seq<u8>,
        quote_id: u64,
    ) -> Option<ErrorCode> {
        first_of(
            unless(self.authorized(receiver), ErrorCode::Unauthorized),
            unless(
                read(self.routing.quotes, (anchor, quote_id)) is Some,
                ErrorCode::AttestationNotFound,
            ),
        )
    }

    /// The state after `receive_quote`.
    pub open spec fn receive_quote_effect(self, receiver: Seq<u8>, quote_id: u64) -> State {
        self.announce(EventView::QuoteReceived { quote_id, receiver, timestamp: self.now() })
    }

    /// Why `accept_quote_with_compliance` is refused.
    pub open spec fn accept_quote_refusal(
        self,
        receiver: Seq<u8>,
        anchor: Seq<u8>,
        quote_id: u64,
        require_compliance: bool,
    ) -> Option<ErrorCode> {
        first_of(
            unless(self.authorized(receiver), ErrorCode::Unauthorized),
            first_of(
                unless(
                    read(self.routing.quotes, (anchor, quote_id)) is Some,
                    ErrorCode::NoQuotesAvailable,
                ),
                unless(
                    require_compliance ==> self.passed_check(receiver, bytes_of("kyc")),
                    ErrorCode::ComplianceNotMet,
                ),
            ),
        )
    }

    /// The state after `accept_quote_with_compliance`.
    pub open spec fn accept_quote_effect(self, receiver: Seq<u8>, quote_id: u64) -> State {
        self.announce(EventView::QuoteAccepted { quote_id, receiver, timestamp: self.now() })
    }

    /// Why `quote_with_request_id` is refused.
    pub open spec fn trace_quote_refusal(self, anchor: Seq<u8>) -> Option<ErrorCode> {
        first_of(
            unless(self.authorized(anchor), ErrorCode::Unauthorized),
            unless(self.offers(anchor, SERVICE_QUOTES), ErrorCode::ServicesNotConfigured),
        )
    }

    /// The state after `quote_with_request_id`.
    pub open spec fn trace_quote_effect(self, request_id: RequestIdView, anchor: Seq<u8>) -> State {
        self.store_span(
            request_id,
            bytes_of("submit_quote"),
            anchor,
            Seq::empty(),
            0,
        ).append_operation(request_id.id, bytes_of("submit_quote"))
    }
}

impl AnchorKitContract {
    /// Publishes a quote of `anchor`, who must authorize it, and returns its
    /// number. The fee is in basis points and at most the whole amount.
    pub fn submit_quote(
        env: &mut Env,
        anchor: Address,
        base_asset: Text,
        quote_asset: Text,
        rate: u64,
        fee_percentage: u32,
        minimum_amount: u64,
        maximum_amount: u64,
        valid_until: u64,
    ) -> (r: Result<u64, ErrorCode>)
        ensures
            carried_out(
                r,
                old(env)@,
                final(env)@,
                old(env)@.submit_quote_refusal(anchor@, fee_percentage),
                old(env)@.submit_quote_effect(
                    (QuoteView {
                        quote_id: old(env)@.next_quote(),
                        anchor: anchor@,
                        base_asset: base_asset@,
                        quote_asset: quote_asset@,
                        rate,
                        fee_percentage,
                        minimum_amount,
                        maximum_amount,
                        valid_until,
                    }),
                ),
            ),
            r matches Ok(id) ==> id == old(env)@.next_quote(),
    {
        if !env.authorized(&anchor) {
            return Err(ErrorCode::Unauthorized);
        }
        if fee_percentage > BASIS_POINTS {
            return Err(ErrorCode::InvalidQuote);
        }
        if env.instance.quote_count == u64::MAX {
            return Err(ErrorCode::ArithmeticOverflow);
        }
        let next: u64 = env.instance.quote_count + 1;
        env.instance.quote_count = next;
        env.instance.extend();
        let quote = Quote {
            quote_id: next,
            anchor: anchor.dup(),
            base_asset: base_asset.dup(),
            quote_asset: quote_asset.dup(),
            rate,
            fee_percentage,
            minimum_amount,
            maximum_amount,
            valid_until,
        };
        env.routing.quotes.set((anchor.dup(), next), quote, PERSISTENT_TTL);
        env.routing.latest.set(anchor.dup(), next, PERSISTENT_TTL);
        env.announce(
            Event::QuoteSubmitted {
                quote_id: next,
                anchor,
                base_asset,
                quote_asset,
                rate,
                valid_until,
            },
        );
        Ok(next)
    }

    /// Hands a quote to `receiver`, who must authorize it.
    pub fn receive_quote(env: &mut Env, receiver: Address, anchor: Address, quote_id: u64) -> (r:
        Result<Quote, ErrorCode>)
        ensures
            carried_out(
                r,
                old(env)@,
                final(env)@,
                old(env)@.receive_quote_refusal(receiver@, anchor@, quote_id),
                old(env)@.receive_quote_effect(receiver@, quote_id),
            ),
            r matches Ok(quote) ==> read(old(env)@.routing.quotes, (anchor@, quote_id)) == Some(
                quote@,
            ),
    {
        if !env.authorized(&receiver) {
            return Err(ErrorCode::Unauthorized);
        }
        let quote: Quote = match env.routing.quotes.get(&(anchor, quote_id)) {
            Some(quote) => quote,
            None => return Err(ErrorCode::AttestationNotFound),
        };
        env.announce(
            Event::QuoteReceived { quote_id, receiver, timestamp: env.ledger.timestamp },
        );
        Ok(quote)
    }

    /// Accepts a quote for `receiver`, who must authorize it, with
    /// `require_compliance` only if the last "kyc" check recorded for the
    /// receiver was passed.
    pub fn accept_quote_with_compliance(
        env: &mut Env,
        receiver: Address,
        anchor: Address,
        quote_id: u64,
        require_compliance: bool,
    ) -> (r: Result<Quote, ErrorCode>)
        ensures
            carried_out(
                r,
                old(env)@,
                final(env)@,
                old(env)@.accept_quote_refusal(receiver@, anchor@, quote_id, require_compliance),
                old(env)@.accept_quote_effect(receiver@, quote_id),
            ),
            r matches Ok(quote) ==> read(old(env)@.routing.quotes, (anchor@, quote_id)) == Some(
                quote@,
            ),
    {
        if !env.authorized(&receiver) {
            return Err(ErrorCode::Unauthorized);
        }
        let quote: Quote = match Self::get_quote(env, anchor, quote_id) {
            Ok(quote) => quote,
            Err(e) => return Err(e),
        };
        if require_compliance && !Self::has_passed_check(env, &receiver, text("kyc")) {
            return Err(ErrorCode::ComplianceNotMet);
        }
        env.announce(
            Event::QuoteAccepted { quote_id, receiver, timestamp: env.ledger.timestamp },
        );
        Ok(quote)
    }

    /// A quote of `anchor`.
    pub fn get_quote(env: &Env, anchor: Address, quote_id: u64) -> (r: Result<Quote, ErrorCode>)
        ensures
            match r {
                Ok(quote) => read(env@.routing.quotes, (anchor@, quote_id)) == Some(quote@),
                Err(e) => read(env@.routing.quotes, (anchor@, quote_id)) is None && e
                    == ErrorCode::NoQuotesAvailable,
            },
    {
        match env.routing.quotes.get(&(anchor, quote_id)) {
            Some(quote) => Ok(quote),
            None => Err(ErrorCode::NoQuotesAvailable),
        }
    }

    /// Traces the submission of a quote by `anchor`, who must authorize it and
    /// offer the quote service. The terms of the quote are not kept.
    pub fn quote_with_request_id(
        env: &mut Env,
        request_id: RequestId,
        anchor: Address,
        from_asset: Text,
        to_asset: Text,
        amount: u64,
        fee_bps: u32,
        min_amount: u64,
        max_amount: u64,
        expires_at: u64,
    ) -> (r: Result<(), ErrorCode>)
        ensures
            carried_out(
                r,
                old(env)@,
                final(env)@,
                old(env)@.trace_quote_refusal(anchor@),
                old(env)@.trace_quote_effect(request_id@, anchor@),
            ),
    {
        if !env.authorized(&anchor) {
            return Err(ErrorCode::Unauthorized);
        }
        if !Self::advertises_quote_service(env, &anchor) {
            return Err(ErrorCode::ServicesNotConfigured);
        }
        Self::store_span(env, &request_id, text("submit_quote"), anchor);
        Self::append_operation(env, request_id.id, text("submit_quote"));
        Ok(())
    }
}

/// A published quote reads back under the number that it got, is the latest of
/// its anchor, and gets a number that no quote had.
pub proof fn quote_reads_back(s: State, quote: QuoteView)
    requires
        s.consistent(),
        s.submit_quote_refusal(quote.anchor, quote.fee_percentage) is None,
        quote.quote_id == s.next_quote(),
    ensures
        ({
            let t = s.submit_quote_effect(quote);
            &&& read(t.routing.quotes, (quote.anchor, quote.quote_id)) == Some(quote)
            &&& t.latest_quote(quote.anchor) == Some(quote)
            &&& forall|anchor: Seq<u8>| #[trigger]
                read(s.routing.quotes, (anchor, quote.quote_id)) is None
        }),
{
    assert forall|anchor: Seq<u8>| #[trigger]
        read(s.routing.quotes, (anchor, quote.quote_id)) is None by {
        if s.routing.quotes.dom().contains((anchor, quote.quote_id)) {
        }
    }
}

/// With compliance required, a quote is accepted only for a receiver whose last
/// "kyc" check was passed.
pub proof fn acceptance_needs_compliance(
    s: State,
    receiver: Seq<u8>,
    anchor: Seq<u8>,
    quote_id: u64,
)
    requires
        s.accept_quote_refusal(receiver, anchor, quote_id, true) is None,
    ensures
        s.passed_check(receiver, bytes_of("kyc")),
        s.accept_quote_refusal(receiver, anchor, quote_id, false) is None,
{
}

/// A quote is published by an anchor that authorizes it, with a fee of at most ten
/// thousand basis points, while there is a number left, in this order. Numbers count
/// up by one.
pub proof fn quote_refusals_are_exact(s: State, anchor: Seq<u8>, fee_percentage: u32)
    ensures
        ({
            let refusal = s.submit_quote_refusal(anchor, fee_percentage);
            let authorized = s.host.authorized.contains(anchor);
            let full = s.instance.quote_count == u64::MAX;
            &&& refusal == Some(ErrorCode::Unauthorized) <==> !authorized
            &&& refusal == Some(ErrorCode::InvalidQuote) <==> authorized && fee_percentage > 10_000
            &&& refusal == Some(ErrorCode::ArithmeticOverflow) <==> authorized && fee_percentage
                <= 10_000 && full
            &&& refusal is None <==> authorized && fee_percentage <= 10_000 && !full
            &&& !full ==> s.next_quote() == s.instance.quote_count + 1
        }),
{
}

/// A published quote is written as given under its anchor and number, is the latest of
/// its anchor, and is announced. Nothing else changes.
pub proof fn quote_is_written(s: State, quote: QuoteView)
    ensures
        ({
            let t = s.submit_quote_effect(quote);
            &&& written(
                s.routing.quotes,
                t.routing.quotes,
                (quote.anchor, quote.quote_id),
                quote,
                PERSISTENT_TTL,
            )
            &&& written(
                s.routing.latest,
                t.routing.latest,
                quote.anchor,
                quote.quote_id,
                PERSISTENT_TTL,
            )
            &&& t.instance.quote_count == quote.quote_id
            &&& kept_alive(s.instance, t.instance)
            &&& t.events == s.events.push(
                EventView::QuoteSubmitted {
                    quote_id: quote.quote_id,
                    anchor: quote.anchor,
                    base_asset: quote.base_asset,
                    quote_asset: quote.quote_asset,
                    rate: quote.rate,
                    valid_until: quote.valid_until,
                },
            )
            &&& t == State {
                instance: InstanceState {
                    quote_count: t.instance.quote_count,
                    ttl: t.instance.ttl,
                    ..s.instance
                },
                routing: RoutingState {
                    quotes: t.routing.quotes,
                    latest: t.routing.latest,
                    ..s.routing
                },
                events: t.events,
                ..s
            }
        }),
{
}

/// A known quote is handed to a receiver that authorizes it, and accepted for one, then
/// with the compliance asked for, which is that the last "kyc" check of the receiver was
/// passed. Either is announced, and nothing else changes.
pub proof fn handing_over_is_exact(
    s: State,
    receiver: Seq<u8>,
    anchor: Seq<u8>,
    quote_id: u64,
    require_compliance: bool,
)
    ensures
        ({
            let received = s.receive_quote_refusal(receiver, anchor, quote_id);
            let accepted = s.accept_quote_refusal(receiver, anchor, quote_id, require_compliance);
            let authorized = s.host.authorized.contains(receiver);
            let known = s.routing.quotes.dom().contains((anchor, quote_id));
            let check = (receiver, bytes_of("kyc"));
            let passed = s.compliance.checks.dom().contains(check)
                && s.compliance.checks[check].value.result == 1;
            let compliant = passed || !require_compliance;
            let t = s.receive_quote_effect(receiver, quote_id);
            let u = s.accept_quote_effect(receiver, quote_id);
            let timestamp = s.ledger.timestamp;
            &&& received == Some(ErrorCode::Unauthorized) <==> !authorized
            &&& received == Some(ErrorCode::AttestationNotFound) <==> authorized && !known
            &&& received is None <==> authorized && known
            &&& accepted == Some(ErrorCode::Unauthorized) <==> !authorized
            &&& accepted == Some(ErrorCode::NoQuotesAvailable) <==> authorized && !known
            &&& accepted == Some(ErrorCode::ComplianceNotMet) <==> authorized && known && !compliant
            &&& accepted is None <==> authorized && known && compliant
            &&& t.events == s.events.push(
                EventView::QuoteReceived { quote_id, receiver, timestamp },
            )
            &&& u.events == s.events.push(
                EventView::QuoteAccepted { quote_id, receiver, timestamp },
            )
            &&& t == State { events: t.events, ..s }
            &&& u == State { events: u.events, ..s }
        }),
{
}

/// A quote is traced for an anchor that authorizes it and offers quotes, in this order.
/// That leaves a root span of the anchor under the request, and the operation
/// "submit_quote" at the end of its context. Nothing else changes.
pub proof fn tracing_a_quote_is_exact(s: State, request_id: RequestIdView, anchor: Seq<u8>)
    ensures
        ({
            let refusal = s.trace_quote_refusal(anchor);
            let authorized = s.host.authorized.contains(anchor);
            let offered = s.registry.services.dom().contains(anchor)
                && s.registry.services[anchor].value.services.contains(3);
            let t = s.trace_quote_effect(request_id, anchor);
            let name = bytes_of("submit_quote");
            &&& refusal == Some(ErrorCode::Unauthorized) <==> !authorized
            &&& refusal == Some(ErrorCode::ServicesNotConfigured) <==> authorized && !offered
            &&& refusal is None <==> authorized && offered
            &&& written(
                s.tracing.spans,
                t.tracing.spans,
                request_id.id,
                TracingSpanView {
                    request_id,
                    operation: name,
                    actor: anchor,
                    started_at: s.ledger.timestamp,
                    completed_at: s.ledger.timestamp,
                    status: bytes_of("success"),
                    parent_request_id_bytes: Seq::empty(),
                    span_index: 0,
                },
                SPAN_TTL,
            )
            &&& t.context_of(request_id.id).operation_chain == s.context_of(
                request_id.id,
            ).operation_chain.push(name)
            &&& t.tracing.requests == s.append_operation(request_id.id, name).tracing.requests
            &&& t == State {
                tracing: TracingState {
                    spans: t.tracing.spans,
                    requests: t.tracing.requests,
                    ..s.tracing
                },
                ..s
            }
        }),
{
}

} // verus!
