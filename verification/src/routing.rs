//! Choosing among the anchors that can serve a request.

use crate::contract::{carried_out, first_of, unless, AnchorKitContract};
use crate::data::{
    bytes_of, contents, holds, present, present_members, present_positions, text, Address, Bytes, Comparable,
    Duplicate,
};
use crate::env::{Env, State};
use crate::events::{Event, EventView};
use crate::stores::RoutingState;
use crate::table::{erased, longer, put, read, written};
use crate::types::{
    AnchorBlacklistEntry, AnchorBlacklistEntryView, ErrorCode, Quote, QuoteView, RoutingAnchorMeta,
    RoutingAnchorMetaView, RoutingOptions, RoutingOptionsView, WebhookEvent, WebhookEventView,
    PERSISTENT_TTL, SERVICE_QUOTES,
};
use vstd::prelude::*;
use vstd::utf8::encode_utf8_decode_utf8;

verus! {

/// The weighted score of an anchor that takes a fee: reputation counts forty
/// parts, liquidity thirty, uptime twenty, and what the fee leaves of a
/// hundred ten.
pub open spec fn weighted_score(meta: RoutingAnchorMetaView, fee: u32) -> u64 {
    let fee_factor: int = if fee <= 100 {
        100 - fee
    } else {
        0
    };
    (meta.reputation_score * 40 + meta.liquidity_score * 30 + meta.uptime_percentage * 20
        + fee_factor * 10) as u64
}

/// The position of the first of the largest values.
pub open spec fn first_largest(values: Seq<u64>) -> int
    decreases values.len(),
{
    if values.len() <= 1 {
        0
    } else {
        let best = first_largest(values.drop_last());
        if values.last() > values[best] {
            values.len() - 1
        } else {
            best
        }
    }
}

impl State {
    /// What is known of `anchor` for routing.
    pub open spec fn meta(self, anchor: Seq<u8>) -> Option<RoutingAnchorMetaView> {
        read(self.routing.metas, anchor)
    }

    /// The latest quote of `anchor`.
    pub open spec fn latest_quote(self, anchor: Seq<u8>) -> Option<QuoteView> {
        match read(self.routing.latest, anchor) {
            Some(id) => read(self.routing.quotes, (anchor, id)),
            None => None,
        }
    }

    /// Whether `anchor` is excluded from routing.
    pub open spec fn blacklisted(self, anchor: Seq<u8>) -> bool {
        self.routing.blacklist.dom().contains(anchor)
    }

    /// Whether `anchor` takes part in routing: it is active, its reputation is
    /// sufficient, it is not excluded, and it offers quotes.
    pub open spec fn routable(self, anchor: Seq<u8>, min_reputation: u32) -> bool {
        match self.meta(anchor) {
            Some(meta) => meta.is_active && meta.reputation_score >= min_reputation
                && !self.blacklisted(anchor) && self.offers(anchor, SERVICE_QUOTES),
            None => false,
        }
    }

    /// The latest quote of `anchor`, if the anchor takes part in routing and
    /// the quote has not expired.
    pub open spec fn open_quote(self, anchor: Seq<u8>, min_reputation: u32) -> Option<QuoteView> {
        match self.latest_quote(anchor) {
            Some(quote) => if self.routable(anchor, min_reputation) && quote.valid_until
                > self.now() {
                Some(quote)
            } else {
                None
            },
            None => None,
        }
    }

    /// The open quote of `anchor`, if it answers a request: it is for the
    /// requested pair, and the amount is within its limits.
    pub open spec fn candidate(self, anchor: Seq<u8>, options: RoutingOptionsView) -> Option<
        QuoteView,
    > {
        match self.open_quote(anchor, options.min_reputation) {
            Some(quote) => if quote.base_asset == options.request.base_asset && quote.quote_asset
                == options.request.quote_asset && quote.minimum_amount <= options.request.amount
                <= quote.maximum_amount {
                Some(quote)
            } else {
                None
            },
            None => None,
        }
    }

    /// The quotes that answer a request, in the order in which their anchors
    /// became known.
    pub open spec fn candidates(self, options: RoutingOptionsView) -> Seq<QuoteView> {
        present(
            Seq::new(
                self.routing.anchors.len(),
                |i: int| self.candidate(self.routing.anchors[i], options),
            ),
        )
    }

    /// How much a strategy prefers a quote. A strategy that is not known
    /// prefers none.
    pub open spec fn preference(self, strategy: Seq<u8>, quote: QuoteView) -> u64 {
        if strategy == bytes_of("LowestFee") {
            (u64::MAX - quote.fee_percentage) as u64
        } else {
            match self.meta(quote.anchor) {
                None => 0,
                Some(meta) => if strategy == bytes_of("FastestSettlement") {
                    (u64::MAX - meta.average_settlement_time) as u64
                } else if strategy == bytes_of("HighestReputation") {
                    meta.reputation_score as u64
                } else if strategy == bytes_of("WeightedScore") {
                    weighted_score(meta, quote.fee_percentage)
                } else {
                    0
                },
            }
        }
    }

    /// How much a strategy prefers each of some quotes.
    pub open spec fn preferences(self, strategy: Seq<u8>, quotes: Seq<QuoteView>) -> Seq<u64> {
        Seq::new(quotes.len(), |i: int| self.preference(strategy, quotes[i]))
    }

    /// Why `route_transaction` is refused.
    pub open spec fn route_refusal(self, options: RoutingOptionsView) -> Option<ErrorCode> {
        first_of(
            unless(self.candidates(options).len() > 0, ErrorCode::NoQuotesAvailable),
            first_of(
                unless(
                    options.require_compliance ==> self.passed_check(
                        options.subject,
                        bytes_of("kyc"),
                    ),
                    ErrorCode::ComplianceNotMet,
                ),
                unless(options.strategy.len() > 0, ErrorCode::NoQuotesAvailable),
            ),
        )
    }

    /// The quote to which a request is routed: the first of those that the
    /// strategy prefers most.
    pub open spec fn routed(self, options: RoutingOptionsView) -> QuoteView {
        let candidates = self.candidates(options);
        candidates[first_largest(self.preferences(options.strategy[0], candidates))]
    }

    /// The state after `route_transaction`.
    pub open spec fn route_effect(self, options: RoutingOptionsView) -> State {
        self.announce(
            EventView::Webhook {
                notice: WebhookEventView {
                    event_type: bytes_of("transaction_routed"),
                    transaction_id: self.routed(options).quote_id,
                    timestamp: self.now(),
                    payload_hash: Seq::empty(),
                },
            },
        )
    }

    /// The state after `set_anchor_metadata`.
    pub open spec fn set_meta_effect(self, meta: RoutingAnchorMetaView) -> State {
        let known = self.routing.anchors.contains(meta.anchor);
        State {
            routing: RoutingState {
                metas: put(self.routing.metas, meta.anchor, meta, PERSISTENT_TTL),
                anchors: if known {
                    self.routing.anchors
                } else {
                    self.routing.anchors.push(meta.anchor)
                },
                anchors_ttl: if known {
                    self.routing.anchors_ttl
                } else {
                    longer(self.routing.anchors_ttl, PERSISTENT_TTL)
                },
                ..self.routing
            },
            ..self
        }
    }

    /// Why `reactivate_anchor` is refused.
    pub open spec fn reactivate_refusal(self, anchor: Seq<u8>) -> Option<ErrorCode> {
        first_of(
            self.admin_refusal(),
            unless(self.meta(anchor) is Some, ErrorCode::AttestorNotRegistered),
        )
    }

    /// The state after `reactivate_anchor`.
    pub open spec fn reactivate_effect(self, anchor: Seq<u8>) -> State {
        State {
            routing: RoutingState {
                metas: put(
                    self.routing.metas,
                    anchor,
                    RoutingAnchorMetaView { is_active: true, ..self.meta(anchor)->0 },
                    PERSISTENT_TTL,
                ),
                ..self.routing
            },
            ..self
        }
    }

    /// `anchor`, if it is active.
    pub open spec fn if_active(self, anchor: Seq<u8>) -> Option<Seq<u8>> {
        match self.meta(anchor) {
            Some(meta) => if meta.is_active {
                Some(anchor)
            } else {
                None
            },
            None => None,
        }
    }

    /// The active anchors, in the order in which they became known.
    pub open spec fn active_anchors(self) -> Seq<Seq<u8>> {
        present(
            Seq::new(
                self.routing.anchors.len(),
                |i: int| self.if_active(self.routing.anchors[i]),
            ),
        )
    }

    /// The state in which `anchor` is excluded from routing.
    pub open spec fn blacklist_effect(self, anchor: Seq<u8>) -> State {
        State {
            routing: RoutingState {
                blacklist: put(
                    self.routing.blacklist,
                    anchor,
                    AnchorBlacklistEntryView { anchor, blacklisted_at: self.now() },
                    PERSISTENT_TTL,
                ),
                ..self.routing
            },
            ..self
        }.announce(EventView::AnchorBlacklisted { anchor, timestamp: self.now() })
    }

    /// The state in which `anchor` is no longer excluded from routing.
    pub open spec fn unblacklist_effect(self, anchor: Seq<u8>) -> State {
        State {
            routing: RoutingState {
                blacklist: self.routing.blacklist.remove(anchor),
                ..self.routing
            },
            ..self
        }.announce(EventView::AnchorCleared { anchor, timestamp: self.now() })
    }
}

impl AnchorKitContract {
    /// Makes `anchor` known for routing, as an active anchor, or updates what is
    /// known of it. Only the administrator may.
    pub fn set_anchor_metadata(
        env: &mut Env,
        anchor: Address,
        reputation_score: u32,
        average_settlement_time: u64,
        liquidity_score: u32,
        uptime_percentage: u32,
        total_volume: u64,
    ) -> (r: Result<(), ErrorCode>)
        ensures
            carried_out(
                r,
                old(env)@,
                final(env)@,
                old(env)@.admin_refusal(),
                old(env)@.set_meta_effect(
                    (RoutingAnchorMetaView {
                        anchor: anchor@,
                        reputation_score,
                        average_settlement_time,
                        liquidity_score,
                        uptime_percentage,
                        total_volume,
                        is_active: true,
                    }),
                ),
            ),
    {
        match env.require_admin() {
            Ok(_) => {},
            Err(e) => return Err(e),
        }
        let meta = RoutingAnchorMeta {
            anchor: anchor.dup(),
            reputation_score,
            average_settlement_time,
            liquidity_score,
            uptime_percentage,
            total_volume,
            is_active: true,
        };
        env.routing.metas.set(anchor.dup(), meta, PERSISTENT_TTL);
        if !holds(&env.routing.anchors, &anchor) {
            let ghost before = env.routing.anchors@;
            env.routing.anchors.push(anchor);
            assert(contents(env.routing.anchors@) =~= contents(before).push(anchor@));
            if env.routing.anchors_ttl < PERSISTENT_TTL {
                env.routing.anchors_ttl = PERSISTENT_TTL;
            }
        }
        Ok(())
    }

    /// Makes `anchor` active again. Only the administrator may.
    pub fn reactivate_anchor(env: &mut Env, anchor: Address) -> (r: Result<(), ErrorCode>)
        ensures
            carried_out(
                r,
                old(env)@,
                final(env)@,
                old(env)@.reactivate_refusal(anchor@),
                old(env)@.reactivate_effect(anchor@),
            ),
    {
        match env.require_admin() {
            Ok(_) => {},
            Err(e) => return Err(e),
        }
        let mut meta: RoutingAnchorMeta = match env.routing.metas.get(&anchor) {
            Some(meta) => meta,
            None => return Err(ErrorCode::AttestorNotRegistered),
        };
        meta.is_active = true;
        env.routing.metas.set(anchor, meta, PERSISTENT_TTL);
        Ok(())
    }

    /// What is known of `anchor` for routing.
    pub fn get_anchor_metadata(env: &Env, anchor: Address) -> (r: Result<
        RoutingAnchorMeta,
        ErrorCode,
    >)
        ensures
            match r {
                Ok(meta) => env@.meta(anchor@) == Some(meta@),
                Err(e) => env@.meta(anchor@) is None && e == ErrorCode::AttestorNotRegistered,
            },
    {
        match env.routing.metas.get(&anchor) {
            Some(meta) => Ok(meta),
            None => Err(ErrorCode::AttestorNotRegistered),
        }
    }

    /// The active anchors, in the order in which they became known.
    pub fn list_active_anchors(env: &Env) -> (r: Vec<Address>)
        ensures
            contents(r@) == env@.active_anchors(),
    {
        let ghost all = Seq::new(
            env@.routing.anchors.len(),
            |i: int| env@.if_active(env@.routing.anchors[i]),
        );
        let mut active: Vec<Address> = Vec::new();
        let mut i: usize = 0;
        assert(contents(active@) =~= present(all.take(0)));
        while i < env.routing.anchors.len()
            invariant
                i <= env.routing.anchors@.len(),
                all == Seq::new(
                    env@.routing.anchors.len(),
                    |i: int| env@.if_active(env@.routing.anchors[i]),
                ),
                contents(active@) == present(all.take(i as int)),
            decreases env.routing.anchors@.len() - i,
        {
            let ghost before = active@;
            let anchor = &env.routing.anchors[i];
            assert(all[i as int] == env@.if_active(anchor@));
            assert(all.take(i + 1).drop_last() =~= all.take(i as int));
            match env.routing.metas.get(anchor) {
                Some(meta) => {
                    if meta.is_active {
                        active.push(anchor.dup());
                        assert(contents(active@) =~= contents(before).push(anchor@));
                    }
                },
                None => {},
            }
            i = i + 1;
        }
        assert(all.take(i as int) =~= all);
        active
    }

    /// Excludes `anchor` from routing. Only the administrator may.
    pub fn blacklist_anchor(env: &mut Env, anchor: Address) -> (r: Result<(), ErrorCode>)
        ensures
            carried_out(
                r,
                old(env)@,
                final(env)@,
                old(env)@.admin_refusal(),
                old(env)@.blacklist_effect(anchor@),
            ),
    {
        match env.require_admin() {
            Ok(_) => {},
            Err(e) => return Err(e),
        }
        let now: u64 = env.ledger.timestamp;
        let entry = AnchorBlacklistEntry { anchor: anchor.dup(), blacklisted_at: now };
        env.routing.blacklist.set(anchor.dup(), entry, PERSISTENT_TTL);
        env.announce(Event::AnchorBlacklisted { anchor, timestamp: now });
        Ok(())
    }

    /// Readmits `anchor` to routing. Only the administrator may.
    pub fn remove_from_blacklist(env: &mut Env, anchor: Address) -> (r: Result<(), ErrorCode>)
        ensures
            carried_out(
                r,
                old(env)@,
                final(env)@,
                old(env)@.admin_refusal(),
                old(env)@.unblacklist_effect(anchor@),
            ),
    {
        match env.require_admin() {
            Ok(_) => {},
            Err(e) => return Err(e),
        }
        let now: u64 = env.ledger.timestamp;
        env.routing.blacklist.remove(&anchor);
        env.announce(Event::AnchorCleared { anchor, timestamp: now });
        Ok(())
    }

    /// Whether `anchor` is excluded from routing.
    pub fn is_anchor_blacklisted(env: &Env, anchor: Address) -> (r: bool)
        ensures
            r == env@.blacklisted(anchor@),
    {
        env.routing.blacklist.has(&anchor)
    }

    /// The open quote of `anchor` and what is known of the anchor, if it takes
    /// part in routing.
    pub(crate) fn find_open_quote(env: &Env, anchor: &Address, min_reputation: u32) -> (r: Option<
        (RoutingAnchorMeta, Quote),
    >)
        ensures
            match r {
                Some((meta, quote)) => env@.meta(anchor@) == Some(meta@) && env@.open_quote(
                    anchor@,
                    min_reputation,
                ) == Some(quote@),
                None => env@.open_quote(anchor@, min_reputation) is None,
            },
    {
        let meta: RoutingAnchorMeta = match env.routing.metas.get(anchor) {
            Some(meta) => meta,
            None => return None,
        };
        if !meta.is_active || meta.reputation_score < min_reputation {
            return None;
        }
        if env.routing.blacklist.has(anchor) || !Self::advertises_quote_service(env, anchor) {
            return None;
        }
        let quote_id: u64 = match env.routing.latest.get(anchor) {
            Some(id) => id,
            None => return None,
        };
        let quote: Quote = match env.routing.quotes.get(&(anchor.dup(), quote_id)) {
            Some(quote) => quote,
            None => return None,
        };
        if quote.valid_until <= env.ledger.timestamp {
            return None;
        }
        Some((meta, quote))
    }

    /// The quotes that answer a request.
    fn find_candidates(env: &Env, options: &RoutingOptions) -> (r: Vec<Quote>)
        ensures
            contents(r@) == env@.candidates(options@),
    {
        let ghost all = Seq::new(
            env@.routing.anchors.len(),
            |i: int| env@.candidate(env@.routing.anchors[i], options@),
        );
        let mut candidates: Vec<Quote> = Vec::new();
        let mut i: usize = 0;
        assert(contents(candidates@) =~= present(all.take(0)));
        while i < env.routing.anchors.len()
            invariant
                i <= env.routing.anchors@.len(),
                all == Seq::new(
                    env@.routing.anchors.len(),
                    |i: int| env@.candidate(env@.routing.anchors[i], options@),
                ),
                contents(candidates@) == present(all.take(i as int)),
            decreases env.routing.anchors@.len() - i,
        {
            let ghost before = candidates@;
            let anchor = &env.routing.anchors[i];
            assert(all[i as int] == env@.candidate(anchor@, options@));
            assert(all.take(i + 1).drop_last() =~= all.take(i as int));
            match Self::find_open_quote(env, anchor, options.min_reputation) {
                Some((_, quote)) => {
                    if quote.base_asset.same(&options.request.base_asset)
                        && quote.quote_asset.same(&options.request.quote_asset)
                        && quote.minimum_amount <= options.request.amount
                        && options.request.amount <= quote.maximum_amount {
                        candidates.push(quote);
                        assert(contents(candidates@) =~= contents(before).push(quote@));
                    }
                },
                None => {},
            }
            i = i + 1;
        }
        assert(all.take(i as int) =~= all);
        candidates
    }

    /// How much a strategy prefers a quote.
    fn prefer(env: &Env, strategy: &Vec<u8>, quote: &Quote) -> (r: u64)
        ensures
            r == env@.preference(strategy@, quote@),
    {
        if strategy.same(&text("LowestFee")) {
            return u64::MAX - quote.fee_percentage as u64;
        }
        match env.routing.metas.get(&quote.anchor) {
            None => 0,
            Some(meta) => if strategy.same(&text("FastestSettlement")) {
                u64::MAX - meta.average_settlement_time
            } else if strategy.same(&text("HighestReputation")) {
                meta.reputation_score as u64
            } else if strategy.same(&text("WeightedScore")) {
                let fee: u32 = quote.fee_percentage;
                let fee_factor: u64 = if fee <= 100 {
                    (100 - fee) as u64
                } else {
                    0
                };
                (meta.reputation_score as u64) * 40 + (meta.liquidity_score as u64) * 30 + (
                meta.uptime_percentage as u64) * 20 + fee_factor * 10
            } else {
                0
            },
        }
    }

    /// Routes a request to the quote that the strategy prefers among those that
    /// answer it, the first of several that it prefers equally.
    pub fn route_transaction(env: &mut Env, options: RoutingOptions) -> (r: Result<
        Quote,
        ErrorCode,
    >)
        ensures
            carried_out(
                r,
                old(env)@,
                final(env)@,
                old(env)@.route_refusal(options@),
                old(env)@.route_effect(options@),
            ),
            r matches Ok(quote) ==> quote@ == old(env)@.routed(options@),
    {
        let candidates: Vec<Quote> = Self::find_candidates(env, &options);
        if candidates.len() == 0 {
            return Err(ErrorCode::NoQuotesAvailable);
        }
        if options.require_compliance && !Self::has_passed_check(
            env,
            &options.subject,
            text("kyc"),
        ) {
            return Err(ErrorCode::ComplianceNotMet);
        }
        if options.strategy.len() == 0 {
            return Err(ErrorCode::NoQuotesAvailable);
        }
        let ghost quotes = env@.candidates(options@);
        let ghost values = env@.preferences(options@.strategy[0], quotes);
        let mut best: usize = 0;
        let mut best_value: u64 = Self::prefer(env, &options.strategy[0], &candidates[0]);
        let mut i: usize = 1;
        while i < candidates.len()
            invariant
                1 <= i <= candidates@.len(),
                options.strategy@.len() > 0,
                quotes == contents(candidates@),
                values == env@.preferences(options@.strategy[0], quotes),
                best < i,
                best == first_largest(values.take(i as int)),
                best_value == values[best as int],
            decreases candidates@.len() - i,
        {
            let value: u64 = Self::prefer(env, &options.strategy[0], &candidates[i]);
            assert(value == values[i as int]);
            assert(values.take(i + 1).drop_last() =~= values.take(i as int));
            if value > best_value {
                best = i;
                best_value = value;
            }
            i = i + 1;
        }
        assert(values.take(i as int) =~= values);
        let quote: Quote = candidates[best].dup();
        assert(quote@ == quotes[best as int]);
        let no_hash: Bytes = Vec::new();
        env.announce(
            Event::Webhook {
                notice: WebhookEvent {
                    event_type: text("transaction_routed"),
                    transaction_id: quote.quote_id,
                    timestamp: env.ledger.timestamp,
                    payload_hash: no_hash,
                },
            },
        );
        Ok(quote)
    }
}

/// The position of the first of the largest values is what it says.
pub proof fn first_largest_is_first_and_largest(values: Seq<u64>)
    requires
        values.len() > 0,
    ensures
        0 <= first_largest(values) < values.len(),
        forall|i: int|
            0 <= i < values.len() ==> #[trigger] values[i] <= values[first_largest(values)],
        forall|i: int|
            0 <= i < first_largest(values) ==> #[trigger] values[i] < values[first_largest(values)],
    decreases values.len(),
{
    if values.len() > 1 {
        let front = values.drop_last();
        first_largest_is_first_and_largest(front);
        let best = first_largest(front);
        assert forall|i: int| 0 <= i < values.len() implies #[trigger] values[i]
            <= values[first_largest(values)] by {
            if i < front.len() {
                assert(front[i] <= front[best]);
            }
        }
        assert forall|i: int| 0 <= i < first_largest(values) implies #[trigger] values[i]
            < values[first_largest(values)] by {
            assert(front[i] <= front[best]);
            if first_largest(values) == best {
                assert(front[i] < front[best]);
            }
        }
    }
}

/// The names of the strategies are different.
proof fn strategy_names_differ()
    ensures
        bytes_of("LowestFee") != bytes_of("FastestSettlement"),
        bytes_of("LowestFee") != bytes_of("HighestReputation"),
        bytes_of("LowestFee") != bytes_of("WeightedScore"),
        bytes_of("FastestSettlement") != bytes_of("HighestReputation"),
        bytes_of("FastestSettlement") != bytes_of("WeightedScore"),
        bytes_of("HighestReputation") != bytes_of("WeightedScore"),
{
    reveal_strlit("LowestFee");
    reveal_strlit("FastestSettlement");
    reveal_strlit("HighestReputation");
    reveal_strlit("WeightedScore");
    assert("FastestSettlement"@[0] != "HighestReputation"@[0]);
    encode_utf8_decode_utf8("LowestFee"@);
    encode_utf8_decode_utf8("FastestSettlement"@);
    encode_utf8_decode_utf8("HighestReputation"@);
    encode_utf8_decode_utf8("WeightedScore"@);
}

/// A quote answers a request exactly if it is the candidate of a known anchor.
proof fn candidate_of_some_anchor(
    s: State,
    options: RoutingOptionsView,
    quote: QuoteView,
) -> (anchor: Seq<u8>)
    requires
        s.candidates(options).contains(quote),
    ensures
        s.routing.anchors.contains(anchor),
        s.candidate(anchor, options) == Some(quote),
{
    let items = Seq::new(
        s.routing.anchors.len(),
        |i: int| s.candidate(s.routing.anchors[i], options),
    );
    present_members(items, quote);
    let i = items.index_of(Some(quote));
    assert(s.routing.anchors.contains(s.routing.anchors[i]));
    s.routing.anchors[i]
}

/// A request is routed to a quote that answers it: the latest quote of an anchor
/// that is known, active, not excluded, reputable enough and offering quotes;
/// for the requested pair, not expired, and with the amount within its limits.
pub proof fn routed_quote_is_eligible(s: State, options: RoutingOptionsView)
    requires
        s.consistent(),
        s.route_refusal(options) is None,
    ensures
        ({
            let quote = s.routed(options);
            let anchor = quote.anchor;
            &&& s.candidates(options).contains(quote)
            &&& s.routing.anchors.contains(anchor)
            &&& s.latest_quote(anchor) == Some(quote)
            &&& s.meta(anchor) matches Some(meta) && meta.is_active && meta.reputation_score
                >= options.min_reputation
            &&& !s.blacklisted(anchor)
            &&& s.offers(anchor, SERVICE_QUOTES)
            &&& quote.base_asset == options.request.base_asset
            &&& quote.quote_asset == options.request.quote_asset
            &&& quote.minimum_amount <= options.request.amount <= quote.maximum_amount
            &&& s.now() < quote.valid_until
            &&& options.require_compliance ==> s.passed_check(options.subject, bytes_of("kyc"))
        }),
{
    let candidates = s.candidates(options);
    let values = s.preferences(options.strategy[0], candidates);
    first_largest_is_first_and_largest(values);
    let quote = candidates[first_largest(values)];
    assert(candidates.contains(quote));
    let anchor = candidate_of_some_anchor(s, options, quote);
    let id = read(s.routing.latest, anchor)->0;
    assert(s.routing.quotes.dom().contains((anchor, id)));
}

/// No quote that answers a request is better, by the strategy asked for, than
/// the one to which the request is routed.
pub proof fn routed_quote_is_best(s: State, options: RoutingOptionsView, other: QuoteView)
    requires
        s.consistent(),
        s.route_refusal(options) is None,
        s.candidates(options).contains(other),
    ensures
        ({
            let quote = s.routed(options);
            let strategy = options.strategy[0];
            let meta = s.meta(quote.anchor)->0;
            let other_meta = s.meta(other.anchor)->0;
            &&& s.preference(strategy, other) <= s.preference(strategy, quote)
            &&& strategy == bytes_of("LowestFee") ==> quote.fee_percentage <= other.fee_percentage
            &&& strategy == bytes_of("FastestSettlement") ==> meta.average_settlement_time
                <= other_meta.average_settlement_time
            &&& strategy == bytes_of("HighestReputation") ==> meta.reputation_score
                >= other_meta.reputation_score
            &&& strategy == bytes_of("WeightedScore") ==> weighted_score(
                meta,
                quote.fee_percentage,
            ) >= weighted_score(other_meta, other.fee_percentage)
        }),
{
    let candidates = s.candidates(options);
    let strategy = options.strategy[0];
    let values = s.preferences(strategy, candidates);
    first_largest_is_first_and_largest(values);
    let quote = s.routed(options);
    assert(candidates.contains(quote));
    let i = candidates.index_of(other);
    assert(values[i] == s.preference(strategy, other));
    let anchor = candidate_of_some_anchor(s, options, quote);
    let id = read(s.routing.latest, anchor)->0;
    assert(s.routing.quotes.dom().contains((anchor, id)));
    let other_anchor = candidate_of_some_anchor(s, options, other);
    let other_id = read(s.routing.latest, other_anchor)->0;
    assert(s.routing.quotes.dom().contains((other_anchor, other_id)));
    strategy_names_differ();
}

/// Of several quotes that a strategy prefers equally, the first in the order of
/// the anchors is chosen.
pub proof fn ties_go_to_the_first(s: State, options: RoutingOptionsView, i: int)
    requires
        s.route_refusal(options) is None,
        0 <= i < s.candidates(options).len(),
        s.preference(options.strategy[0], s.candidates(options)[i]) == s.preference(
            options.strategy[0],
            s.routed(options),
        ),
    ensures
        first_largest(s.preferences(options.strategy[0], s.candidates(options))) <= i,
{
    let values = s.preferences(options.strategy[0], s.candidates(options));
    first_largest_is_first_and_largest(values);
    assert(values[i] == s.preference(options.strategy[0], s.candidates(options)[i]));
}

/// A strategy that is not known chooses the first quote.
pub proof fn unknown_strategy_takes_the_first(s: State, options: RoutingOptionsView)
    requires
        s.route_refusal(options) is None,
        options.strategy[0] != bytes_of("LowestFee"),
        options.strategy[0] != bytes_of("FastestSettlement"),
        options.strategy[0] != bytes_of("HighestReputation"),
        options.strategy[0] != bytes_of("WeightedScore"),
    ensures
        s.routed(options) == s.candidates(options)[0],
{
    let values = s.preferences(options.strategy[0], s.candidates(options));
    first_largest_is_first_and_largest(values);
    assert(values[0] == s.preference(options.strategy[0], s.candidates(options)[0]));
}

/// An excluded anchor has no open quote, and answers no request; once it is
/// readmitted, it does as if it had never been excluded.
pub proof fn blacklisted_anchor_is_not_routed(
    s: State,
    anchor: Seq<u8>,
    options: RoutingOptionsView,
    min_reputation: u32,
)
    ensures
        s.blacklist_effect(anchor).blacklisted(anchor),
        s.blacklisted(anchor) ==> s.open_quote(anchor, min_reputation) is None && s.candidate(
            anchor,
            options,
        ) is None,
        !s.blacklisted(anchor) ==> s.blacklist_effect(anchor).unblacklist_effect(anchor).candidate(
            anchor,
            options,
        ) == s.candidate(anchor, options),
{
}

/// An anchor that is made known, or reactivated, is active and reads back.
pub proof fn known_anchor_is_active(s: State, meta: RoutingAnchorMetaView)
    requires
        s.consistent(),
        meta.is_active,
    ensures
        s.set_meta_effect(meta).meta(meta.anchor) == Some(meta),
        s.set_meta_effect(meta).active_anchors().contains(meta.anchor),
        s.meta(meta.anchor) is Some ==> s.reactivate_effect(meta.anchor).active_anchors().contains(
            meta.anchor,
        ),
{
    let t = s.set_meta_effect(meta);
    let anchors = t.routing.anchors;
    assert(anchors.contains(meta.anchor)) by {
        if !s.routing.anchors.contains(meta.anchor) {
            assert(anchors[s.routing.anchors.len() as int] == meta.anchor);
        }
    }
    let items = Seq::new(anchors.len(), |i: int| t.if_active(anchors[i]));
    let i = anchors.index_of(meta.anchor);
    assert(items[i] == Some(meta.anchor));
    present_members(items, meta.anchor);
    if s.meta(meta.anchor) is Some {
        let u = s.reactivate_effect(meta.anchor);
        assert(s.routing.metas.dom().contains(meta.anchor));
        let known = u.routing.anchors;
        let others = Seq::new(known.len(), |i: int| u.if_active(known[i]));
        let j = known.index_of(meta.anchor);
        assert(others[j] == Some(meta.anchor));
        present_members(others, meta.anchor);
    }
}

/// The active anchors are the known anchors that are active.
pub proof fn active_anchors_are_active(s: State, anchor: Seq<u8>)
    requires
        s.consistent(),
    ensures
        s.active_anchors().contains(anchor) <==> (s.meta(anchor) matches Some(meta)
            && meta.is_active),
{
    let anchors = s.routing.anchors;
    let items = Seq::new(anchors.len(), |i: int| s.if_active(anchors[i]));
    present_members(items, anchor);
    if items.contains(Some(anchor)) {
        let i = items.index_of(Some(anchor));
        assert(s.if_active(anchors[i]) == Some(anchor));
    }
    if s.meta(anchor) matches Some(meta) && meta.is_active {
        assert(s.routing.metas.dom().contains(anchor));
        let i = anchors.index_of(anchor);
        assert(items[i] == Some(anchor));
    }
}

/// The active anchors are listed without repeats, in the order in which they
/// became known. There is none as long as no anchor is known.
pub proof fn active_anchors_are_in_order(s: State)
    requires
        s.consistent(),
    ensures
        s.active_anchors().no_duplicates(),
        forall|k: int, l: int|
            0 <= k < l < s.active_anchors().len() ==> s.routing.anchors.index_of(
                #[trigger] s.active_anchors()[k],
            ) < s.routing.anchors.index_of(#[trigger] s.active_anchors()[l]),
        s.routing.anchors.len() == 0 ==> s.active_anchors().len() == 0,
{
    let anchors = s.routing.anchors;
    let active = s.active_anchors();
    let items = Seq::new(anchors.len(), |i: int| s.if_active(anchors[i]));
    let positions = present_positions(items);
    assert forall|k: int| 0 <= k < active.len() implies anchors.index_of(#[trigger] active[k])
        == positions[k] by {
        assert(items[positions[k]] == Some(active[k]));
        assert(anchors[positions[k]] == active[k]);
        assert(anchors.contains(active[k]));
    }
    assert forall|k: int, l: int| 0 <= k < l < active.len() implies anchors.index_of(
        #[trigger] active[k],
    ) < anchors.index_of(#[trigger] active[l]) by {
        assert(positions[k] < positions[l]);
    }
}

/// A new anchor is listed after those known before; an update of a known anchor,
/// or its reactivation, neither repeats nor moves it.
pub proof fn anchors_are_listed_as_they_become_known(s: State, meta: RoutingAnchorMetaView)
    ensures
        s.set_meta_effect(meta).routing.anchors == (if s.routing.anchors.contains(meta.anchor) {
            s.routing.anchors
        } else {
            s.routing.anchors.push(meta.anchor)
        }),
        s.reactivate_effect(meta.anchor).routing.anchors == s.routing.anchors,
{
}

/// The weighted score counts forty parts of reputation, thirty of liquidity, twenty
/// of uptime, and ten of what the fee leaves of a hundred; a larger fee leaves
/// nothing.
pub proof fn weights_are_forty_thirty_twenty_ten(meta: RoutingAnchorMetaView, fee: u32)
    ensures
        fee <= 100 ==> weighted_score(meta, fee) == 40 * meta.reputation_score + 30
            * meta.liquidity_score + 20 * meta.uptime_percentage + 10 * (100 - fee),
        fee > 100 ==> weighted_score(meta, fee) == 40 * meta.reputation_score + 30
            * meta.liquidity_score + 20 * meta.uptime_percentage,
{
}

/// A point of reputation outweighs a point of liquidity, that one a point of uptime,
/// and that one a point of the fee.
pub proof fn weights_descend(meta: RoutingAnchorMetaView, fee: u32)
    requires
        meta.reputation_score < u32::MAX,
        meta.liquidity_score < u32::MAX,
        meta.uptime_percentage < u32::MAX,
        0 < fee <= 100,
    ensures
        ({
            let base = weighted_score(meta, fee);
            let reputation = weighted_score(
                RoutingAnchorMetaView {
                    reputation_score: (meta.reputation_score + 1) as u32,
                    ..meta
                },
                fee,
            );
            let liquidity = weighted_score(
                RoutingAnchorMetaView {
                    liquidity_score: (meta.liquidity_score + 1) as u32,
                    ..meta
                },
                fee,
            );
            let uptime = weighted_score(
                RoutingAnchorMetaView {
                    uptime_percentage: (meta.uptime_percentage + 1) as u32,
                    ..meta
                },
                fee,
            );
            let cheaper = weighted_score(meta, (fee - 1) as u32);
            &&& base < cheaper < uptime < liquidity < reputation
            &&& reputation - base == 40
            &&& liquidity - base == 30
            &&& uptime - base == 20
            &&& cheaper - base == 10
        }),
{
}

/// A quote is open exactly if it is the latest of its anchor, has not expired, and
/// the anchor is known as active, reputable enough, not excluded, and offers quotes.
pub proof fn open_quote_is_exact(
    s: State,
    anchor: Seq<u8>,
    min_reputation: u32,
    quote: QuoteView,
)
    ensures
        s.open_quote(anchor, min_reputation) == Some(quote) <==> {
            &&& s.routing.metas.dom().contains(anchor)
            &&& s.routing.metas[anchor].value.is_active
            &&& s.routing.metas[anchor].value.reputation_score >= min_reputation
            &&& !s.routing.blacklist.dom().contains(anchor)
            &&& s.registry.services.dom().contains(anchor)
            &&& s.registry.services[anchor].value.services.contains(3)
            &&& s.routing.latest.dom().contains(anchor)
            &&& s.routing.quotes.dom().contains((anchor, s.routing.latest[anchor].value))
            &&& s.routing.quotes[(anchor, s.routing.latest[anchor].value)].value == quote
            &&& s.ledger.timestamp < quote.valid_until
        },
{
}

/// A quote answers a request exactly if it is the open quote of its anchor, for the
/// requested pair, and the amount is within its limits, the limits included.
pub proof fn candidate_is_exact(
    s: State,
    anchor: Seq<u8>,
    options: RoutingOptionsView,
    quote: QuoteView,
)
    ensures
        s.candidate(anchor, options) == Some(quote) <==> {
            &&& s.open_quote(anchor, options.min_reputation) == Some(quote)
            &&& quote.base_asset == options.request.base_asset
            &&& quote.quote_asset == options.request.quote_asset
            &&& quote.minimum_amount <= options.request.amount
            &&& options.request.amount <= quote.maximum_amount
        },
{
}

/// The candidates of a request are the quotes that answer it, one for each known
/// anchor that has one, in the order of the anchors. The positions of these anchors
/// are returned.
pub proof fn candidates_are_complete(s: State, options: RoutingOptionsView) -> (positions: Seq<int>)
    ensures
        positions.len() == s.candidates(options).len(),
        forall|k: int|
            0 <= k < positions.len() ==> 0 <= #[trigger] positions[k] < s.routing.anchors.len()
                && s.candidate(s.routing.anchors[positions[k]], options) == Some(
                s.candidates(options)[k],
            ),
        forall|k: int, l: int|
            0 <= k < l < positions.len() ==> #[trigger] positions[k] < #[trigger] positions[l],
        forall|i: int|
            0 <= i < s.routing.anchors.len() && s.candidate(
                #[trigger] s.routing.anchors[i],
                options,
            ) is Some ==> positions.contains(i),
{
    let items = Seq::new(
        s.routing.anchors.len(),
        |i: int| s.candidate(s.routing.anchors[i], options),
    );
    let positions = present_positions(items);
    assert forall|i: int|
        0 <= i < s.routing.anchors.len() && s.candidate(
            #[trigger] s.routing.anchors[i],
            options,
        ) is Some implies positions.contains(i) by {
        assert(items[i] is Some);
    }
    positions
}

/// A request is refused for want of a quote exactly if no known anchor has one that
/// answers it, or if it names no strategy; the compliance that it requires is looked
/// at in between, and is that the last "kyc" check of its subject was passed.
pub proof fn routing_refusals_are_exact(s: State, options: RoutingOptionsView)
    ensures
        ({
            let answered = exists|i: int|
                0 <= i < s.routing.anchors.len() && s.candidate(
                    #[trigger] s.routing.anchors[i],
                    options,
                ) is Some;
            let check = (options.subject, bytes_of("kyc"));
            let passed = s.compliance.checks.dom().contains(check)
                && s.compliance.checks[check].value.result == 1;
            let compliant = options.require_compliance ==> passed;
            let named = options.strategy.len() > 0;
            &&& s.route_refusal(options) is None <==> answered && compliant && named
            &&& s.route_refusal(options) == Some(ErrorCode::NoQuotesAvailable) <==> !answered || (
            compliant && !named)
            &&& s.route_refusal(options) == Some(ErrorCode::ComplianceNotMet) <==> answered
                && !compliant
        }),
{
    let positions = candidates_are_complete(s, options);
    if s.candidates(options).len() > 0 {
        let i = positions[0];
        assert(s.candidate(s.routing.anchors[i], options) is Some);
    }
}

/// A request is routed to the best of all quotes that answer it, and to that of the
/// anchor known longest if several are equally good. By `LowestFee` the best is the
/// one with the smallest fee, by `FastestSettlement` the one whose anchor settles
/// soonest, by `HighestReputation` the one whose anchor has the highest reputation,
/// and by `WeightedScore` the one with the largest sum of forty times the reputation,
/// thirty times the liquidity, twenty times the uptime and ten times what the fee
/// leaves of a hundred. By any other strategy all are equally good.
pub proof fn routing_takes_the_best(s: State, options: RoutingOptionsView, i: int)
    requires
        s.consistent(),
        s.route_refusal(options) is None,
        0 <= i < s.routing.anchors.len(),
        s.candidate(s.routing.anchors[i], options) is Some,
    ensures
        ({
            let anchors = s.routing.anchors;
            let quote = s.routed(options);
            let place = anchors.index_of(quote.anchor);
            let meta = s.routing.metas[quote.anchor].value;
            let other = s.candidate(anchors[i], options)->0;
            let other_meta = s.routing.metas[anchors[i]].value;
            let left = |fee: u32|
                if fee <= 100 {
                    100 - fee
                } else {
                    0
                };
            let sum = 40 * meta.reputation_score + 30 * meta.liquidity_score + 20
                * meta.uptime_percentage + 10 * left(quote.fee_percentage);
            let other_sum = 40 * other_meta.reputation_score + 30 * other_meta.liquidity_score + 20
                * other_meta.uptime_percentage + 10 * left(other.fee_percentage);
            let strategy = options.strategy[0];
            &&& 0 <= place < anchors.len()
            &&& anchors[place] == quote.anchor
            &&& s.candidate(quote.anchor, options) == Some(quote)
            &&& strategy == bytes_of("LowestFee") ==> quote.fee_percentage < other.fee_percentage
                || quote.fee_percentage == other.fee_percentage && place <= i
            &&& strategy == bytes_of("FastestSettlement") ==> meta.average_settlement_time
                < other_meta.average_settlement_time || meta.average_settlement_time
                == other_meta.average_settlement_time && place <= i
            &&& strategy == bytes_of("HighestReputation") ==> meta.reputation_score
                > other_meta.reputation_score || meta.reputation_score
                == other_meta.reputation_score && place <= i
            &&& strategy == bytes_of("WeightedScore") ==> sum > other_sum || sum == other_sum
                && place <= i
            &&& strategy != bytes_of("LowestFee") && strategy != bytes_of("FastestSettlement")
                && strategy != bytes_of("HighestReputation") && strategy != bytes_of(
                "WeightedScore",
            ) ==> place <= i
        }),
{
    let anchors = s.routing.anchors;
    let candidates = s.candidates(options);
    let strategy = options.strategy[0];
    let values = s.preferences(strategy, candidates);
    let positions = candidates_are_complete(s, options);
    first_largest_is_first_and_largest(values);
    strategy_names_differ();
    let best = first_largest(values);
    let quote = s.routed(options);
    let other = s.candidate(anchors[i], options)->0;
    let k = positions.index_of(i);
    assert(positions[k] == i);
    assert(candidates[k] == other);
    assert(values[k] == s.preference(strategy, other));
    assert(values[best] == s.preference(strategy, quote));
    assert(values[k] <= values[best]);
    let p = positions[best];
    assert(s.candidate(anchors[p], options) == Some(quote));
    candidate_is_exact(s, anchors[p], options, quote);
    open_quote_is_exact(s, anchors[p], options.min_reputation, quote);
    candidate_is_exact(s, anchors[i], options, other);
    open_quote_is_exact(s, anchors[i], options.min_reputation, other);
    assert(quote.anchor == anchors[p]);
    assert(other.anchor == anchors[i]);
    assert(anchors.contains(quote.anchor));
    assert(anchors.index_of(quote.anchor) == p);
    assert(best <= k ==> p <= i) by {
        if best < k {
            assert(positions[best] < positions[k]);
        }
    }
    if values[k] == values[best] {
        assert(best <= k);
    }
    weights_are_forty_thirty_twenty_ten(s.routing.metas[quote.anchor].value, quote.fee_percentage);
    weights_are_forty_thirty_twenty_ten(s.routing.metas[anchors[i]].value, other.fee_percentage);
}

/// Routing announces the quote that was chosen, by its number and at the ledger's
/// time, and changes nothing else.
pub proof fn routing_announces_the_choice(s: State, options: RoutingOptionsView)
    ensures
        ({
            let t = s.route_effect(options);
            &&& t == State { events: t.events, ..s }
            &&& t.events == s.events.push(
                EventView::Webhook {
                    notice: WebhookEventView {
                        event_type: bytes_of("transaction_routed"),
                        transaction_id: s.routed(options).quote_id,
                        timestamp: s.ledger.timestamp,
                        payload_hash: Seq::empty(),
                    },
                },
            )
        }),
{
}

/// What is known of an anchor is written as given, and the anchor is listed if it was
/// not. Nothing else changes.
pub proof fn anchor_metadata_is_written(s: State, meta: RoutingAnchorMetaView)
    ensures
        ({
            let t = s.set_meta_effect(meta);
            &&& written(s.routing.metas, t.routing.metas, meta.anchor, meta, PERSISTENT_TTL)
            &&& t.meta(meta.anchor) == Some(meta)
            &&& s.routing.anchors.contains(meta.anchor) ==> t.routing.anchors == s.routing.anchors
                && t.routing.anchors_ttl == s.routing.anchors_ttl
            &&& !s.routing.anchors.contains(meta.anchor) ==> t.routing.anchors
                == s.routing.anchors.push(meta.anchor) && t.routing.anchors_ttl >= PERSISTENT_TTL
                && t.routing.anchors_ttl >= s.routing.anchors_ttl && (t.routing.anchors_ttl
                == PERSISTENT_TTL || t.routing.anchors_ttl == s.routing.anchors_ttl)
            &&& t == State {
                routing: RoutingState {
                    metas: t.routing.metas,
                    anchors: t.routing.anchors,
                    anchors_ttl: t.routing.anchors_ttl,
                    ..s.routing
                },
                ..s
            }
        }),
{
}

/// A known anchor is reactivated by the administrator. It is active, and all else
/// that is known of it, and of other anchors, stays.
pub proof fn reactivation_activates(s: State, anchor: Seq<u8>)
    ensures
        ({
            let known = s.routing.metas.dom().contains(anchor);
            let t = s.reactivate_effect(anchor);
            &&& s.reactivate_refusal(anchor) is None <==> s.admin_refusal() is None && known
            &&& s.admin_refusal() is Some ==> s.reactivate_refusal(anchor) == s.admin_refusal()
            &&& s.admin_refusal() is None && !known ==> s.reactivate_refusal(anchor) == Some(
                ErrorCode::AttestorNotRegistered,
            )
            &&& known ==> written(
                s.routing.metas,
                t.routing.metas,
                anchor,
                RoutingAnchorMetaView { is_active: true, ..s.routing.metas[anchor].value },
                PERSISTENT_TTL,
            )
            &&& t == State {
                routing: RoutingState { metas: t.routing.metas, ..s.routing },
                ..s
            }
        }),
{
}

/// Excluding an anchor dates the exclusion now and announces it, readmitting it
/// removes the exclusion and announces that; neither touches another anchor or
/// anything else. An anchor is excluded exactly as long as there is an exclusion.
pub proof fn exclusion_is_exact(s: State, anchor: Seq<u8>, other: Seq<u8>)
    ensures
        ({
            let t = s.blacklist_effect(anchor);
            let u = s.unblacklist_effect(anchor);
            &&& s.blacklisted(anchor) <==> read(s.routing.blacklist, anchor) is Some
            &&& written(
                s.routing.blacklist,
                t.routing.blacklist,
                anchor,
                AnchorBlacklistEntryView { anchor, blacklisted_at: s.ledger.timestamp },
                PERSISTENT_TTL,
            )
            &&& erased(s.routing.blacklist, u.routing.blacklist, anchor)
            &&& t.blacklisted(anchor)
            &&& !u.blacklisted(anchor)
            &&& other != anchor ==> t.blacklisted(other) == s.blacklisted(other) && u.blacklisted(
                other,
            ) == s.blacklisted(other)
            &&& t.events == s.events.push(
                EventView::AnchorBlacklisted { anchor, timestamp: s.ledger.timestamp },
            )
            &&& u.events == s.events.push(
                EventView::AnchorCleared { anchor, timestamp: s.ledger.timestamp },
            )
            &&& t == State {
                routing: RoutingState { blacklist: t.routing.blacklist, ..s.routing },
                events: t.events,
                ..s
            }
            &&& u == State {
                routing: RoutingState { blacklist: u.routing.blacklist, ..s.routing },
                events: u.events,
                ..s
            }
        }),
{
}

/// An anchor is listed as active exactly if it is among the known anchors and what is
/// stored of it says so.
pub proof fn active_anchors_are_exact(s: State, anchor: Seq<u8>)
    ensures
        s.active_anchors().contains(anchor) <==> s.routing.anchors.contains(anchor)
            && s.routing.metas.dom().contains(anchor) && s.routing.metas[anchor].value.is_active,
        s.meta(anchor) is Some <==> s.routing.metas.dom().contains(anchor),
        s.meta(anchor) is Some ==> s.meta(anchor) == Some(s.routing.metas[anchor].value),
{
    let anchors = s.routing.anchors;
    let items = Seq::new(anchors.len(), |i: int| s.if_active(anchors[i]));
    present_members(items, anchor);
    if items.contains(Some(anchor)) {
        let i = items.index_of(Some(anchor));
        assert(s.if_active(anchors[i]) == Some(anchor));
    }
    if anchors.contains(anchor) && s.routing.metas.dom().contains(anchor)
        && s.routing.metas[anchor].value.is_active {
        let i = anchors.index_of(anchor);
        assert(items[i] == Some(anchor));
    }
}

} // verus!
