//! Ranking the open quotes by a composite score.

use crate::contract::{first_of, unless, AnchorKitContract};
use crate::data::{contents, present, present_members, present_positions, Duplicate};
use crate::env::{Env, State};
use crate::routing::open_quote_is_exact;
use crate::table::read;
use crate::types::{
    ErrorCode, Quote, QuoteView, RoutingAnchorMeta, RoutingAnchorMetaView, SERVICE_QUOTES,
};
use vstd::prelude::*;
use vstd::set_lib::{lemma_int_range, lemma_subset_equality, set_int_range};

verus! {

/// What the weights of a ranking add up to.
pub const WHOLE_WEIGHT: u32 = 1000;

/// An open quote together with what is known of its anchor.
#[derive(Clone, Debug, PartialEq)]
pub struct Contender {
    pub meta: RoutingAnchorMeta,
    pub quote: Quote,
}

/// The content of a [`Contender`].
pub struct ContenderView {
    pub meta: RoutingAnchorMetaView,
    pub quote: QuoteView,
}

impl View for Contender {
    type V = ContenderView;

    open spec fn view(&self) -> ContenderView {
        ContenderView { meta: self.meta@, quote: self.quote@ }
    }
}

/// The quotes to be ranked, with the largest fee, settlement time and
/// reputation among them, each at least one.
#[derive(Clone, Debug, PartialEq)]
pub struct Field {
    pub contenders: Vec<Contender>,
    pub max_fee: u32,
    pub max_settlement: u64,
    pub max_reputation: u32,
}

/// The largest of some values, and at least one.
pub open spec fn largest(values: Seq<u64>) -> u64
    decreases values.len(),
{
    if values.len() == 0 {
        1
    } else {
        let rest = largest(values.drop_last());
        if values.last() > rest {
            values.last()
        } else {
            rest
        }
    }
}

/// The fees of some contenders.
pub open spec fn fees(contenders: Seq<ContenderView>) -> Seq<u64> {
    Seq::new(contenders.len(), |i: int| contenders[i].quote.fee_percentage as u64)
}

/// The settlement times of some contenders.
pub open spec fn settlement_times(contenders: Seq<ContenderView>) -> Seq<u64> {
    Seq::new(contenders.len(), |i: int| contenders[i].meta.average_settlement_time)
}

/// The reputations of some contenders.
pub open spec fn reputations(contenders: Seq<ContenderView>) -> Seq<u64> {
    Seq::new(contenders.len(), |i: int| contenders[i].meta.reputation_score as u64)
}

/// Whether the weights of a ranking add up.
pub open spec fn valid_weights(fee: u32, speed: u32, reputation: u32) -> bool {
    fee + speed + reputation == WHOLE_WEIGHT
}

/// Whether position `a` comes before position `b`: its score is higher, or it
/// is as high and the position is smaller.
pub open spec fn outranks(scores: Seq<u32>, a: int, b: int) -> bool {
    scores[a] > scores[b] || (scores[a] == scores[b] && a < b)
}

/// Whether `order` lists the positions of `scores` by rank.
pub open spec fn is_ranking(order: Seq<int>, scores: Seq<u32>) -> bool {
    &&& order.len() == scores.len()
    &&& forall|i: int| 0 <= i < order.len() ==> 0 <= #[trigger] order[i] < scores.len()
    &&& forall|i: int, j: int|
        0 <= i < j < order.len() ==> outranks(scores, #[trigger] order[i], #[trigger] order[j])
}

/// How many quotes a ranking of `n` shows.
pub open spec fn shown(n: nat, max_results: u32) -> nat {
    if n < max_results {
        n
    } else {
        max_results as nat
    }
}

/// The quotes at the head of an order.
pub open spec fn head_quotes(
    contenders: Seq<ContenderView>,
    order: Seq<int>,
    max_results: u32,
) -> Seq<QuoteView> {
    Seq::new(shown(contenders.len(), max_results), |i: int| contenders[order[i]].quote)
}

impl State {
    /// The open quote of `anchor` as a contender.
    pub open spec fn contender(self, anchor: Seq<u8>, min_reputation: u32) -> Option<
        ContenderView,
    > {
        match self.open_quote(anchor, min_reputation) {
            Some(quote) => Some(ContenderView { meta: self.meta(anchor)->0, quote }),
            None => None,
        }
    }

    /// The open quotes, in the order in which their anchors became known.
    pub open spec fn contenders(self, min_reputation: u32) -> Seq<ContenderView> {
        present(
            Seq::new(
                self.routing.anchors.len(),
                |i: int| self.contender(self.routing.anchors[i], min_reputation),
            ),
        )
    }
}

/// Appending a value to those of which the largest is taken.
proof fn lemma_largest_push(values: Seq<u64>, value: u64)
    ensures
        largest(values.push(value)) == if value > largest(values) {
            value
        } else {
            largest(values)
        },
{
    assert(values.push(value).drop_last() =~= values);
}

/// The positions in a list of indices.
spec fn positions(order: Seq<usize>) -> Seq<int> {
    Seq::new(order.len(), |i: int| order[i] as int)
}

/// The positions of some scores by rank.
fn rank(scores: &Vec<u32>) -> (r: Vec<usize>)
    ensures
        is_ranking(positions(r@), scores@),
{
    let mut order: Vec<usize> = Vec::new();
    let mut i: usize = 0;
    while i < scores.len()
        invariant
            i <= scores@.len(),
            order@.len() == i,
            is_ranking(positions(order@), scores@.take(i as int)),
        decreases scores@.len() - i,
    {
        let ghost ranked = positions(order@);
        let ghost seen = scores@.take(i as int);
        let ghost next = scores@.take(i + 1);
        let mut place: usize = 0;
        assert forall|q: int| 0 <= q < i implies 0 <= #[trigger] order@[q] < i by {
            assert(0 <= ranked[q] < seen.len());
        }
        while place < order.len() && scores[order[place]] >= scores[i]
            invariant
                i < scores@.len(),
                order@.len() == i,
                place <= order@.len(),
                forall|q: int| 0 <= q < i ==> 0 <= #[trigger] order@[q] < i,
                forall|q: int|
                    0 <= q < place ==> scores@[#[trigger] order@[q] as int] >= scores@[i as int],
            decreases order@.len() - place,
        {
            place = place + 1;
        }
        let ghost before = order@;
        order.insert(place, i);
        proof {
            let after = positions(order@);
            assert(order@ == before.insert(place as int, i));
            assert forall|a: int| 0 <= a < after.len() implies 0 <= #[trigger] after[a]
                < next.len() by {
                if a < place {
                    assert(after[a] == before[a]);
                } else if a > place {
                    assert(after[a] == before[a - 1]);
                }
            }
            assert forall|a: int, b: int| 0 <= a < b < after.len() implies outranks(
                next,
                #[trigger] after[a],
                #[trigger] after[b],
            ) by {
                let a0 = if a < place {
                    a
                } else {
                    a - 1
                };
                let b0 = if b < place {
                    b
                } else {
                    b - 1
                };
                if a == place {
                    assert(after[b] == before[b0]);
                    assert(!(scores@[before[place as int] as int] >= scores@[i as int]));
                    if b0 > place {
                        assert(outranks(seen, ranked[place as int], ranked[b0]));
                    }
                } else if b == place {
                    assert(after[a] == before[a]);
                    assert(scores@[before[a] as int] >= scores@[i as int]);
                } else {
                    assert(after[a] == before[a0]);
                    assert(after[b] == before[b0]);
                    assert(outranks(seen, ranked[a0], ranked[b0]));
                }
            }
            assert(is_ranking(after, next));
        }
        i = i + 1;
    }
    assert(scores@.take(i as int) =~= scores@);
    order
}

impl AnchorKitContract {
    /// The open quotes of anchors with a sufficient reputation, to be scored.
    /// The weights of the ranking must add up.
    pub fn routing_field(
        env: &Env,
        fee_weight: u32,
        speed_weight: u32,
        reputation_weight: u32,
        min_reputation: u32,
    ) -> (r: Result<Field, ErrorCode>)
        ensures
            match r {
                Ok(field) => {
                    &&& valid_weights(fee_weight, speed_weight, reputation_weight)
                    &&& contents(field.contenders@) == env@.contenders(min_reputation)
                    &&& field.max_fee == largest(fees(env@.contenders(min_reputation)))
                    &&& field.max_settlement == largest(
                        settlement_times(env@.contenders(min_reputation)),
                    )
                    &&& field.max_reputation == largest(
                        reputations(env@.contenders(min_reputation)),
                    )
                },
                Err(e) => !valid_weights(fee_weight, speed_weight, reputation_weight) && e
                    == ErrorCode::InvalidWeights,
            },
    {
        if fee_weight as u64 + speed_weight as u64 + reputation_weight as u64
            != WHOLE_WEIGHT as u64 {
            return Err(ErrorCode::InvalidWeights);
        }
        let ghost all = Seq::new(
            env@.routing.anchors.len(),
            |i: int| env@.contender(env@.routing.anchors[i], min_reputation),
        );
        let mut contenders: Vec<Contender> = Vec::new();
        let mut max_fee: u32 = 1;
        let mut max_settlement: u64 = 1;
        let mut max_reputation: u32 = 1;
        let mut i: usize = 0;
        assert(contents(contenders@) =~= present(all.take(0)));
        while i < env.routing.anchors.len()
            invariant
                i <= env.routing.anchors@.len(),
                all == Seq::new(
                    env@.routing.anchors.len(),
                    |i: int| env@.contender(env@.routing.anchors[i], min_reputation),
                ),
                contents(contenders@) == present(all.take(i as int)),
                max_fee == largest(fees(contents(contenders@))),
                max_settlement == largest(settlement_times(contents(contenders@))),
                max_reputation == largest(reputations(contents(contenders@))),
            decreases env.routing.anchors@.len() - i,
        {
            let ghost before = contents(contenders@);
            let anchor = &env.routing.anchors[i];
            assert(all[i as int] == env@.contender(anchor@, min_reputation));
            assert(all.take(i + 1).drop_last() =~= all.take(i as int));
            match Self::find_open_quote(env, anchor, min_reputation) {
                Some((meta, quote)) => {
                    if meta.average_settlement_time > max_settlement {
                        max_settlement = meta.average_settlement_time;
                    }
                    if meta.reputation_score > max_reputation {
                        max_reputation = meta.reputation_score;
                    }
                    if quote.fee_percentage > max_fee {
                        max_fee = quote.fee_percentage;
                    }
                    let contender = Contender { meta, quote };
                    contenders.push(contender);
                    proof {
                        let after = contents(contenders@);
                        assert(after =~= before.push(contender@));
                        let fee = contender.quote.fee_percentage as u64;
                        let time = contender.meta.average_settlement_time;
                        let reputation = contender.meta.reputation_score as u64;
                        lemma_largest_push(fees(before), fee);
                        lemma_largest_push(settlement_times(before), time);
                        lemma_largest_push(reputations(before), reputation);
                        assert(fees(after) =~= fees(before).push(fee));
                        assert(settlement_times(after) =~= settlement_times(before).push(time));
                        assert(reputations(after) =~= reputations(before).push(reputation));
                    }
                },
                None => {},
            }
            i = i + 1;
        }
        assert(all.take(i as int) =~= all);
        Ok(Field { contenders, max_fee, max_settlement, max_reputation })
    }

    /// The best of the open quotes by score, up to `max_results` of them. The
    /// weights of the ranking must add up, and `scores` must hold a score for each
    /// quote of the field; of equal scores the earlier quote comes first.
    pub fn route_anchors(
        env: &Env,
        fee_weight: u32,
        speed_weight: u32,
        reputation_weight: u32,
        max_results: u32,
        min_reputation: u32,
        scores: Vec<u32>,
    ) -> (r: Result<Vec<Quote>, ErrorCode>)
        ensures
            match r {
                Ok(quotes) => {
                    &&& valid_weights(fee_weight, speed_weight, reputation_weight)
                    &&& scores@.len() == env@.contenders(min_reputation).len()
                    &&& exists|order: Seq<int>|
                        #[trigger] is_ranking(order, scores@) && contents(quotes@) == head_quotes(
                            env@.contenders(min_reputation),
                            order,
                            max_results,
                        )
                },
                Err(e) => Some(e) == first_of(
                    unless(
                        valid_weights(fee_weight, speed_weight, reputation_weight),
                        ErrorCode::InvalidWeights,
                    ),
                    unless(
                        scores@.len() == env@.contenders(min_reputation).len(),
                        ErrorCode::ValidationError,
                    ),
                ),
            },
    {
        let field: Field = match Self::routing_field(
            env,
            fee_weight,
            speed_weight,
            reputation_weight,
            min_reputation,
        ) {
            Ok(field) => field,
            Err(e) => return Err(e),
        };
        let contenders = field.contenders;
        let ghost all = env@.contenders(min_reputation);
        if scores.len() != contenders.len() {
            return Err(ErrorCode::ValidationError);
        }
        let order: Vec<usize> = rank(&scores);
        let ghost ranked = positions(order@);
        let mut quotes: Vec<Quote> = Vec::new();
        let mut i: usize = 0;
        while i < order.len() && (i as u64) < (max_results as u64)
            invariant
                all == contents(contenders@),
                contenders@.len() == order@.len(),
                ranked == positions(order@),
                is_ranking(ranked, scores@),
                scores@.len() == all.len(),
                i <= order@.len(),
                i <= max_results,
                quotes@.len() == i,
                forall|j: int|
                    0 <= j < i ==> (#[trigger] quotes@[j])@ == all[ranked[j]].quote,
            decreases order@.len() - i,
        {
            assert(0 <= ranked[i as int] < scores@.len());
            let quote: Quote = contenders[order[i]].quote.dup();
            assert(quote@ == all[ranked[i as int]].quote);
            quotes.push(quote);
            i = i + 1;
        }
        assert(contents(quotes@) =~= head_quotes(all, ranked, max_results));
        Ok(quotes)
    }
}

/// The largest of some values is at least one, is not exceeded, and is one of
/// them unless it is one.
pub proof fn largest_is_largest(values: Seq<u64>)
    ensures
        largest(values) >= 1,
        forall|i: int| 0 <= i < values.len() ==> #[trigger] values[i] <= largest(values),
        largest(values) == 1 || values.contains(largest(values)),
    decreases values.len(),
{
    if values.len() > 0 {
        let front = values.drop_last();
        largest_is_largest(front);
        assert forall|i: int| 0 <= i < values.len() implies #[trigger] values[i] <= largest(
            values,
        ) by {
            if i < front.len() {
                assert(front[i] <= largest(front));
            }
        }
        if values.last() > largest(front) {
            assert(values[values.len() - 1] == largest(values));
        } else if front.contains(largest(front)) {
            let i = front.index_of(largest(front));
            assert(values[i] == largest(values));
        }
    }
}

/// A ranking lists every position.
pub proof fn ranking_lists_every_position(order: Seq<int>, scores: Seq<u32>, position: int)
    requires
        is_ranking(order, scores),
        0 <= position < scores.len(),
    ensures
        order.contains(position),
{
    let all = set_int_range(0, scores.len() as int);
    let listed = order.to_set();
    assert(order.no_duplicates()) by {
        assert forall|i: int, j: int| 0 <= i < order.len() && 0 <= j < order.len() && i
            != j implies #[trigger] order[i] != #[trigger] order[j] by {
            if i < j {
                assert(outranks(scores, order[i], order[j]));
            } else {
                assert(outranks(scores, order[j], order[i]));
            }
        }
    }
    order.unique_seq_to_set();
    lemma_int_range(0, scores.len() as int);
    assert(listed.subset_of(all)) by {
        assert forall|x: int| #[trigger] listed.contains(x) implies all.contains(x) by {
            let i = order.index_of(x);
            assert(order[i] == x);
        }
    }
    lemma_subset_equality(listed, all);
    assert(all.contains(position));
}

/// There is one ranking of some scores.
pub proof fn ranking_is_unique(order: Seq<int>, other: Seq<int>, scores: Seq<u32>)
    requires
        is_ranking(order, scores),
        is_ranking(other, scores),
    ensures
        order == other,
{
    assert forall|i: int| 0 <= i < order.len() implies order[i] == other[i] by {
        rankings_agree_at(order, other, scores, i);
    }
    assert(order =~= other);
}

proof fn rankings_agree_at(order: Seq<int>, other: Seq<int>, scores: Seq<u32>, i: int)
    requires
        is_ranking(order, scores),
        is_ranking(other, scores),
        0 <= i < order.len(),
    ensures
        order[i] == other[i],
    decreases i,
{
    let a = order[i];
    let b = other[i];
    ranking_lists_every_position(other, scores, a);
    ranking_lists_every_position(order, scores, b);
    let at_other = other.index_of(a);
    let at_order = order.index_of(b);
    if at_other < i {
        rankings_agree_at(order, other, scores, at_other);
        assert(outranks(scores, order[at_other], order[i]));
    } else if at_order < i {
        rankings_agree_at(order, other, scores, at_order);
        assert(outranks(scores, other[at_order], other[i]));
    } else if a != b {
        assert(outranks(scores, other[i], other[at_other]));
        assert(outranks(scores, order[i], order[at_order]));
    }
}

/// The quotes that a ranking shows come in descending order of score, and no
/// quote that it leaves out scores higher.
pub proof fn shown_quotes_lead(order: Seq<int>, scores: Seq<u32>, max_results: u32, i: int, j: int)
    requires
        is_ranking(order, scores),
        0 <= i < j < order.len(),
    ensures
        scores[order[i]] >= scores[order[j]],
        i >= shown(order.len(), max_results) ==> j >= shown(order.len(), max_results),
{
    assert(outranks(scores, order[i], order[j]));
}

/// A contender is the latest quote of an anchor that is known, active, not
/// excluded, reputable enough and offering quotes, and has not expired.
pub proof fn contenders_are_eligible(s: State, min_reputation: u32, i: int)
    requires
        s.consistent(),
        0 <= i < s.contenders(min_reputation).len(),
    ensures
        ({
            let contender = s.contenders(min_reputation)[i];
            let anchor = contender.quote.anchor;
            &&& s.routing.anchors.contains(anchor)
            &&& s.meta(anchor) == Some(contender.meta)
            &&& s.latest_quote(anchor) == Some(contender.quote)
            &&& contender.meta.is_active
            &&& contender.meta.reputation_score >= min_reputation
            &&& !s.blacklisted(anchor)
            &&& s.offers(anchor, SERVICE_QUOTES)
            &&& s.now() < contender.quote.valid_until
        }),
{
    let anchors = s.routing.anchors;
    let items = Seq::new(anchors.len(), |i: int| s.contender(anchors[i], min_reputation));
    let contender = s.contenders(min_reputation)[i];
    assert(present(items).contains(contender));
    present_members(items, contender);
    let k = items.index_of(Some(contender));
    let anchor = anchors[k];
    assert(s.contender(anchor, min_reputation) == Some(contender));
    let id = read(s.routing.latest, anchor)->0;
    assert(s.routing.quotes.dom().contains((anchor, id)));
}

/// The field is complete: every known anchor that is active, reputable enough, not
/// excluded and offering quotes, and whose latest quote has not expired, has that
/// quote among the contenders, together with what is known of the anchor, whatever
/// the quote says.
pub proof fn eligible_quotes_contend(s: State, min_reputation: u32, anchor: Seq<u8>)
    requires
        s.routing.anchors.contains(anchor),
        s.routing.metas.dom().contains(anchor),
        s.routing.metas[anchor].value.is_active,
        s.routing.metas[anchor].value.reputation_score >= min_reputation,
        !s.routing.blacklist.dom().contains(anchor),
        s.registry.services.dom().contains(anchor),
        s.registry.services[anchor].value.services.contains(3),
        s.routing.latest.dom().contains(anchor),
        s.routing.quotes.dom().contains((anchor, s.routing.latest[anchor].value)),
        s.ledger.timestamp < s.routing.quotes[(
            anchor,
            s.routing.latest[anchor].value,
        )].value.valid_until,
    ensures
        s.contenders(min_reputation).contains(
            ContenderView {
                meta: s.routing.metas[anchor].value,
                quote: s.routing.quotes[(anchor, s.routing.latest[anchor].value)].value,
            },
        ),
{
    let anchors = s.routing.anchors;
    let quote = s.routing.quotes[(anchor, s.routing.latest[anchor].value)].value;
    let contender = ContenderView { meta: s.routing.metas[anchor].value, quote };
    open_quote_is_exact(s, anchor, min_reputation, quote);
    let items = Seq::new(anchors.len(), |i: int| s.contender(anchors[i], min_reputation));
    let i = anchors.index_of(anchor);
    assert(items[i] == Some(contender));
    present_members(items, contender);
}

/// The contenders are the open quotes, one for each known anchor that has one, in the
/// order of the anchors. The positions of these anchors are returned.
pub proof fn contenders_are_complete(s: State, min_reputation: u32) -> (positions: Seq<int>)
    ensures
        positions.len() == s.contenders(min_reputation).len(),
        forall|k: int|
            0 <= k < positions.len() ==> {
                &&& 0 <= #[trigger] positions[k] < s.routing.anchors.len()
                &&& s.open_quote(s.routing.anchors[positions[k]], min_reputation) == Some(
                    s.contenders(min_reputation)[k].quote,
                )
                &&& read(s.routing.metas, s.routing.anchors[positions[k]]) == Some(
                    s.contenders(min_reputation)[k].meta,
                )
            },
        forall|k: int, l: int|
            0 <= k < l < positions.len() ==> #[trigger] positions[k] < #[trigger] positions[l],
        forall|i: int|
            0 <= i < s.routing.anchors.len() && s.open_quote(
                #[trigger] s.routing.anchors[i],
                min_reputation,
            ) is Some ==> positions.contains(i),
{
    let items = Seq::new(
        s.routing.anchors.len(),
        |i: int| s.contender(s.routing.anchors[i], min_reputation),
    );
    let positions = present_positions(items);
    assert forall|i: int|
        0 <= i < s.routing.anchors.len() && s.open_quote(
            #[trigger] s.routing.anchors[i],
            min_reputation,
        ) is Some implies positions.contains(i) by {
        assert(items[i] is Some);
    }
    assert forall|k: int| 0 <= k < positions.len() implies {
        &&& 0 <= #[trigger] positions[k] < s.routing.anchors.len()
        &&& s.open_quote(s.routing.anchors[positions[k]], min_reputation) == Some(
            s.contenders(min_reputation)[k].quote,
        )
        &&& read(s.routing.metas, s.routing.anchors[positions[k]]) == Some(
            s.contenders(min_reputation)[k].meta,
        )
    } by {
        let anchor = s.routing.anchors[positions[k]];
        assert(items[positions[k]] == s.contender(anchor, min_reputation));
        assert(s.routable(anchor, min_reputation));
    }
    positions
}

/// The bounds of a field are the largest fee, settlement time and reputation of its
/// contenders: none is exceeded, and each is met by a contender unless it is one.
pub proof fn bounds_are_met(contenders: Seq<ContenderView>)
    ensures
        ({
            let fee = largest(fees(contenders));
            let time = largest(settlement_times(contenders));
            let reputation = largest(reputations(contenders));
            &&& fee >= 1 && time >= 1 && reputation >= 1
            &&& forall|i: int|
                0 <= i < contenders.len() ==> (#[trigger] contenders[i]).quote.fee_percentage <= fee
                    && contenders[i].meta.average_settlement_time <= time
                    && contenders[i].meta.reputation_score <= reputation
            &&& fee == 1 || exists|i: int|
                0 <= i < contenders.len() && (#[trigger] contenders[i]).quote.fee_percentage == fee
            &&& time == 1 || exists|i: int|
                0 <= i < contenders.len() && (#[trigger] contenders[i]).meta.average_settlement_time
                    == time
            &&& reputation == 1 || exists|i: int|
                0 <= i < contenders.len() && (#[trigger] contenders[i]).meta.reputation_score
                    == reputation
        }),
{
    largest_is_largest(fees(contenders));
    largest_is_largest(settlement_times(contenders));
    largest_is_largest(reputations(contenders));
    assert forall|i: int| 0 <= i < contenders.len() implies (
    #[trigger] contenders[i]).quote.fee_percentage <= largest(fees(contenders))
        && contenders[i].meta.average_settlement_time <= largest(settlement_times(contenders))
        && contenders[i].meta.reputation_score <= largest(reputations(contenders)) by {
        assert(fees(contenders)[i] <= largest(fees(contenders)));
        assert(settlement_times(contenders)[i] <= largest(settlement_times(contenders)));
        assert(reputations(contenders)[i] <= largest(reputations(contenders)));
    }
    if largest(fees(contenders)) != 1 {
        let i = fees(contenders).index_of(largest(fees(contenders)));
        assert(contenders[i].quote.fee_percentage == largest(fees(contenders)));
    }
    if largest(settlement_times(contenders)) != 1 {
        let i = settlement_times(contenders).index_of(largest(settlement_times(contenders)));
        assert(contenders[i].meta.average_settlement_time == largest(settlement_times(contenders)));
    }
    if largest(reputations(contenders)) != 1 {
        let i = reputations(contenders).index_of(largest(reputations(contenders)));
        assert(contenders[i].meta.reputation_score == largest(reputations(contenders)));
    }
}

/// The weights of a ranking are accepted exactly if they add up to a thousand.
pub proof fn weights_add_up_to_a_thousand(fee: u32, speed: u32, reputation: u32)
    ensures
        valid_weights(fee, speed, reputation) <==> fee + speed + reputation == 1000,
{
}

/// What a ranking shows are the quotes of the contenders with the highest scores: as
/// many as asked for or as there are, each once, the higher score first and of equal
/// scores the earlier contender.
pub proof fn ranking_shows_the_best(
    contenders: Seq<ContenderView>,
    order: Seq<int>,
    scores: Seq<u32>,
    max_results: u32,
)
    requires
        is_ranking(order, scores),
        scores.len() == contenders.len(),
    ensures
        ({
            let quotes = head_quotes(contenders, order, max_results);
            &&& quotes.len() <= max_results
            &&& quotes.len() <= contenders.len()
            &&& quotes.len() == max_results || quotes.len() == contenders.len()
            &&& forall|i: int|
                0 <= i < quotes.len() ==> 0 <= order[i] < contenders.len() && #[trigger] quotes[i]
                    == contenders[order[i]].quote
            &&& forall|i: int, j: int|
                0 <= i < j < order.len() ==> (scores[#[trigger] order[i]] > scores[#[trigger] order[
                    j
                ]] || scores[order[i]] == scores[order[j]] && order[i] < order[j])
            &&& forall|p: int| 0 <= p < contenders.len() ==> #[trigger] order.contains(p)
        }),
{
    assert forall|p: int| 0 <= p < contenders.len() implies #[trigger] order.contains(p) by {
        ranking_lists_every_position(order, scores, p);
    }
    assert forall|i: int, j: int| 0 <= i < j < order.len() implies (scores[#[trigger] order[i]]
        > scores[#[trigger] order[j]] || scores[order[i]] == scores[order[j]] && order[i]
        < order[j]) by {
        assert(outranks(scores, order[i], order[j]));
    }
}

/// With room for all of them, the ranking shows the quote of every contender.
pub proof fn roomy_ranking_shows_all(
    contenders: Seq<ContenderView>,
    order: Seq<int>,
    scores: Seq<u32>,
    max_results: u32,
    i: int,
)
    requires
        is_ranking(order, scores),
        scores.len() == contenders.len(),
        contenders.len() <= max_results,
        0 <= i < contenders.len(),
    ensures
        head_quotes(contenders, order, max_results).contains(contenders[i].quote),
{
    ranking_lists_every_position(order, scores, i);
    let k = order.index_of(i);
    assert(head_quotes(contenders, order, max_results)[k] == contenders[i].quote);
}

} // verus!
