use anchorkit::contract::AnchorKitContract;
use anchorkit::data::Address;
use anchorkit::env::{Env, Host, Ledger};
use anchorkit::events::Event;
use anchorkit::types::{
    AnchorServices, ErrorCode, Quote, RoutingOptions, RoutingRequest, WebhookEvent,
};

fn address(name: &str) -> Address {
    Address { strkey: name.as_bytes().to_vec() }
}

fn bytes(s: &str) -> Vec<u8> {
    s.as_bytes().to_vec()
}

/// A contract at a time, with the administrator "admin" in place and the call
/// authorized on behalf of "admin" and of each of `accounts`.
fn contract_at(timestamp: u64, accounts: &[&str]) -> Env {
    let mut authorized = vec![address("admin")];
    for name in accounts {
        authorized.push(address(name));
    }
    let host = Host {
        authorized,
        signatures: Vec::new(),
        tokens: Vec::new(),
        domains: Vec::new(),
        rate_limits: Vec::new(),
    };
    let mut env = Env::new(Ledger { timestamp, sequence: 1 }, host);
    AnchorKitContract::initialize(&mut env, address("admin")).unwrap();
    env
}

/// Makes an anchor known that offers quotes.
fn add_anchor(env: &mut Env, name: &str, reputation: u32, time: u64, liquidity: u32, uptime: u32) {
    env.host.authorized.push(address(name));
    AnchorKitContract::set_anchor_metadata(
        env,
        address(name),
        reputation,
        time,
        liquidity,
        uptime,
        1000,
    )
    .unwrap();
    env.registry.services.set(
        address(name),
        AnchorServices {
            anchor: address(name),
            services: vec![3],
            service_capability_version: 1,
        },
        0,
    );
}

fn quote(env: &mut Env, name: &str, fee: u32) -> u64 {
    AnchorKitContract::submit_quote(
        env,
        address(name),
        bytes("USD"),
        bytes("XLM"),
        77,
        fee,
        10,
        100,
        500,
    )
    .unwrap()
}

fn options(strategy: &str) -> RoutingOptions {
    RoutingOptions {
        request: RoutingRequest {
            base_asset: bytes("USD"),
            quote_asset: bytes("XLM"),
            amount: 50,
            operation_type: 1,
        },
        strategy: vec![bytes(strategy)],
        min_reputation: 0,
        max_anchors: 10,
        require_kyc: false,
        require_compliance: false,
        subject: address("subject"),
    }
}

fn route(env: &mut Env, o: RoutingOptions) -> Result<u64, ErrorCode> {
    AnchorKitContract::route_transaction(env, o).map(|q| q.quote_id)
}

/// Three anchors with a quote each: the first is cheapest, the second fastest,
/// the third most reputable.
fn market() -> Env {
    let mut env = contract_at(100, &[]);
    add_anchor(&mut env, "cheap", 50, 900, 10, 10);
    add_anchor(&mut env, "fast", 60, 100, 10, 10);
    add_anchor(&mut env, "good", 90, 500, 20, 10);
    quote(&mut env, "cheap", 5);
    quote(&mut env, "fast", 80);
    quote(&mut env, "good", 40);
    env.events.clear();
    env
}

#[test]
fn quotes_are_numbered_from_one_and_read_back() {
    let mut env = contract_at(100, &["anchor"]);
    assert_eq!(quote(&mut env, "anchor", 10_000), 1);
    assert_eq!(quote(&mut env, "anchor", 0), 2);
    let q = AnchorKitContract::get_quote(&env, address("anchor"), 1).unwrap();
    assert_eq!(
        q,
        Quote {
            quote_id: 1,
            anchor: address("anchor"),
            base_asset: bytes("USD"),
            quote_asset: bytes("XLM"),
            rate: 77,
            fee_percentage: 10_000,
            minimum_amount: 10,
            maximum_amount: 100,
            valid_until: 500,
        }
    );
    assert_eq!(env.routing.latest.get(&address("anchor")), Some(2));
    assert_eq!(
        env.events[0],
        Event::QuoteSubmitted {
            quote_id: 1,
            anchor: address("anchor"),
            base_asset: bytes("USD"),
            quote_asset: bytes("XLM"),
            rate: 77,
            valid_until: 500,
        }
    );
    let dear = AnchorKitContract::submit_quote(
        &mut env,
        address("anchor"),
        bytes("USD"),
        bytes("XLM"),
        1,
        10_001,
        1,
        2,
        3,
    );
    assert_eq!(dear, Err(ErrorCode::InvalidQuote));
    let unsigned = AnchorKitContract::submit_quote(
        &mut env,
        address("stranger"),
        bytes("USD"),
        bytes("XLM"),
        1,
        10_001,
        1,
        2,
        3,
    );
    assert_eq!(unsigned, Err(ErrorCode::Unauthorized));
    env.instance.quote_count = u64::MAX;
    let last = AnchorKitContract::submit_quote(
        &mut env,
        address("anchor"),
        bytes("USD"),
        bytes("XLM"),
        1,
        1,
        1,
        2,
        3,
    );
    assert_eq!(last, Err(ErrorCode::ArithmeticOverflow));
    assert_eq!(
        AnchorKitContract::get_quote(&env, address("anchor"), 3),
        Err(ErrorCode::NoQuotesAvailable)
    );
}

#[test]
fn receiving_a_quote_is_announced() {
    let mut env = contract_at(100, &["anchor", "receiver"]);
    let id = quote(&mut env, "anchor", 3);
    let q = AnchorKitContract::receive_quote(
        &mut env,
        address("receiver"),
        address("anchor"),
        id,
    )
    .unwrap();
    assert_eq!(q.quote_id, id);
    assert_eq!(
        env.events[1],
        Event::QuoteReceived { quote_id: id, receiver: address("receiver"), timestamp: 100 }
    );
    assert_eq!(
        AnchorKitContract::receive_quote(&mut env, address("receiver"), address("anchor"), 9),
        Err(ErrorCode::AttestationNotFound)
    );
    assert_eq!(
        AnchorKitContract::receive_quote(&mut env, address("stranger"), address("anchor"), id),
        Err(ErrorCode::Unauthorized)
    );
}

#[test]
fn acceptance_can_require_compliance() {
    let mut env = contract_at(100, &["anchor", "receiver"]);
    let id = quote(&mut env, "anchor", 3);
    let accept = |env: &mut Env, required: bool| {
        AnchorKitContract::accept_quote_with_compliance(
            env,
            address("receiver"),
            address("anchor"),
            id,
            required,
        )
    };
    assert_eq!(accept(&mut env, true), Err(ErrorCode::ComplianceNotMet));
    assert!(accept(&mut env, false).is_ok());
    AnchorKitContract::record_compliance_check(
        &mut env,
        address("receiver"),
        bytes("kyc"),
        false,
    )
    .unwrap();
    assert_eq!(accept(&mut env, true), Err(ErrorCode::ComplianceNotMet));
    AnchorKitContract::record_compliance_check(&mut env, address("receiver"), bytes("kyc"), true)
        .unwrap();
    assert_eq!(accept(&mut env, true).unwrap().quote_id, id);
    assert_eq!(
        env.events.last(),
        Some(&Event::QuoteAccepted {
            quote_id: id,
            receiver: address("receiver"),
            timestamp: 100
        })
    );
    assert_eq!(
        AnchorKitContract::accept_quote_with_compliance(
            &mut env,
            address("receiver"),
            address("anchor"),
            99,
            false
        ),
        Err(ErrorCode::NoQuotesAvailable)
    );
}

#[test]
fn tracing_a_quote_needs_the_quote_service() {
    let mut env = contract_at(100, &["anchor"]);
    let r = AnchorKitContract::quote_with_request_id(
        &mut env,
        anchorkit::types::RequestId { id: bytes("r"), created_at: 1 },
        address("anchor"),
        bytes("USD"),
        bytes("XLM"),
        1,
        2,
        3,
        4,
        5,
    );
    assert_eq!(r, Err(ErrorCode::ServicesNotConfigured));
}

#[test]
fn strategies_choose_the_best_quote() {
    let mut env = market();
    assert_eq!(route(&mut env, options("LowestFee")), Ok(1));
    assert_eq!(route(&mut env, options("FastestSettlement")), Ok(2));
    assert_eq!(route(&mut env, options("HighestReputation")), Ok(3));
    // 50*40+10*30+10*20+95*10 = 3450; 60*40+500+20*10 = 3100; 90*40+600+200+60*10 = 5000.
    assert_eq!(route(&mut env, options("WeightedScore")), Ok(3));
    assert_eq!(route(&mut env, options("NoSuchStrategy")), Ok(1));
    assert_eq!(
        env.events[1],
        Event::Webhook {
            notice: WebhookEvent {
                event_type: bytes("transaction_routed"),
                transaction_id: 2,
                timestamp: 100,
                payload_hash: Vec::new(),
            }
        }
    );
}

#[test]
fn weighted_score_counts_the_fee() {
    let mut env = contract_at(100, &[]);
    add_anchor(&mut env, "a", 10, 1, 10, 10);
    add_anchor(&mut env, "b", 10, 1, 10, 10);
    add_anchor(&mut env, "c", 10, 1, 10, 10);
    quote(&mut env, "a", 100);
    quote(&mut env, "b", 99);
    quote(&mut env, "c", 5000);
    assert_eq!(route(&mut env, options("WeightedScore")), Ok(2));
    // Past a hundred the fee makes no further difference.
    let mut o = options("WeightedScore");
    AnchorKitContract::blacklist_anchor(&mut env, address("b")).unwrap();
    assert_eq!(route(&mut env, o.clone()), Ok(1));
    o.strategy = vec![bytes("WeightedScore"), bytes("LowestFee")];
    assert_eq!(route(&mut env, o), Ok(1));
}

#[test]
fn equal_quotes_go_to_the_first_anchor() {
    let mut env = contract_at(100, &[]);
    add_anchor(&mut env, "a", 10, 1, 10, 10);
    add_anchor(&mut env, "b", 10, 1, 10, 10);
    quote(&mut env, "b", 5);
    quote(&mut env, "a", 5);
    for strategy in ["LowestFee", "FastestSettlement", "HighestReputation", "WeightedScore"] {
        assert_eq!(route(&mut env, options(strategy)), Ok(2));
    }
}

#[test]
fn quotes_that_do_not_answer_are_left_out() {
    let mut env = market();
    let mut o = options("LowestFee");
    o.min_reputation = 55;
    assert_eq!(route(&mut env, o.clone()), Ok(3));
    o.min_reputation = 91;
    assert_eq!(route(&mut env, o.clone()), Err(ErrorCode::NoQuotesAvailable));
    o.min_reputation = 0;
    for amount in [9, 101] {
        o.request.amount = amount;
        assert_eq!(route(&mut env, o.clone()), Err(ErrorCode::NoQuotesAvailable));
    }
    for amount in [10, 100] {
        o.request.amount = amount;
        assert_eq!(route(&mut env, o.clone()), Ok(1));
    }
    o.request.base_asset = bytes("EUR");
    assert_eq!(route(&mut env, o.clone()), Err(ErrorCode::NoQuotesAvailable));
    o.request.base_asset = bytes("USD");
    o.request.quote_asset = bytes("USDC");
    assert_eq!(route(&mut env, o), Err(ErrorCode::NoQuotesAvailable));
    env.ledger.timestamp = 499;
    assert_eq!(route(&mut env, options("LowestFee")), Ok(1));
    env.ledger.timestamp = 500;
    assert_eq!(
        route(&mut env, options("LowestFee")),
        Err(ErrorCode::NoQuotesAvailable)
    );
}

#[test]
fn anchors_that_offer_no_quotes_are_left_out() {
    let mut env = market();
    env.registry.services.remove(&address("cheap"));
    assert_eq!(route(&mut env, options("LowestFee")), Ok(3));
    env.registry.services.set(
        address("good"),
        AnchorServices {
            anchor: address("good"),
            services: vec![1, 2, 4],
            service_capability_version: 1,
        },
        0,
    );
    assert_eq!(route(&mut env, options("LowestFee")), Ok(2));
}

#[test]
fn only_the_latest_quote_counts() {
    let mut env = market();
    quote(&mut env, "cheap", 90);
    assert_eq!(route(&mut env, options("LowestFee")), Ok(3));
}

#[test]
fn routing_can_require_compliance_and_a_strategy() {
    let mut env = market();
    let mut o = options("LowestFee");
    o.require_compliance = true;
    assert_eq!(route(&mut env, o.clone()), Err(ErrorCode::ComplianceNotMet));
    AnchorKitContract::record_compliance_check(&mut env, address("subject"), bytes("aml"), true)
        .unwrap();
    assert_eq!(route(&mut env, o.clone()), Err(ErrorCode::ComplianceNotMet));
    AnchorKitContract::record_compliance_check(&mut env, address("subject"), bytes("kyc"), true)
        .unwrap();
    assert_eq!(route(&mut env, o.clone()), Ok(1));
    o.strategy = Vec::new();
    assert_eq!(route(&mut env, o), Err(ErrorCode::NoQuotesAvailable));
}

#[test]
fn blacklisted_anchors_are_not_routed() {
    let mut env = market();
    AnchorKitContract::blacklist_anchor(&mut env, address("cheap")).unwrap();
    assert!(AnchorKitContract::is_anchor_blacklisted(&env, address("cheap")));
    assert_eq!(env.events[0].topic(), ("blacklist", "added"));
    assert_eq!(route(&mut env, options("LowestFee")), Ok(3));
    let field = AnchorKitContract::routing_field(&env, 1000, 0, 0, 0).unwrap();
    assert_eq!(field.contenders.len(), 2);
    AnchorKitContract::remove_from_blacklist(&mut env, address("cheap")).unwrap();
    assert!(!AnchorKitContract::is_anchor_blacklisted(&env, address("cheap")));
    assert_eq!(route(&mut env, options("LowestFee")), Ok(1));
    env.host.authorized.clear();
    assert_eq!(
        AnchorKitContract::blacklist_anchor(&mut env, address("cheap")),
        Err(ErrorCode::Unauthorized)
    );
    assert_eq!(
        AnchorKitContract::remove_from_blacklist(&mut env, address("cheap")),
        Err(ErrorCode::Unauthorized)
    );
}

#[test]
fn anchors_are_listed_once_and_can_be_reactivated() {
    let mut env = contract_at(100, &[]);
    assert_eq!(
        AnchorKitContract::reactivate_anchor(&mut env, address("a")),
        Err(ErrorCode::AttestorNotRegistered)
    );
    assert_eq!(
        AnchorKitContract::get_anchor_metadata(&env, address("a")),
        Err(ErrorCode::AttestorNotRegistered)
    );
    add_anchor(&mut env, "a", 1, 2, 3, 4);
    add_anchor(&mut env, "b", 1, 2, 3, 4);
    add_anchor(&mut env, "a", 9, 2, 3, 4);
    assert_eq!(
        AnchorKitContract::list_active_anchors(&env),
        vec![address("a"), address("b")]
    );
    assert_eq!(
        AnchorKitContract::get_anchor_metadata(&env, address("a")).unwrap().reputation_score,
        9
    );
    assert_eq!(env.routing.anchors_ttl, 1_555_200);
    let mut meta = AnchorKitContract::get_anchor_metadata(&env, address("a")).unwrap();
    meta.is_active = false;
    env.routing.metas.set(address("a"), meta, 0);
    assert_eq!(AnchorKitContract::list_active_anchors(&env), vec![address("b")]);
    quote(&mut env, "a", 1);
    assert_eq!(
        route(&mut env, options("LowestFee")),
        Err(ErrorCode::NoQuotesAvailable)
    );
    AnchorKitContract::reactivate_anchor(&mut env, address("a")).unwrap();
    assert_eq!(
        AnchorKitContract::list_active_anchors(&env),
        vec![address("a"), address("b")]
    );
    assert_eq!(route(&mut env, options("LowestFee")), Ok(1));
}

#[test]
fn ranking_field_holds_the_open_quotes_and_maxima() {
    let env = market();
    let field = AnchorKitContract::routing_field(&env, 333, 333, 334, 0).unwrap();
    let ids: Vec<u64> = field.contenders.iter().map(|c| c.quote.quote_id).collect();
    assert_eq!(ids, vec![1, 2, 3]);
    assert_eq!((field.max_fee, field.max_settlement, field.max_reputation), (80, 900, 90));
    let field = AnchorKitContract::routing_field(&env, 0, 0, 1000, 60).unwrap();
    let ids: Vec<u64> = field.contenders.iter().map(|c| c.quote.quote_id).collect();
    assert_eq!(ids, vec![2, 3]);
    assert_eq!(field.max_settlement, 500);
    let field = AnchorKitContract::routing_field(&env, 0, 0, 1000, 1000).unwrap();
    assert!(field.contenders.is_empty());
    assert_eq!((field.max_fee, field.max_settlement, field.max_reputation), (1, 1, 1));
}

#[test]
fn weights_must_add_up() {
    let env = market();
    for (f, s, r) in [(333, 333, 333), (0, 0, 0), (1000, 1, 0), (u32::MAX, u32::MAX, 1002)] {
        assert_eq!(
            AnchorKitContract::routing_field(&env, f, s, r, 0),
            Err(ErrorCode::InvalidWeights)
        );
        assert_eq!(
            AnchorKitContract::route_anchors(&env, f, s, r, 0, 0, vec![1, 2, 3]),
            Err(ErrorCode::InvalidWeights)
        );
        // No scores are needed for weights that do not add up.
        assert_eq!(
            AnchorKitContract::route_anchors(&env, f, s, r, 5, 0, Vec::new()),
            Err(ErrorCode::InvalidWeights)
        );
    }
}

#[test]
fn every_quote_of_the_field_needs_a_score() {
    let env = market();
    for scores in [vec![], vec![1, 2], vec![1, 2, 3, 4]] {
        assert_eq!(
            AnchorKitContract::route_anchors(&env, 500, 250, 250, 5, 0, scores.clone()),
            Err(ErrorCode::ValidationError)
        );
        assert_eq!(
            AnchorKitContract::route_anchors(&env, 500, 250, 251, 5, 0, scores),
            Err(ErrorCode::InvalidWeights)
        );
    }
    assert!(AnchorKitContract::route_anchors(&env, 500, 250, 250, 5, 0, vec![1, 2, 3]).is_ok());
}

#[test]
fn clusters_read_back_and_are_listed_in_order() {
    let mut env = contract_at(100, &[]);
    assert_eq!(AnchorKitContract::list_anchor_clusters(&env), vec![]);
    assert_eq!(
        AnchorKitContract::get_anchor_cluster(&env, bytes("eu")),
        Err(ErrorCode::ValidationError)
    );
    let eu = vec![address("b"), address("a")];
    AnchorKitContract::create_anchor_cluster(&mut env, bytes("eu"), eu.clone()).unwrap();
    env.ledger.timestamp = 200;
    AnchorKitContract::create_anchor_cluster(&mut env, bytes("br"), vec![address("c")]).unwrap();
    let cluster = AnchorKitContract::get_anchor_cluster(&env, bytes("eu")).unwrap();
    assert_eq!(cluster.name, bytes("eu"));
    assert_eq!(cluster.anchors, eu);
    assert_eq!(cluster.created_at, 100);
    assert_eq!(
        AnchorKitContract::create_anchor_cluster(&mut env, bytes("eu"), vec![]),
        Err(ErrorCode::ValidationError)
    );
    let names: Vec<Vec<u8>> = AnchorKitContract::list_anchor_clusters(&env)
        .iter()
        .map(|c| c.name.clone())
        .collect();
    assert_eq!(names, vec![bytes("eu"), bytes("br")]);
    assert_eq!(env.routing.clusters.ttl(&bytes("br")), 1_555_200);
    assert_eq!(env.routing.cluster_names_ttl, 1_555_200);
    env.host.authorized.clear();
    assert_eq!(
        AnchorKitContract::create_anchor_cluster(&mut env, bytes("us"), vec![]),
        Err(ErrorCode::Unauthorized)
    );
}

#[test]
fn ranking_is_by_score_and_limited() {
    let mut env = market();
    add_anchor(&mut env, "more", 1, 1, 1, 1);
    quote(&mut env, "more", 1);
    let ranked = |scores: Vec<u32>, limit: u32| -> Vec<u64> {
        AnchorKitContract::route_anchors(&env, 500, 250, 250, limit, 0, scores)
            .unwrap()
            .iter()
            .map(|q| q.quote_id)
            .collect()
    };
    assert_eq!(ranked(vec![10, 40, 20, 30], 10), vec![2, 4, 3, 1]);
    assert_eq!(ranked(vec![10, 40, 20, 30], 3), vec![2, 4, 3]);
    assert_eq!(ranked(vec![10, 40, 20, 30], 0), Vec::<u64>::new());
    assert_eq!(ranked(vec![10, 40, 20, 30], 1), vec![2]);
    assert_eq!(ranked(vec![5, 7, 5, 7], 4), vec![2, 4, 1, 3]);
}
