use anchorkit::contract::AnchorKitContract;
use anchorkit::data::Address;
use anchorkit::env::{Env, Host, Ledger};
use anchorkit::types::{ErrorCode, RequestId};

fn address(name: &str) -> Address {
    Address { strkey: name.as_bytes().to_vec() }
}

fn bytes(s: &str) -> Vec<u8> {
    s.as_bytes().to_vec()
}

/// A contract at a time, with the administrator "admin" in place and the call
/// authorized on behalf of "admin" and of each of `accounts`.
fn contract_at(timestamp: u64, accounts: &[&str]) -> Env {
    let mut authorized = vec![address("admin")];
    for name in accounts {
        authorized.push(address(name));
    }
    let host = Host {
        authorized,
        signatures: Vec::new(),
        tokens: Vec::new(),
        domains: Vec::new(),
        rate_limits: Vec::new(),
    };
    let mut env = Env::new(Ledger { timestamp, sequence: 1 }, host);
    AnchorKitContract::initialize(&mut env, address("admin")).unwrap();
    env
}

fn request(name: &str) -> RequestId {
    RequestId { id: bytes(name), created_at: 1 }
}

fn propagate(env: &mut Env, parent: &str, child: &str, operation: &str) -> Result<(), ErrorCode> {
    AnchorKitContract::propagate_span(
        env,
        request(parent),
        request(child),
        bytes(operation),
        address("actor"),
    )
}

#[test]
fn trace_lists_root_and_children_in_order() {
    let mut env = contract_at(10, &["actor"]);
    env.registry.services.set(
        address("actor"),
        anchorkit::types::AnchorServices {
            anchor: address("actor"),
            services: vec![3],
            service_capability_version: 1,
        },
        0,
    );
    AnchorKitContract::quote_with_request_id(
        &mut env,
        request("root"),
        address("actor"),
        bytes("USD"),
        bytes("XLM"),
        1,
        2,
        3,
        4,
        5,
    )
    .unwrap();
    env.ledger.timestamp = 11;
    propagate(&mut env, "root", "c1", "first").unwrap();
    propagate(&mut env, "root", "c2", "second").unwrap();
    let trace = AnchorKitContract::get_trace(&env, bytes("root"));
    let operations: Vec<Vec<u8>> = trace.iter().map(|s| s.operation.clone()).collect();
    assert_eq!(
        operations,
        vec![bytes("submit_quote"), bytes("first"), bytes("second")]
    );
    let indices: Vec<u32> = trace.iter().map(|s| s.span_index).collect();
    assert_eq!(indices, vec![0, 1, 2]);
    assert_eq!(trace[1].parent_request_id_bytes, bytes("root"));
    assert_eq!(trace[1].started_at, 11);
    assert_eq!(trace[0].parent_request_id_bytes, Vec::<u8>::new());
    let context = AnchorKitContract::get_request_context(&env, bytes("root")).unwrap();
    assert_eq!(context.operation_chain, vec![bytes("submit_quote")]);
}

#[test]
fn trace_without_a_root_span_lists_children() {
    let mut env = contract_at(10, &["actor"]);
    assert_eq!(AnchorKitContract::get_trace(&env, bytes("root")), vec![]);
    propagate(&mut env, "root", "c1", "first").unwrap();
    let trace = AnchorKitContract::get_trace(&env, bytes("root"));
    assert_eq!(trace.len(), 1);
    assert_eq!(trace[0].request_id, request("c1"));
    assert_eq!(trace[0].span_index, 1);
    assert_eq!(env.tracing.spans.ttl(&bytes("c1")), 17_280);
    // A child that is no longer held is left out.
    propagate(&mut env, "root", "c2", "second").unwrap();
    env.tracing.spans.remove(&bytes("c1"));
    let trace = AnchorKitContract::get_trace(&env, bytes("root"));
    assert_eq!(trace.len(), 1);
    assert_eq!(trace[0].span_index, 2);
    env.tracing.children.remove(&(bytes("root"), 2));
    assert_eq!(AnchorKitContract::get_trace(&env, bytes("root")), vec![]);
}

#[test]
fn spans_need_authorization_and_room() {
    let mut env = contract_at(10, &[]);
    assert_eq!(propagate(&mut env, "root", "c1", "x"), Err(ErrorCode::Unauthorized));
    env.host.authorized.push(address("actor"));
    env.tracing.traces.set(
        bytes("root"),
        anchorkit::types::TracingContext {
            root_request_id_bytes: bytes("root"),
            next_span_index: u32::MAX,
        },
        0,
    );
    assert_eq!(propagate(&mut env, "root", "c1", "x"), Err(ErrorCode::ArithmeticOverflow));
    assert!(AnchorKitContract::get_tracing_span(&env, bytes("c1")).is_none());
}

#[test]
fn operations_are_appended_to_the_context() {
    let mut env = contract_at(10, &[]);
    assert!(AnchorKitContract::get_request_context(&env, bytes("r")).is_none());
    let made = AnchorKitContract::create_request_context(&mut env, request("r"));
    assert_eq!(made.operation_chain, Vec::<Vec<u8>>::new());
    assert_eq!(made.created_at, 10);
    AnchorKitContract::append_operation(&mut env, bytes("r"), bytes("one"));
    AnchorKitContract::append_operation(&mut env, bytes("r"), bytes("two"));
    let context = AnchorKitContract::get_request_context(&env, bytes("r")).unwrap();
    assert_eq!(context.operation_chain, vec![bytes("one"), bytes("two")]);
    assert_eq!(context.root_request_id, request("r"));
    AnchorKitContract::append_operation(&mut env, bytes("q"), bytes("one"));
    let created = AnchorKitContract::get_request_context(&env, bytes("q")).unwrap();
    assert_eq!(created.root_request_id, RequestId { id: bytes("q"), created_at: 10 });
    assert_eq!(created.operation_chain, vec![bytes("one")]);
    AnchorKitContract::create_request_context(&mut env, request("r"));
    let again = AnchorKitContract::get_request_context(&env, bytes("r")).unwrap();
    assert_eq!(again.operation_chain, Vec::<Vec<u8>>::new());
}
