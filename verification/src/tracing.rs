//! Traces of requests, and the operations performed under a root request.

use crate::calls::{Call, Moment};
use crate::contract::{carried_out, first_of, unless, AnchorKitContract};
use crate::data::{
    bytes_of, contents, lifted, present, present_of_all, present_positions, text, Address, Bytes,
    Duplicate, Text,
};
use crate::env::{Env, State};
use crate::stores::TracingState;
use crate::table::{put, read, written};
use crate::types::{
    ErrorCode, RequestContext, RequestContextView, RequestId, RequestIdView, TracingContext,
    TracingContextView, TracingSpan, TracingSpanView, SPAN_TTL,
};
use vstd::prelude::*;

verus! {

impl State {
    /// The state with a successful span that starts and ends now.
    pub open spec fn store_span(
        self,
        request_id: RequestIdView,
        operation: Seq<u8>,
        actor: Seq<u8>,
        parent: Seq<u8>,
        span_index: u32,
    ) -> State {
        State {
            tracing: TracingState {
                spans: put(
                    self.tracing.spans,
                    request_id.id,
                    TracingSpanView {
                        request_id,
                        operation,
                        actor,
                        started_at: self.now(),
                        completed_at: self.now(),
                        status: bytes_of("success"),
                        parent_request_id_bytes: parent,
                        span_index,
                    },
                    SPAN_TTL,
                ),
                ..self.tracing
            },
            ..self
        }
    }

    /// The context of a root request; an empty one, made now, if none is stored.
    pub open spec fn context_of(self, root: Seq<u8>) -> RequestContextView {
        match read(self.tracing.requests, root) {
            Some(context) => context,
            None => RequestContextView {
                root_request_id: RequestIdView { id: root, created_at: self.now() },
                operation_chain: Seq::empty(),
                created_at: self.now(),
            },
        }
    }

    /// The state with a context stored for a root request.
    pub open spec fn store_context(self, root: Seq<u8>, context: RequestContextView) -> State {
        State {
            tracing: TracingState {
                requests: put(self.tracing.requests, root, context, SPAN_TTL),
                ..self.tracing
            },
            ..self
        }
    }

    /// The state in which an operation has been added to the context of a root
    /// request.
    pub open spec fn append_operation(self, root: Seq<u8>, name: Seq<u8>) -> State {
        let context = self.context_of(root);
        self.store_context(
            root,
            RequestContextView {
                operation_chain: context.operation_chain.push(name),
                ..context
            },
        )
    }

    /// The context that `create_request_context` makes.
    pub open spec fn new_context(self, root_request_id: RequestIdView) -> RequestContextView {
        RequestContextView {
            root_request_id,
            operation_chain: Seq::empty(),
            created_at: self.now(),
        }
    }

    /// The trace of a root request; one whose next child gets index 1, if none
    /// is stored.
    pub open spec fn trace_of(self, root: Seq<u8>) -> TracingContextView {
        match read(self.tracing.traces, root) {
            Some(trace) => trace,
            None => TracingContextView { root_request_id_bytes: root, next_span_index: 1 },
        }
    }

    /// Why `propagate_span` is refused.
    pub open spec fn propagate_span_refusal(
        self,
        parent: RequestIdView,
        actor: Seq<u8>,
    ) -> Option<ErrorCode> {
        first_of(
            unless(self.authorized(actor), ErrorCode::Unauthorized),
            unless(
                self.trace_of(parent.id).next_span_index < u32::MAX,
                ErrorCode::ArithmeticOverflow,
            ),
        )
    }

    /// The state in which `child` is the next child span of `parent`.
    pub open spec fn propagate_span_effect(
        self,
        parent: RequestIdView,
        child: RequestIdView,
        operation: Seq<u8>,
        actor: Seq<u8>,
    ) -> State {
        let trace = self.trace_of(parent.id);
        let index = trace.next_span_index;
        State {
            tracing: TracingState {
                traces: put(
                    self.tracing.traces,
                    parent.id,
                    TracingContextView { next_span_index: (index + 1) as u32, ..trace },
                    SPAN_TTL,
                ),
                children: put(self.tracing.children, (parent.id, index), child.id, SPAN_TTL),
                ..self.tracing
            },
            ..self
        }.store_span(child, operation, actor, parent.id, index)
    }

    /// The child span with an index, if it is known.
    pub open spec fn child_span(self, root: Seq<u8>, index: u32) -> Option<TracingSpanView> {
        match read(self.tracing.children, (root, index)) {
            Some(id) => read(self.tracing.spans, id),
            None => None,
        }
    }

    /// How many indices have been given to child spans of a root request.
    pub open spec fn child_count(self, root: Seq<u8>) -> nat {
        match read(self.tracing.traces, root) {
            Some(trace) => if trace.next_span_index > 0 {
                (trace.next_span_index - 1) as nat
            } else {
                0
            },
            None => 0,
        }
    }

    /// The child spans of a root request by index, each if it is known.
    pub open spec fn child_spans(self, root: Seq<u8>) -> Seq<Option<TracingSpanView>> {
        Seq::new(self.child_count(root), |i: int| self.child_span(root, (i + 1) as u32))
    }

    /// Whether the host keeps the whole trace of a root request: each index given
    /// to a child still leads to a span.
    pub open spec fn trace_whole(self, root: Seq<u8>) -> bool {
        forall|i: u32|
            1 <= i <= self.child_count(root) ==> (#[trigger] self.child_span(root, i)) is Some
    }

    /// The root span followed by the child spans in the order of their indices.
    pub open spec fn trace(self, root: Seq<u8>) -> Seq<TracingSpanView> {
        present(seq![read(self.tracing.spans, root)] + self.child_spans(root))
    }
}

impl AnchorKitContract {
    /// The span of a request, if it is known.
    pub fn get_tracing_span(env: &Env, request_id_bytes: Bytes) -> (r: Option<TracingSpan>)
        ensures
            lifted(r) == read(env@.tracing.spans, request_id_bytes@),
    {
        env.tracing.spans.get(&request_id_bytes)
    }

    /// Stores a root span.
    pub(crate) fn store_span(
        env: &mut Env,
        request_id: &RequestId,
        operation: Text,
        actor: Address,
    )
        ensures
            final(env)@ == old(env)@.store_span(
                request_id@,
                operation@,
                actor@,
                Seq::empty(),
                0,
            ),
    {
        let parent: Bytes = Vec::new();
        Self::store_span_with_parent(env, request_id, operation, actor, parent, 0);
    }

    /// Stores a span under a parent.
    fn store_span_with_parent(
        env: &mut Env,
        request_id: &RequestId,
        operation: Text,
        actor: Address,
        parent_request_id_bytes: Bytes,
        span_index: u32,
    )
        ensures
            final(env)@ == old(env)@.store_span(
                request_id@,
                operation@,
                actor@,
                parent_request_id_bytes@,
                span_index,
            ),
    {
        let now: u64 = env.ledger.timestamp;
        let span = TracingSpan {
            request_id: request_id.dup(),
            operation,
            actor,
            started_at: now,
            completed_at: now,
            status: text("success"),
            parent_request_id_bytes,
            span_index,
        };
        env.tracing.spans.set(request_id.id.dup(), span, SPAN_TTL);
    }

    /// Makes `child_request_id` the next child span of `parent_request_id`.
    /// `actor` must authorize it.
    pub fn propagate_span(
        env: &mut Env,
        parent_request_id: RequestId,
        child_request_id: RequestId,
        operation: Text,
        actor: Address,
    ) -> (r: Result<(), ErrorCode>)
        ensures
            carried_out(
                r,
                old(env)@,
                final(env)@,
                old(env)@.propagate_span_refusal(parent_request_id@, actor@),
                old(env)@.propagate_span_effect(
                    parent_request_id@,
                    child_request_id@,
                    operation@,
                    actor@,
                ),
            ),
    {
        if !env.authorized(&actor) {
            return Err(ErrorCode::Unauthorized);
        }
        let root: Bytes = parent_request_id.id;
        let trace: TracingContext = match env.tracing.traces.get(&root) {
            Some(trace) => trace,
            None => TracingContext { root_request_id_bytes: root.dup(), next_span_index: 1 },
        };
        let index: u32 = trace.next_span_index;
        if index == u32::MAX {
            return Err(ErrorCode::ArithmeticOverflow);
        }
        let next = TracingContext {
            root_request_id_bytes: trace.root_request_id_bytes,
            next_span_index: index + 1,
        };
        env.tracing.traces.set(root.dup(), next, SPAN_TTL);
        env.tracing.children.set((root.dup(), index), child_request_id.id.dup(), SPAN_TTL);
        Self::store_span_with_parent(env, &child_request_id, operation, actor, root, index);
        Ok(())
    }

    /// The spans of a root request: the root span first, then its child spans
    /// in the order in which they were made.
    pub fn get_trace(env: &Env, root_request_id_bytes: Bytes) -> (r: Vec<TracingSpan>)
        ensures
            contents(r@) == env@.trace(root_request_id_bytes@),
    {
        let root: Bytes = root_request_id_bytes;
        let ghost all = seq![read(env@.tracing.spans, root@)] + env@.child_spans(root@);
        let mut spans: Vec<TracingSpan> = Vec::new();
        assert(contents(spans@) =~= present(all.take(0)));
        match env.tracing.spans.get(&root) {
            Some(span) => {
                spans.push(span);
            },
            None => {},
        }
        assert(all.take(1).drop_last() =~= all.take(0));
        assert(contents(spans@) =~= present(all.take(1)));
        match env.tracing.traces.get(&root) {
            Some(trace) => {
                let mut i: u32 = 1;
                while i < trace.next_span_index
                    invariant
                        read(env@.tracing.traces, root@) == Some(trace@),
                        all == seq![read(env@.tracing.spans, root@)] + env@.child_spans(root@),
                        1 <= i,
                        i <= trace.next_span_index || (i == 1 && trace.next_span_index == 0),
                        contents(spans@) == present(all.take(i as int)),
                    decreases trace.next_span_index - i,
                {
                    let ghost before = spans@;
                    assert(all[i as int] == env@.child_span(root@, i));
                    assert(all.take(i + 1).drop_last() =~= all.take(i as int));
                    match env.tracing.children.get(&(root.dup(), i)) {
                        Some(id) => {
                            match env.tracing.spans.get(&id) {
                                Some(span) => {
                                    spans.push(span);
                                    assert(contents(spans@) =~= contents(before).push(span@));
                                },
                                None => {},
                            }
                        },
                        None => {},
                    }
                    i = i + 1;
                }
                assert(all.take(i as int) =~= all);
            },
            None => {
                assert(all.take(1) =~= all);
            },
        }
        spans
    }

    /// Stores an empty context for a root request, and returns it.
    pub fn create_request_context(env: &mut Env, root_request_id: RequestId) -> (r: RequestContext)
        ensures
            r@ == old(env)@.new_context(root_request_id@),
            final(env)@ == old(env)@.store_context(
                root_request_id@.id,
                old(env)@.new_context(root_request_id@),
            ),
    {
        let id: Bytes = root_request_id.id.dup();
        let context = RequestContext {
            root_request_id,
            operation_chain: Vec::new(),
            created_at: env.ledger.timestamp,
        };
        assert(contents(context.operation_chain@) =~= Seq::empty());
        env.tracing.requests.set(id, context.dup(), SPAN_TTL);
        context
    }

    /// Adds an operation to the context of a root request, which is created if
    /// there is none.
    pub fn append_operation(env: &mut Env, root_request_id_bytes: Bytes, operation_name: Text)
        ensures
            final(env)@ == old(env)@.append_operation(root_request_id_bytes@, operation_name@),
    {
        let now: u64 = env.ledger.timestamp;
        let mut context: RequestContext = match env.tracing.requests.get(&root_request_id_bytes) {
            Some(context) => context,
            None => {
                let chain: Vec<Text> = Vec::new();
                assert(contents(chain@) =~= Seq::empty());
                RequestContext {
                    root_request_id: RequestId { id: root_request_id_bytes.dup(), created_at: now },
                    operation_chain: chain,
                    created_at: now,
                }
            },
        };
        assert(context@ == env@.context_of(root_request_id_bytes@));
        let ghost before = context.operation_chain@;
        context.operation_chain.push(operation_name);
        assert(contents(context.operation_chain@) =~= contents(before).push(operation_name@));
        env.tracing.requests.set(root_request_id_bytes, context, SPAN_TTL);
    }

    /// The context of a root request, if there is one.
    pub fn get_request_context(env: &Env, root_request_id_bytes: Bytes) -> (r: Option<
        RequestContext,
    >)
        ensures
            lifted(r) == read(env@.tracing.requests, root_request_id_bytes@),
    {
        env.tracing.requests.get(&root_request_id_bytes)
    }
}

/// The trace of a request that the host keeps whole starts with its root span, and
/// holds one span for each child that was made, in order.
pub proof fn trace_is_complete(s: State, root: Seq<u8>)
    requires
        s.trace_whole(root),
        read(s.tracing.spans, root) is Some,
    ensures
        s.trace(root).len() == 1 + s.child_count(root),
        s.trace(root)[0] == read(s.tracing.spans, root)->0,
        forall|i: int|
            1 <= i <= s.child_count(root) ==> Some(#[trigger] s.trace(root)[i]) == s.child_span(
                root,
                i as u32,
            ),
{
    let items = seq![read(s.tracing.spans, root)] + s.child_spans(root);
    assert forall|i: int| 0 <= i < items.len() implies (#[trigger] items[i]) is Some by {
        if i > 0 {
            assert(items[i] == s.child_span(root, i as u32));
        }
    }
    present_of_all(items);
    assert forall|i: int| 1 <= i <= s.child_count(root) implies Some(#[trigger] s.trace(root)[i])
        == s.child_span(root, i as u32) by {
        assert(s.trace(root)[i] == items[i]->0);
        assert(items[i] == s.child_span(root, i as u32));
    }
}

/// A new child span is the last of its parent's trace, and the trace is
/// otherwise unchanged, if the child's request has no span there yet.
pub proof fn child_span_is_appended(
    s: State,
    parent: RequestIdView,
    child: RequestIdView,
    operation: Seq<u8>,
    actor: Seq<u8>,
)
    requires
        s.consistent(),
        s.propagate_span_refusal(parent, actor) is None,
        child.id != parent.id,
        forall|i: u32| #[trigger]
            s.tracing.children.dom().contains((parent.id, i)) ==> s.tracing.children[(
                parent.id,
                i,
            )].value != child.id,
    ensures
        s.propagate_span_effect(parent, child, operation, actor).trace(parent.id) == s.trace(
            parent.id,
        ).push(
            TracingSpanView {
                request_id: child,
                operation,
                actor,
                started_at: s.now(),
                completed_at: s.now(),
                status: bytes_of("success"),
                parent_request_id_bytes: parent.id,
                span_index: s.trace_of(parent.id).next_span_index,
            },
        ),
{
    let t = s.propagate_span_effect(parent, child, operation, actor);
    let root = parent.id;
    let index = s.trace_of(root).next_span_index;
    assert(index >= 1) by {
        if s.tracing.traces.dom().contains(root) {
        }
    }
    let before = seq![read(s.tracing.spans, root)] + s.child_spans(root);
    let after = seq![read(t.tracing.spans, root)] + t.child_spans(root);
    assert(s.child_count(root) == index - 1);
    assert(t.child_count(root) == index);
    assert(after.len() == before.len() + 1);
    assert forall|i: int| 0 <= i < before.len() implies #[trigger] after[i] == before[i] by {
        if i > 0 {
            assert(after[i] == t.child_span(root, i as u32));
            assert(before[i] == s.child_span(root, i as u32));
        }
    }
    assert(after.drop_last() =~= before);
    assert(after.last() == t.child_span(root, index));
}

/// Adding an operation to a request adds its name at the end of the request's
/// chain, and leaves other requests alone.
pub proof fn operation_is_appended(s: State, root: Seq<u8>, name: Seq<u8>, other: Seq<u8>)
    ensures
        ({
            let t = s.append_operation(root, name);
            &&& read(t.tracing.requests, root) is Some
            &&& t.context_of(root).operation_chain == s.context_of(root).operation_chain.push(name)
            &&& t.context_of(root).root_request_id == s.context_of(root).root_request_id
            &&& t.context_of(root).created_at == s.context_of(root).created_at
            &&& other != root ==> read(t.tracing.requests, other) == read(
                s.tracing.requests,
                other,
            )
        }),
{
}

/// A new context is empty, and replaces the one before.
pub proof fn new_context_is_empty(s: State, root: RequestIdView)
    ensures
        read(
            s.store_context(root.id, s.new_context(root)).tracing.requests,
            root.id,
        ) == Some(
            RequestContextView {
                root_request_id: root,
                operation_chain: Seq::empty(),
                created_at: s.now(),
            },
        ),
{
}

/// A submission under a request number leaves a root span of the request, and
/// adds one operation to its context.
pub proof fn submission_is_traced(
    s: State,
    request_id: RequestIdView,
    issuer: Seq<u8>,
    subject: Seq<u8>,
    timestamp: u64,
    payload_hash: Seq<u8>,
    signature: Seq<u8>,
)
    ensures
        ({
            let t = s.submit_traced_effect(
                request_id,
                issuer,
                subject,
                timestamp,
                payload_hash,
                signature,
            );
            &&& read(t.tracing.spans, request_id.id) matches Some(span) && span.request_id
                == request_id && span.actor == issuer && span.span_index == 0
                && span.parent_request_id_bytes.len() == 0 && span.operation == bytes_of(
                "submit_attestation",
            )
            &&& t.context_of(request_id.id).operation_chain == s.context_of(
                request_id.id,
            ).operation_chain.push(bytes_of("submit_attestation"))
        }),
{
}

/// A trace stays whole if it gets its next child, and if nothing of it is dropped.
proof fn trace_stays_whole(s: State, t: State, root: Seq<u8>)
    requires
        s.trace_whole(root),
        t.child_count(root) <= s.child_count(root) || t.child_count(root) == s.child_count(root)
            + 1 && t.child_span(root, t.child_count(root) as u32) is Some,
        forall|i: u32|
            1 <= i <= s.child_count(root) && (#[trigger] s.child_span(root, i)) is Some
                ==> t.child_span(root, i) is Some,
    ensures
        t.trace_whole(root),
{
    assert forall|i: u32| 1 <= i <= t.child_count(root) implies (#[trigger] t.child_span(
        root,
        i,
    )) is Some by {
        if i <= s.child_count(root) {
            assert(s.child_span(root, i) is Some);
        }
    }
}

/// A request whose trace has not been started has a whole trace, and calls keep a
/// trace whole.
#[verifier::rlimit(40)]
pub proof fn calls_keep_traces_whole(s: State, call: Call, root: Seq<u8>)
    requires
        s.consistent(),
    ensures
        read(s.tracing.traces, root) is None ==> s.trace_whole(root),
        s.trace_whole(root) ==> s.after(call).trace_whole(root),
{
    let t = s.after(call);
    if s.trace_whole(root) && s.refusal(call) is None {
        match call {
            Call::SubmitTraced { .. } | Call::TraceQuote { .. } => {
                trace_stays_whole(s, t, root);
            },
            Call::PropagateSpan { parent, child, .. } => {
                let index = s.trace_of(parent.id).next_span_index;
                assert(index >= 1) by {
                    if s.tracing.traces.dom().contains(parent.id) {
                    }
                }
                assert(t.child_span(parent.id, index) is Some);
                assert forall|i: u32|
                    1 <= i <= s.child_count(root) && (#[trigger] s.child_span(
                        root,
                        i,
                    )) is Some implies t.child_span(root, i) is Some by {}
                trace_stays_whole(s, t, root);
            },
            Call::CreateContext { .. } | Call::AppendOperation { .. } => {
                trace_stays_whole(s, t, root);
            },
            _ => {
                assert(t.tracing == s.tracing);
                trace_stays_whole(s, t, root);
            },
        }
    }
}

/// The passage of time keeps a trace whole if no child of it lapses, or if the
/// whole trace does.
pub proof fn time_keeps_traces_whole(s: State, moment: Moment, root: Seq<u8>)
    requires
        s.trace_whole(root),
        moment.lapsed.traces.contains(root) || forall|i: u32|
            1 <= i <= s.child_count(root) ==> !moment.lapsed.children.contains((root, i))
                && !moment.lapsed.spans.contains(
                (#[trigger] s.child_span(root, i)->0).request_id.id,
            ),
        s.consistent(),
    ensures
        s.at(moment).trace_whole(root),
{
    let t = s.at(moment);
    if !moment.lapsed.traces.contains(root) {
        assert forall|i: u32|
            1 <= i <= s.child_count(root) && (#[trigger] s.child_span(
                root,
                i,
            )) is Some implies t.child_span(root, i) is Some by {
            let id = s.tracing.children[(root, i)].value;
            assert(s.tracing.spans.dom().contains(id));
            let span = s.child_span(root, i)->0;
            assert(span.request_id.id == id);
        }
        trace_stays_whole(s, t, root);
    }
}

/// A span that is stored says what it is given, and that it started and ended now with
/// success. Nothing else changes.
pub proof fn span_is_written(
    s: State,
    request_id: RequestIdView,
    operation: Seq<u8>,
    actor: Seq<u8>,
    parent: Seq<u8>,
    span_index: u32,
)
    ensures
        ({
            let t = s.store_span(request_id, operation, actor, parent, span_index);
            &&& written(
                s.tracing.spans,
                t.tracing.spans,
                request_id.id,
                TracingSpanView {
                    request_id,
                    operation,
                    actor,
                    started_at: s.ledger.timestamp,
                    completed_at: s.ledger.timestamp,
                    status: bytes_of("success"),
                    parent_request_id_bytes: parent,
                    span_index,
                },
                SPAN_TTL,
            )
            &&& t == State { tracing: TracingState { spans: t.tracing.spans, ..s.tracing }, ..s }
        }),
{
}

/// A child span is made for an actor that authorizes it, while there is an index left.
/// It gets the next index of its parent's trace, which starts with one, and the index
/// after it is next. Nothing else changes.
pub proof fn child_span_is_written(
    s: State,
    parent: RequestIdView,
    child: RequestIdView,
    operation: Seq<u8>,
    actor: Seq<u8>,
)
    ensures
        ({
            let refusal = s.propagate_span_refusal(parent, actor);
            let authorized = s.host.authorized.contains(actor);
            let index = if s.tracing.traces.dom().contains(parent.id) {
                s.tracing.traces[parent.id].value.next_span_index
            } else {
                1
            };
            let root = if s.tracing.traces.dom().contains(parent.id) {
                s.tracing.traces[parent.id].value.root_request_id_bytes
            } else {
                parent.id
            };
            let t = s.propagate_span_effect(parent, child, operation, actor);
            &&& refusal == Some(ErrorCode::Unauthorized) <==> !authorized
            &&& refusal == Some(ErrorCode::ArithmeticOverflow) <==> authorized && index == u32::MAX
            &&& refusal is None <==> authorized && index < u32::MAX
            &&& written(
                s.tracing.children,
                t.tracing.children,
                (parent.id, index),
                child.id,
                SPAN_TTL,
            )
            &&& written(
                s.tracing.traces,
                t.tracing.traces,
                parent.id,
                TracingContextView {
                    root_request_id_bytes: root,
                    next_span_index: (index + 1) as u32,
                },
                SPAN_TTL,
            )
            &&& written(
                s.tracing.spans,
                t.tracing.spans,
                child.id,
                TracingSpanView {
                    request_id: child,
                    operation,
                    actor,
                    started_at: s.ledger.timestamp,
                    completed_at: s.ledger.timestamp,
                    status: bytes_of("success"),
                    parent_request_id_bytes: parent.id,
                    span_index: index,
                },
                SPAN_TTL,
            )
            &&& t == State {
                tracing: TracingState { requests: s.tracing.requests, ..t.tracing },
                ..s
            }
        }),
{
}

/// A context is written as given. A new one is empty and made now, and adding an
/// operation writes the context there is, or a new one, with the name at the end of its
/// chain. Nothing else changes.
pub proof fn context_is_written(s: State, root: RequestIdView, id: Seq<u8>, name: Seq<u8>)
    ensures
        ({
            let known = s.tracing.requests.dom().contains(id);
            let before = s.tracing.requests[id].value;
            let now = s.ledger.timestamp;
            let made = s.new_context(root);
            let t = s.store_context(root.id, made);
            let u = s.append_operation(id, name);
            &&& made.root_request_id == root
            &&& made.operation_chain.len() == 0
            &&& made.created_at == now
            &&& written(s.tracing.requests, t.tracing.requests, root.id, made, SPAN_TTL)
            &&& t == State {
                tracing: TracingState { requests: t.tracing.requests, ..s.tracing },
                ..s
            }
            &&& known ==> s.context_of(id) == before && written(
                s.tracing.requests,
                u.tracing.requests,
                id,
                RequestContextView {
                    operation_chain: before.operation_chain.push(name),
                    ..before
                },
                SPAN_TTL,
            )
            &&& !known ==> written(
                s.tracing.requests,
                u.tracing.requests,
                id,
                RequestContextView {
                    root_request_id: RequestIdView { id, created_at: now },
                    operation_chain: seq![name],
                    created_at: now,
                },
                SPAN_TTL,
            )
            &&& u == State {
                tracing: TracingState { requests: u.tracing.requests, ..s.tracing },
                ..s
            }
        }),
{
    assert(Seq::<Seq<u8>>::empty().push(name) =~= seq![name]);
}

/// The trace of a request holds what is known of it and nothing else: the root span, if
/// it is stored, and then for each index below the next one the span of the child that
/// was made under it, if that is stored. Where they come from is returned: index zero
/// for the root span.
pub proof fn trace_is_exact(s: State, root: Seq<u8>) -> (indices: Seq<int>)
    ensures
        indices.len() == s.trace(root).len(),
        forall|k: int|
            0 <= k < indices.len() ==> {
                &&& 0 <= #[trigger] indices[k] <= s.child_count(root)
                &&& indices[k] == 0 ==> read(s.tracing.spans, root) == Some(s.trace(root)[k])
                &&& indices[k] > 0 ==> s.child_span(root, indices[k] as u32) == Some(
                    s.trace(root)[k],
                )
            },
        forall|k: int, l: int|
            0 <= k < l < indices.len() ==> #[trigger] indices[k] < #[trigger] indices[l],
        s.tracing.spans.dom().contains(root) ==> indices.contains(0),
        forall|i: u32|
            1 <= i <= s.child_count(root) && (#[trigger] s.child_span(root, i)) is Some
                ==> indices.contains(i as int),
{
    let items = seq![read(s.tracing.spans, root)] + s.child_spans(root);
    let indices = present_positions(items);
    assert forall|k: int| 0 <= k < indices.len() implies {
        &&& 0 <= #[trigger] indices[k] <= s.child_count(root)
        &&& indices[k] == 0 ==> read(s.tracing.spans, root) == Some(s.trace(root)[k])
        &&& indices[k] > 0 ==> s.child_span(root, indices[k] as u32) == Some(s.trace(root)[k])
    } by {
        if indices[k] > 0 {
            assert(items[indices[k]] == s.child_span(root, indices[k] as u32));
        }
    }
    if s.tracing.spans.dom().contains(root) {
        assert(items[0] is Some);
    }
    assert forall|i: u32|
        1 <= i <= s.child_count(root) && (#[trigger] s.child_span(
            root,
            i,
        )) is Some implies indices.contains(i as int) by {
        assert(items[i as int] == s.child_span(root, i));
    }
    indices
}

/// A child span is the span stored for the request that was made the child under its
/// index, and there are as many children as indices were given.
pub proof fn children_are_looked_up(s: State, root: Seq<u8>, index: u32)
    ensures
        ({
            let key = (root, index);
            let known = s.tracing.children.dom().contains(key);
            let id = s.tracing.children[key].value;
            &&& s.child_span(root, index) is Some <==> known && s.tracing.spans.dom().contains(id)
            &&& s.child_span(root, index) is Some ==> s.child_span(root, index) == Some(
                s.tracing.spans[id].value,
            )
            &&& !s.tracing.traces.dom().contains(root) ==> s.child_count(root) == 0
            &&& s.tracing.traces.dom().contains(root)
                && s.tracing.traces[root].value.next_span_index > 0 ==> s.child_count(root)
                == s.tracing.traces[root].value.next_span_index - 1
        }),
{
}

} // verus!
