//! Sessions and their audit trail.

use crate::calls::Moment;
use crate::contract::{carried_out, first_of, unless, AnchorKitContract};
use crate::data::{bytes_of, contents, present, present_of_all, text, Address, Duplicate, Text};
use crate::env::{kept_alive, Env, State};
use crate::events::{Event, EventView};
use crate::stores::{InstanceState, RegistryState, SessionsState};
use crate::table::{erased, put, read, written};
use crate::types::{
    AuditLog, AuditLogView, ErrorCode, OperationContext, OperationContextView, Session, SessionView,
    SignatureCheckView, DEFAULT_SESSION_TTL, PERSISTENT_TTL,
};
use vstd::prelude::*;

verus! {

impl SessionView {
    /// For how many seconds the session stays open.
    pub open spec fn lifetime(self) -> u64 {
        if self.session_ttl_seconds == 0 {
            DEFAULT_SESSION_TTL
        } else {
            self.session_ttl_seconds
        }
    }

    /// Why an operation in the session is refused at time `now`.
    pub open spec fn refusal_at(self, now: u64) -> Option<ErrorCode> {
        first_of(
            unless(self.created_at + self.lifetime() <= u64::MAX, ErrorCode::ArithmeticOverflow),
            first_of(
                unless(now <= self.created_at + self.lifetime(), ErrorCode::SessionExpired),
                unless(!self.closed, ErrorCode::SessionClosed),
            ),
        )
    }
}

impl State {
    /// The state with a session stored.
    pub open spec fn store_session(self, session_id: u64, session: SessionView, ttl: u32) -> State {
        State {
            sessions: SessionsState {
                sessions: put(self.sessions.sessions, session_id, session, ttl),
                ..self.sessions
            },
            ..self
        }
    }

    /// Why `create_session` is refused.
    pub open spec fn create_session_refusal(self, initiator: Seq<u8>) -> Option<ErrorCode> {
        first_of(
            unless(self.authorized(initiator), ErrorCode::Unauthorized),
            unless(self.instance.next_session < u64::MAX, ErrorCode::ArithmeticOverflow),
        )
    }

    /// The state after `create_session`.
    pub open spec fn create_session_effect(self, initiator: Seq<u8>) -> State {
        let id = self.instance.next_session;
        let opened = self.store_session(
            id,
            SessionView {
                session_id: id,
                initiator,
                created_at: self.now(),
                nonce: 0,
                operation_count: 0,
                session_ttl_seconds: DEFAULT_SESSION_TTL,
                closed: false,
            },
            PERSISTENT_TTL,
        );
        State {
            instance: InstanceState { next_session: (id + 1) as u64, ..self.instance }.extended(),
            sessions: SessionsState {
                nonces: put(self.sessions.nonces, id, 0, PERSISTENT_TTL),
                ..opened.sessions
            },
            ..opened
        }.announce(
            EventView::SessionCreated { session_id: id, initiator, timestamp: self.now() },
        )
    }

    /// Why an operation in a session is refused on account of the session.
    pub open spec fn session_refusal(self, session_id: u64) -> Option<ErrorCode> {
        match read(self.sessions.sessions, session_id) {
            None => Some(ErrorCode::AttestationNotFound),
            Some(session) => session.refusal_at(self.now()),
        }
    }

    /// Why `close_session` is refused.
    pub open spec fn close_session_refusal(
        self,
        session_id: u64,
        initiator: Seq<u8>,
    ) -> Option<ErrorCode> {
        first_of(
            unless(self.authorized(initiator), ErrorCode::Unauthorized),
            self.session_refusal(session_id),
        )
    }

    /// The state after `close_session`.
    pub open spec fn close_session_effect(self, session_id: u64, initiator: Seq<u8>) -> State {
        let session = read(self.sessions.sessions, session_id)->0;
        self.store_session(session_id, SessionView { closed: true, ..session }, 0).announce(
            EventView::SessionClosed { session_id, initiator, timestamp: self.now() },
        )
    }

    /// How many operations a session has performed.
    pub open spec fn operation_count(self, session_id: u64) -> u64 {
        match read(self.sessions.operation_counts, session_id) {
            Some(n) => n,
            None => 0,
        }
    }

    /// Why no further operation of a session can be logged.
    pub open spec fn log_refusal(self, session_id: u64) -> Option<ErrorCode> {
        unless(
            self.operation_count(session_id) < u64::MAX && self.instance.next_audit < u64::MAX,
            ErrorCode::ArithmeticOverflow,
        )
    }

    /// The state in which an operation of a session has been logged.
    pub open spec fn log_operation(
        self,
        session_id: u64,
        actor: Seq<u8>,
        operation_type: Seq<u8>,
        result_data: u64,
    ) -> State {
        let index = self.operation_count(session_id);
        let log_id = self.instance.next_audit;
        let entry = AuditLogView {
            log_id,
            session_id,
            actor,
            operation: OperationContextView {
                session_id,
                operation_index: index,
                operation_type,
                timestamp: self.now(),
                status: bytes_of("success"),
                result_data,
            },
        };
        State {
            instance: InstanceState { next_audit: (log_id + 1) as u64, ..self.instance }.extended(),
            sessions: SessionsState {
                operation_counts: put(
                    self.sessions.operation_counts,
                    session_id,
                    (index + 1) as u64,
                    PERSISTENT_TTL,
                ),
                audits: put(self.sessions.audits, log_id, entry, PERSISTENT_TTL),
                logs: put(self.sessions.logs, (session_id, index), log_id, PERSISTENT_TTL),
                ..self.sessions
            },
            ..self
        }
    }

    /// What is announced about the next operation that a session logs.
    pub open spec fn log_notice(self, session_id: u64, operation_type: Seq<u8>) -> EventView {
        EventView::AuditLogged {
            log_id: self.instance.next_audit,
            session_id,
            operation_index: self.operation_count(session_id),
            operation_type,
            status: bytes_of("success"),
        }
    }

    /// Why `register_attestor_with_session` is refused.
    pub open spec fn register_in_session_refusal(
        self,
        session_id: u64,
        attestor: Seq<u8>,
    ) -> Option<ErrorCode> {
        first_of(
            self.admin_refusal(),
            first_of(
                self.session_refusal(session_id),
                first_of(self.add_attestor_refusal(attestor), self.log_refusal(session_id)),
            ),
        )
    }

    /// The state after `register_attestor_with_session`.
    pub open spec fn register_in_session_effect(
        self,
        session_id: u64,
        attestor: Seq<u8>,
        public_key: Seq<u8>,
    ) -> State {
        let admin = self.instance.admin->0;
        self.add_attestor(attestor, public_key).log_operation(
            session_id,
            admin,
            bytes_of("register"),
            0,
        ).announce(EventView::AttestorAdded { attestor }).announce(
            self.log_notice(session_id, bytes_of("register")),
        )
    }

    /// Why `revoke_attestor_with_session` is refused.
    pub open spec fn revoke_in_session_refusal(
        self,
        session_id: u64,
        attestor: Seq<u8>,
    ) -> Option<ErrorCode> {
        first_of(
            self.admin_refusal(),
            first_of(
                self.session_refusal(session_id),
                first_of(
                    unless(self.registered(attestor), ErrorCode::AttestorNotRegistered),
                    self.log_refusal(session_id),
                ),
            ),
        )
    }

    /// The state after `revoke_attestor_with_session`.
    pub open spec fn revoke_in_session_effect(self, session_id: u64, attestor: Seq<u8>) -> State {
        let admin = self.instance.admin->0;
        self.drop_attestor(attestor).log_operation(
            session_id,
            admin,
            bytes_of("revoke"),
            0,
        ).announce(EventView::AttestorRemoved { attestor }).announce(
            self.log_notice(session_id, bytes_of("revoke")),
        )
    }

    /// The audit entry of an operation of a session, if it is known.
    pub open spec fn logged(self, session_id: u64, index: u64) -> Option<AuditLogView> {
        match read(self.sessions.logs, (session_id, index)) {
            Some(log_id) => read(self.sessions.audits, log_id),
            None => None,
        }
    }

    /// The audit entries of the last `limit` operations of a session, each if
    /// it is known, the oldest first.
    pub open spec fn recent_logs(self, session_id: u64, limit: u64) -> Seq<Option<AuditLogView>> {
        let total = self.operation_count(session_id);
        let shown = if total > limit {
            limit
        } else {
            total
        };
        Seq::new(shown as nat, |i: int| self.logged(session_id, (total - shown + i) as u64))
    }
}

impl AnchorKitContract {
    /// Opens a session and returns its number. `initiator` must authorize it.
    pub fn create_session(env: &mut Env, initiator: Address) -> (r: Result<u64, ErrorCode>)
        ensures
            carried_out(
                r,
                old(env)@,
                final(env)@,
                old(env)@.create_session_refusal(initiator@),
                old(env)@.create_session_effect(initiator@),
            ),
            r matches Ok(id) ==> id == old(env)@.instance.next_session,
    {
        if !env.authorized(&initiator) {
            return Err(ErrorCode::Unauthorized);
        }
        let session_id: u64 = env.instance.next_session;
        if session_id == u64::MAX {
            return Err(ErrorCode::ArithmeticOverflow);
        }
        env.instance.next_session = session_id + 1;
        env.instance.extend();
        let now: u64 = env.ledger.timestamp;
        let session = Session {
            session_id,
            initiator: initiator.dup(),
            created_at: now,
            nonce: 0,
            operation_count: 0,
            session_ttl_seconds: DEFAULT_SESSION_TTL,
            closed: false,
        };
        env.sessions.sessions.set(session_id, session, PERSISTENT_TTL);
        env.sessions.nonces.set(session_id, 0, PERSISTENT_TTL);
        env.announce(Event::SessionCreated { session_id, initiator, timestamp: now });
        Ok(session_id)
    }

    /// Closes an open session. `initiator` must authorize it.
    pub fn close_session(env: &mut Env, session_id: u64, initiator: Address) -> (r: Result<
        (),
        ErrorCode,
    >)
        ensures
            carried_out(
                r,
                old(env)@,
                final(env)@,
                old(env)@.close_session_refusal(session_id, initiator@),
                old(env)@.close_session_effect(session_id, initiator@),
            ),
    {
        if !env.authorized(&initiator) {
            return Err(ErrorCode::Unauthorized);
        }
        let mut session: Session = match Self::require_session_open(env, session_id) {
            Ok(session) => session,
            Err(e) => return Err(e),
        };
        session.closed = true;
        env.sessions.sessions.set(session_id, session, 0);
        env.announce(
            Event::SessionClosed { session_id, initiator, timestamp: env.ledger.timestamp },
        );
        Ok(())
    }

    /// Refuses an operation in a session that has expired or is closed.
    pub(crate) fn validate_session(env: &Env, session: &Session) -> (r: Result<(), ErrorCode>)
        ensures
            match r {
                Ok(_) => session@.refusal_at(env@.now()) is None,
                Err(e) => session@.refusal_at(env@.now()) == Some(e),
            },
    {
        let ttl: u64 = if session.session_ttl_seconds == 0 {
            DEFAULT_SESSION_TTL
        } else {
            session.session_ttl_seconds
        };
        if session.created_at > u64::MAX - ttl {
            return Err(ErrorCode::ArithmeticOverflow);
        }
        if env.ledger.timestamp > session.created_at + ttl {
            return Err(ErrorCode::SessionExpired);
        }
        if session.closed {
            return Err(ErrorCode::SessionClosed);
        }
        Ok(())
    }

    /// The session of an operation, which must be open.
    pub fn require_session_open(env: &Env, session_id: u64) -> (r: Result<
        Session,
        ErrorCode,
    >)
        ensures
            match r {
                Ok(session) => env@.session_refusal(session_id) is None && read(
                    env@.sessions.sessions,
                    session_id,
                ) == Some(session@),
                Err(e) => env@.session_refusal(session_id) == Some(e),
            },
    {
        match env.sessions.sessions.get(&session_id) {
            None => Err(ErrorCode::AttestationNotFound),
            Some(session) => match Self::validate_session(env, &session) {
                Ok(_) => Ok(session),
                Err(e) => Err(e),
            },
        }
    }

    /// Refuses an operation that could not be logged.
    pub(crate) fn check_log(env: &Env, session_id: u64) -> (r: Result<(), ErrorCode>)
        ensures
            match r {
                Ok(_) => env@.log_refusal(session_id) is None,
                Err(e) => env@.log_refusal(session_id) == Some(e),
            },
    {
        if Self::get_session_operation_count(env, session_id) == u64::MAX
            || env.instance.next_audit == u64::MAX {
            Err(ErrorCode::ArithmeticOverflow)
        } else {
            Ok(())
        }
    }

    /// Logs an operation of a session, and returns what is to be announced.
    pub(crate) fn log_operation(
        env: &mut Env,
        session_id: u64,
        actor: Address,
        operation_type: Text,
        result_data: u64,
    ) -> (r: Event)
        requires
            old(env)@.log_refusal(session_id) is None,
        ensures
            final(env)@ == old(env)@.log_operation(session_id, actor@, operation_type@, result_data),
            r@ == old(env)@.log_notice(session_id, operation_type@),
    {
        let index: u64 = Self::get_session_operation_count(env, session_id);
        let log_id: u64 = env.instance.next_audit;
        env.sessions.operation_counts.set(session_id, index + 1, PERSISTENT_TTL);
        env.instance.next_audit = log_id + 1;
        env.instance.extend();
        let entry = AuditLog {
            log_id,
            session_id,
            actor,
            operation: OperationContext {
                session_id,
                operation_index: index,
                operation_type: operation_type.dup(),
                timestamp: env.ledger.timestamp,
                status: text("success"),
                result_data,
            },
        };
        env.sessions.audits.set(log_id, entry, PERSISTENT_TTL);
        env.sessions.logs.set((session_id, index), log_id, PERSISTENT_TTL);
        Event::AuditLogged {
            log_id,
            session_id,
            operation_index: index,
            operation_type,
            status: text("success"),
        }
    }

    /// Registers an attestor as an operation of an open session. Only the
    /// administrator may.
    pub fn register_attestor_with_session(
        env: &mut Env,
        session_id: u64,
        attestor: Address,
        public_key: [u8; 32],
    ) -> (r: Result<(), ErrorCode>)
        ensures
            carried_out(
                r,
                old(env)@,
                final(env)@,
                old(env)@.register_in_session_refusal(session_id, attestor@),
                old(env)@.register_in_session_effect(session_id, attestor@, public_key@),
            ),
            r is Ok ==> read(final(env)@.registry.attestors, attestor@) == Some(true) && read(
                final(env)@.registry.public_keys,
                attestor@,
            ) == Some(public_key@),
    {
        match env.require_admin() {
            Ok(_) => {},
            Err(e) => return Err(e),
        }
        match Self::require_session_open(env, session_id) {
            Ok(_) => {},
            Err(e) => return Err(e),
        }
        match Self::check_new_attestor(env, &attestor) {
            Ok(_) => {},
            Err(e) => return Err(e),
        }
        match Self::check_log(env, session_id) {
            Ok(_) => {},
            Err(e) => return Err(e),
        }
        let admin: Address = match Self::get_admin(env) {
            Ok(admin) => admin,
            Err(e) => return Err(e),
        };
        Self::add_attestor(env, &attestor, public_key);
        let notice = Self::log_operation(env, session_id, admin, text("register"), 0);
        env.announce(Event::AttestorAdded { attestor });
        env.announce(notice);
        Ok(())
    }

    /// Revokes an attestor as an operation of an open session. Only the
    /// administrator may.
    pub fn revoke_attestor_with_session(env: &mut Env, session_id: u64, attestor: Address) -> (r:
        Result<(), ErrorCode>)
        ensures
            carried_out(
                r,
                old(env)@,
                final(env)@,
                old(env)@.revoke_in_session_refusal(session_id, attestor@),
                old(env)@.revoke_in_session_effect(session_id, attestor@),
            ),
    {
        match env.require_admin() {
            Ok(_) => {},
            Err(e) => return Err(e),
        }
        match Self::require_session_open(env, session_id) {
            Ok(_) => {},
            Err(e) => return Err(e),
        }
        match Self::check_attestor(env, &attestor) {
            Ok(_) => {},
            Err(e) => return Err(e),
        }
        match Self::check_log(env, session_id) {
            Ok(_) => {},
            Err(e) => return Err(e),
        }
        let admin: Address = match Self::get_admin(env) {
            Ok(admin) => admin,
            Err(e) => return Err(e),
        };
        Self::drop_attestor(env, &attestor);
        let notice = Self::log_operation(env, session_id, admin, text("revoke"), 0);
        env.announce(Event::AttestorRemoved { attestor });
        env.announce(notice);
        Ok(())
    }

    /// A session.
    pub fn get_session(env: &Env, session_id: u64) -> (r: Result<Session, ErrorCode>)
        ensures
            match r {
                Ok(session) => read(env@.sessions.sessions, session_id) == Some(session@),
                Err(e) => read(env@.sessions.sessions, session_id) is None && e
                    == ErrorCode::AttestationNotFound,
            },
    {
        match env.sessions.sessions.get(&session_id) {
            Some(session) => Ok(session),
            None => Err(ErrorCode::AttestationNotFound),
        }
    }

    /// An audit entry.
    pub fn get_audit_log(env: &Env, log_id: u64) -> (r: Result<AuditLog, ErrorCode>)
        ensures
            match r {
                Ok(entry) => read(env@.sessions.audits, log_id) == Some(entry@),
                Err(e) => read(env@.sessions.audits, log_id) is None && e
                    == ErrorCode::AttestationNotFound,
            },
    {
        match env.sessions.audits.get(&log_id) {
            Some(entry) => Ok(entry),
            None => Err(ErrorCode::AttestationNotFound),
        }
    }

    /// The audit entries of the last `limit` operations of a session, the
    /// oldest first.
    pub fn get_session_audit_logs(env: &Env, session_id: u64, limit: u64) -> (r: Vec<AuditLog>)
        ensures
            contents(r@) == present(env@.recent_logs(session_id, limit)),
    {
        let total: u64 = Self::get_session_operation_count(env, session_id);
        let start: u64 = if total > limit {
            total - limit
        } else {
            0
        };
        let ghost all = env@.recent_logs(session_id, limit);
        let mut entries: Vec<AuditLog> = Vec::new();
        let mut i: u64 = start;
        assert(contents(entries@) =~= present(all.take(0)));
        while i < total
            invariant
                start <= i <= total,
                total == env@.operation_count(session_id),
                all == env@.recent_logs(session_id, limit),
                all.len() == total - start,
                contents(entries@) == present(all.take(i - start)),
            decreases total - i,
        {
            let ghost before = entries@;
            assert(all[i - start] == env@.logged(session_id, i));
            assert(all.take(i + 1 - start).drop_last() =~= all.take(i - start));
            match env.sessions.logs.get(&(session_id, i)) {
                Some(log_id) => {
                    match env.sessions.audits.get(&log_id) {
                        Some(entry) => {
                            entries.push(entry);
                            assert(contents(entries@) =~= contents(before).push(entry@));
                        },
                        None => {},
                    }
                },
                None => {},
            }
            i = i + 1;
        }
        assert(all.take(total - start) =~= all);
        entries
    }

    /// How many operations a session has performed.
    pub fn get_session_operation_count(env: &Env, session_id: u64) -> (r: u64)
        ensures
            r == env@.operation_count(session_id),
    {
        match env.sessions.operation_counts.get(&session_id) {
            Some(n) => n,
            None => 0,
        }
    }
}

/// A new session reads back under its number, is open, and stays open for the
/// default lifetime to the second.
pub proof fn new_session_is_open(s: State, initiator: Seq<u8>, moment: Moment)
    requires
        s.create_session_refusal(initiator) is None,
        s.now() + DEFAULT_SESSION_TTL <= u64::MAX,
    ensures
        ({
            let id = s.instance.next_session;
            let t = s.create_session_effect(initiator);
            let later = t.at(moment);
            &&& read(t.sessions.sessions, id) matches Some(session) && session.initiator
                == initiator && session.nonce == 0 && !session.closed
            &&& t.session_refusal(id) is None
            &&& later.now() <= s.now() + DEFAULT_SESSION_TTL ==> later.session_refusal(id) is None
            &&& later.now() > s.now() + DEFAULT_SESSION_TTL ==> later.session_refusal(id) == Some(
                ErrorCode::SessionExpired,
            )
        }),
{
}

/// A session that has been closed refuses further operations, for being closed
/// as long as it has not expired.
pub proof fn closing_closes(s: State, session_id: u64, initiator: Seq<u8>)
    requires
        s.close_session_refusal(session_id, initiator) is None,
    ensures
        s.close_session_effect(session_id, initiator).session_refusal(session_id) == Some(
            ErrorCode::SessionClosed,
        ),
{
}

/// Logging an operation adds one entry at the end of its session's log, and
/// nothing to the log of another session.
pub proof fn logging_appends(
    s: State,
    session_id: u64,
    actor: Seq<u8>,
    operation_type: Seq<u8>,
    result_data: u64,
)
    requires
        s.consistent(),
        s.log_refusal(session_id) is None,
    ensures
        ({
            let t = s.log_operation(session_id, actor, operation_type, result_data);
            let count = s.operation_count(session_id);
            &&& t.operation_count(session_id) == count + 1
            &&& t.logged(session_id, count) matches Some(entry) && entry.actor == actor
                && entry.session_id == session_id && entry.operation.operation_index == count
                && entry.operation.operation_type == operation_type && entry.operation.result_data
                == result_data
            &&& forall|id: u64, index: u64|
                (id, index) != (session_id, count) ==> #[trigger] t.logged(id, index) == s.logged(
                    id,
                    index,
                )
            &&& forall|id: u64|
                id != session_id ==> #[trigger] t.operation_count(id) == s.operation_count(id)
        }),
{
    let t = s.log_operation(session_id, actor, operation_type, result_data);
    let count = s.operation_count(session_id);
    assert forall|id: u64, index: u64|
        (id, index) != (session_id, count) implies #[trigger] t.logged(id, index) == s.logged(
        id,
        index,
    ) by {
        if s.sessions.logs.dom().contains((id, index)) {
            let l = s.sessions.logs[(id, index)].value;
            assert(s.sessions.audits.dom().contains(l));
            assert(l < s.instance.next_audit);
        }
    }
}

/// The audit trail of a session is complete: what is shown of it are the entries
/// of its last operations, as many as asked for or as there are, in order and
/// without gaps.
pub proof fn audit_trail_is_complete(s: State, session_id: u64, limit: u64)
    requires
        s.consistent(),
    ensures
        ({
            let shown = present(s.recent_logs(session_id, limit));
            let total = s.operation_count(session_id);
            let first = if total > limit {
                total - limit
            } else {
                0
            };
            &&& shown.len() == total - first
            &&& forall|i: int|
                0 <= i < shown.len() ==> (#[trigger] shown[i]).session_id == session_id
                    && shown[i].operation.operation_index == first + i
        }),
{
    let items = s.recent_logs(session_id, limit);
    let total = s.operation_count(session_id);
    let first: int = if total > limit {
        total - limit
    } else {
        0
    };
    assert forall|i: int| 0 <= i < items.len() implies (#[trigger] items[i]) is Some && (
    items[i]->0).session_id == session_id && (items[i]->0).operation.operation_index == first
        + i by {
        let index = (first + i) as u64;
        assert(s.sessions.logs.dom().contains((session_id, index)));
        let l = s.sessions.logs[(session_id, index)].value;
        assert(s.sessions.audits.dom().contains(l));
        assert(items[i] == s.logged(session_id, index));
    }
    present_of_all(items);
    let shown = present(items);
    assert forall|i: int| 0 <= i < shown.len() implies (#[trigger] shown[i]).session_id
        == session_id && shown[i].operation.operation_index == first + i by {
        assert(shown[i] == items[i]->0);
    }
}

/// Whether `t` is `s` with one more operation of a session logged: the audit entry is
/// written under the next number and found under the next index of the session, and
/// both move on by one.
pub open spec fn logged_anew(
    s: State,
    t: State,
    session_id: u64,
    actor: Seq<u8>,
    operation_type: Seq<u8>,
    result_data: u64,
) -> bool {
    let index = s.operation_count(session_id);
    let log_id = s.instance.next_audit;
    &&& written(
        s.sessions.audits,
        t.sessions.audits,
        log_id,
        AuditLogView {
            log_id,
            session_id,
            actor,
            operation: OperationContextView {
                session_id,
                operation_index: index,
                operation_type,
                timestamp: s.ledger.timestamp,
                status: bytes_of("success"),
                result_data,
            },
        },
        PERSISTENT_TTL,
    )
    &&& written(s.sessions.logs, t.sessions.logs, (session_id, index), log_id, PERSISTENT_TTL)
    &&& written(
        s.sessions.operation_counts,
        t.sessions.operation_counts,
        session_id,
        (index + 1) as u64,
        PERSISTENT_TTL,
    )
    &&& t.instance.next_audit == log_id + 1
    &&& kept_alive(s.instance, t.instance)
}

/// A session is open from its creation until its lifetime in seconds is over, that
/// second included, unless it is closed. Its lifetime is an hour if it states none.
pub proof fn session_is_open_for_its_lifetime(session: SessionView, now: u64)
    ensures
        ({
            let lifetime = if session.session_ttl_seconds == 0 {
                3600
            } else {
                session.session_ttl_seconds
            };
            let end = session.created_at + lifetime;
            let refusal = session.refusal_at(now);
            &&& refusal is None <==> end <= u64::MAX && now <= end && !session.closed
            &&& refusal == Some(ErrorCode::ArithmeticOverflow) <==> end > u64::MAX
            &&& refusal == Some(ErrorCode::SessionExpired) <==> end <= u64::MAX && now > end
            &&& refusal == Some(ErrorCode::SessionClosed) <==> end <= u64::MAX && now <= end
                && session.closed
        }),
{
}

/// An operation finds the session that is stored under the number it names, and is
/// refused if there is none. An operation is counted where a count is stored, from
/// zero on, and can be logged as long as the counters have room.
pub proof fn session_is_looked_up(s: State, session_id: u64)
    ensures
        !s.sessions.sessions.dom().contains(session_id) ==> s.session_refusal(session_id) == Some(
            ErrorCode::AttestationNotFound,
        ),
        s.sessions.sessions.dom().contains(session_id) ==> s.session_refusal(session_id)
            == s.sessions.sessions[session_id].value.refusal_at(s.ledger.timestamp),
        s.sessions.operation_counts.dom().contains(session_id) ==> s.operation_count(session_id)
            == s.sessions.operation_counts[session_id].value,
        !s.sessions.operation_counts.dom().contains(session_id) ==> s.operation_count(session_id)
            == 0,
        s.log_refusal(session_id) is None <==> s.operation_count(session_id) < u64::MAX
            && s.instance.next_audit < u64::MAX,
        s.log_refusal(session_id) is Some ==> s.log_refusal(session_id) == Some(
            ErrorCode::ArithmeticOverflow,
        ),
{
}

/// A session is opened under the next number for an initiator who authorizes it: open,
/// with nothing done in it, from now on and for the default lifetime. Nothing else
/// changes.
pub proof fn opening_a_session_is_exact(s: State, initiator: Seq<u8>)
    ensures
        ({
            let id = s.instance.next_session;
            let authorized = s.host.authorized.contains(initiator);
            let refusal = s.create_session_refusal(initiator);
            let t = s.create_session_effect(initiator);
            &&& refusal is None <==> authorized && id < u64::MAX
            &&& refusal == Some(ErrorCode::Unauthorized) <==> !authorized
            &&& refusal == Some(ErrorCode::ArithmeticOverflow) <==> authorized && id == u64::MAX
            &&& refusal is None ==> t.instance.next_session == id + 1
            &&& kept_alive(s.instance, t.instance)
            &&& written(
                s.sessions.sessions,
                t.sessions.sessions,
                id,
                SessionView {
                    session_id: id,
                    initiator,
                    created_at: s.ledger.timestamp,
                    nonce: 0,
                    operation_count: 0,
                    session_ttl_seconds: DEFAULT_SESSION_TTL,
                    closed: false,
                },
                PERSISTENT_TTL,
            )
            &&& written(s.sessions.nonces, t.sessions.nonces, id, 0, PERSISTENT_TTL)
            &&& t.events == s.events.push(
                EventView::SessionCreated {
                    session_id: id,
                    initiator,
                    timestamp: s.ledger.timestamp,
                },
            )
            &&& t == State {
                instance: InstanceState {
                    next_session: t.instance.next_session,
                    ttl: t.instance.ttl,
                    ..s.instance
                },
                sessions: SessionsState {
                    sessions: t.sessions.sessions,
                    nonces: t.sessions.nonces,
                    ..s.sessions
                },
                events: t.events,
                ..s
            }
        }),
{
}

/// An open session is closed by an initiator who authorizes it. It says what it said,
/// but that it is closed, and nothing else changes.
pub proof fn closing_a_session_is_exact(s: State, session_id: u64, initiator: Seq<u8>)
    ensures
        ({
            let authorized = s.host.authorized.contains(initiator);
            let refusal = s.close_session_refusal(session_id, initiator);
            let t = s.close_session_effect(session_id, initiator);
            &&& !authorized ==> refusal == Some(ErrorCode::Unauthorized)
            &&& authorized ==> refusal == s.session_refusal(session_id)
            &&& refusal is None ==> written(
                s.sessions.sessions,
                t.sessions.sessions,
                session_id,
                SessionView { closed: true, ..s.sessions.sessions[session_id].value },
                0,
            )
            &&& t.events == s.events.push(
                EventView::SessionClosed { session_id, initiator, timestamp: s.ledger.timestamp },
            )
            &&& t == State {
                sessions: SessionsState { sessions: t.sessions.sessions, ..s.sessions },
                events: t.events,
                ..s
            }
        }),
{
}

/// A registration in a session needs the administrator, an open session, an attestor
/// that is not registered and for which there is room, and a log with room, in this
/// order. It leaves the attestor registered under the key given, and one more
/// operation "register" of the administrator in the log. Nothing else changes.
pub proof fn registration_in_session_is_known(
    s: State,
    session_id: u64,
    attestor: Seq<u8>,
    public_key: Seq<u8>,
)
    ensures
        ({
            let refusal = s.register_in_session_refusal(session_id, attestor);
            let t = s.register_in_session_effect(session_id, attestor, public_key);
            &&& s.admin_refusal() is Some ==> refusal == s.admin_refusal()
            &&& s.admin_refusal() is None && s.session_refusal(session_id) is Some ==> refusal
                == s.session_refusal(session_id)
            &&& s.admin_refusal() is None && s.session_refusal(session_id) is None
                && s.add_attestor_refusal(attestor) is Some ==> refusal == s.add_attestor_refusal(
                attestor,
            )
            &&& s.admin_refusal() is None && s.session_refusal(session_id) is None
                && s.add_attestor_refusal(attestor) is None ==> refusal == s.log_refusal(session_id)
            &&& refusal is None ==> {
                &&& read(t.registry.attestors, attestor) == Some(true)
                &&& read(t.registry.public_keys, attestor) == Some(public_key)
                &&& written(
                    s.registry.attestors,
                    t.registry.attestors,
                    attestor,
                    true,
                    PERSISTENT_TTL,
                )
                &&& written(
                    s.registry.public_keys,
                    t.registry.public_keys,
                    attestor,
                    public_key,
                    PERSISTENT_TTL,
                )
                &&& t.instance.attestor_count == s.instance.attestor_count + 1
                &&& logged_anew(
                    s,
                    t,
                    session_id,
                    s.instance.admin->0,
                    bytes_of("register"),
                    0,
                )
            }
            &&& t.events == s.events.push(EventView::AttestorAdded { attestor }).push(
                EventView::AuditLogged {
                    log_id: s.instance.next_audit,
                    session_id,
                    operation_index: s.operation_count(session_id),
                    operation_type: bytes_of("register"),
                    status: bytes_of("success"),
                },
            )
            &&& t == State {
                instance: InstanceState {
                    attestor_count: t.instance.attestor_count,
                    next_audit: t.instance.next_audit,
                    ttl: t.instance.ttl,
                    ..s.instance
                },
                registry: RegistryState {
                    attestors: t.registry.attestors,
                    public_keys: t.registry.public_keys,
                    ..s.registry
                },
                sessions: SessionsState {
                    sessions: s.sessions.sessions,
                    nonces: s.sessions.nonces,
                    ..t.sessions
                },
                events: t.events,
                ..s
            }
        }),
{
}

/// An attestor registered in a session attests under the key that the registration
/// gave: its signature is accepted exactly if it holds under that key.
pub proof fn key_of_session_registration_counts(
    s: State,
    session_id: u64,
    attestor: Seq<u8>,
    public_key: Seq<u8>,
    payload_hash: Seq<u8>,
    signature: Seq<u8>,
    moment: Moment,
)
    requires
        s.register_in_session_refusal(session_id, attestor) is None,
        signature.len() == 64,
    ensures
        s.register_in_session_effect(session_id, attestor, public_key).at(moment).issuer_refusal(
            attestor,
            payload_hash,
            signature,
        ) is None <==> moment.host.signatures.contains(
            SignatureCheckView { public_key, message: payload_hash, signature },
        ),
{
}

/// A revocation in a session needs the administrator, an open session, a registered
/// attestor, and a log with room, in this order. It leaves the attestor unregistered
/// and without a key, and one more operation "revoke" of the administrator in the log.
/// Nothing else changes.
pub proof fn revocation_in_session_is_known(s: State, session_id: u64, attestor: Seq<u8>)
    ensures
        ({
            let refusal = s.revoke_in_session_refusal(session_id, attestor);
            let registered = s.registry.attestors.dom().contains(attestor);
            let t = s.revoke_in_session_effect(session_id, attestor);
            &&& s.admin_refusal() is Some ==> refusal == s.admin_refusal()
            &&& s.admin_refusal() is None && s.session_refusal(session_id) is Some ==> refusal
                == s.session_refusal(session_id)
            &&& s.admin_refusal() is None && s.session_refusal(session_id) is None && !registered
                ==> refusal == Some(ErrorCode::AttestorNotRegistered)
            &&& s.admin_refusal() is None && s.session_refusal(session_id) is None && registered
                ==> refusal == s.log_refusal(session_id)
            &&& erased(s.registry.attestors, t.registry.attestors, attestor)
            &&& erased(s.registry.public_keys, t.registry.public_keys, attestor)
            &&& s.instance.attestor_count > 0 ==> t.instance.attestor_count
                == s.instance.attestor_count - 1
            &&& s.instance.attestor_count == 0 ==> t.instance.attestor_count == 0
            &&& refusal is None ==> logged_anew(
                s,
                t,
                session_id,
                s.instance.admin->0,
                bytes_of("revoke"),
                0,
            )
            &&& t.events == s.events.push(EventView::AttestorRemoved { attestor }).push(
                EventView::AuditLogged {
                    log_id: s.instance.next_audit,
                    session_id,
                    operation_index: s.operation_count(session_id),
                    operation_type: bytes_of("revoke"),
                    status: bytes_of("success"),
                },
            )
            &&& t == State {
                instance: InstanceState {
                    attestor_count: t.instance.attestor_count,
                    next_audit: t.instance.next_audit,
                    ttl: t.instance.ttl,
                    ..s.instance
                },
                registry: RegistryState {
                    attestors: t.registry.attestors,
                    public_keys: t.registry.public_keys,
                    ..s.registry
                },
                sessions: SessionsState {
                    sessions: s.sessions.sessions,
                    nonces: s.sessions.nonces,
                    ..t.sessions
                },
                events: t.events,
                ..s
            }
        }),
{
}

/// The audit entries shown of a session are those stored for its last operations: the
/// one at each place is the entry logged under the index that many operations after
/// the first one shown.
pub proof fn audit_trail_shows_what_was_logged(s: State, session_id: u64, limit: u64, i: int)
    requires
        s.consistent(),
        0 <= i < present(s.recent_logs(session_id, limit)).len(),
    ensures
        ({
            let total = s.operation_count(session_id);
            let first = if total > limit {
                total - limit
            } else {
                0
            };
            let key = (session_id, (first + i) as u64);
            &&& s.sessions.logs.dom().contains(key)
            &&& s.sessions.audits.dom().contains(s.sessions.logs[key].value)
            &&& present(s.recent_logs(session_id, limit))[i]
                == s.sessions.audits[s.sessions.logs[key].value].value
        }),
{
    let items = s.recent_logs(session_id, limit);
    let total = s.operation_count(session_id);
    let first: int = if total > limit {
        total - limit
    } else {
        0
    };
    assert forall|j: int| 0 <= j < items.len() implies (#[trigger] items[j]) is Some by {
        let index = (first + j) as u64;
        assert(s.sessions.logs.dom().contains((session_id, index)));
        let l = s.sessions.logs[(session_id, index)].value;
        assert(s.sessions.audits.dom().contains(l));
        assert(items[j] == s.logged(session_id, index));
    }
    present_of_all(items);
    let index = (first + i) as u64;
    assert(s.sessions.logs.dom().contains((session_id, index)));
    assert(items[i] == s.logged(session_id, index));
}

} // verus!
