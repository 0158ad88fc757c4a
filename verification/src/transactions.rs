//! Records of transactions.

use crate::contract::AnchorKitContract;
use crate::data::{contents, Address, Duplicate};
use crate::env::{Env, State};
use crate::table::{put, read, written};
use crate::types::{
    TransactionState, TransactionStateRecord, TransactionStateRecordView, PERSISTENT_TTL,
};
use vstd::prelude::*;

verus! {

impl State {
    /// The record of a transaction that starts now.
    pub open spec fn new_transaction(
        self,
        transaction_id: u64,
        initiator: Seq<u8>,
    ) -> TransactionStateRecordView {
        TransactionStateRecordView {
            transaction_id,
            state: TransactionState::Pending,
            initiator,
            timestamp: self.now(),
            last_updated: self.now(),
            error_message: None,
            state_history: seq![(TransactionState::Pending, self.now())],
        }
    }

    /// The state after `create_transaction_record`.
    pub open spec fn create_transaction_effect(
        self,
        transaction_id: u64,
        initiator: Seq<u8>,
    ) -> State {
        State {
            transactions: put(
                self.transactions,
                transaction_id,
                self.new_transaction(transaction_id, initiator),
                PERSISTENT_TTL,
            ),
            ..self
        }
    }
}

impl AnchorKitContract {
    /// Stores the record of a transaction that starts now, and returns it.
    pub fn create_transaction_record(env: &mut Env, transaction_id: u64, initiator: Address) -> (r:
        TransactionStateRecord)
        ensures
            r@ == old(env)@.new_transaction(transaction_id, initiator@),
            final(env)@ == old(env)@.create_transaction_effect(transaction_id, initiator@),
    {
        let now: u64 = env.ledger.timestamp;
        let mut history: Vec<(TransactionState, u64)> = Vec::new();
        history.push((TransactionState::Pending, now));
        assert(contents(history@) =~= seq![(TransactionState::Pending, now)]);
        let record = TransactionStateRecord {
            transaction_id,
            state: TransactionState::Pending,
            initiator,
            timestamp: now,
            last_updated: now,
            error_message: None,
            state_history: history,
        };
        env.transactions.set(transaction_id, record.dup(), PERSISTENT_TTL);
        record
    }
}

/// A transaction record reads back, pending, with one entry in its history.
pub proof fn transaction_reads_back(s: State, transaction_id: u64, initiator: Seq<u8>, other: u64)
    ensures
        ({
            let t = s.create_transaction_effect(transaction_id, initiator);
            let record = s.new_transaction(transaction_id, initiator);
            &&& read(t.transactions, transaction_id) == Some(record)
            &&& record.state == TransactionState::Pending
            &&& record.state_history.len() == 1
            &&& other != transaction_id ==> read(t.transactions, other)
                == read(s.transactions, other)
        }),
{
}

/// A transaction is recorded as pending from now on, for its initiator, without an
/// error, and with that as its whole history. Nothing else changes.
pub proof fn transaction_is_written(s: State, transaction_id: u64, initiator: Seq<u8>)
    ensures
        ({
            let t = s.create_transaction_effect(transaction_id, initiator);
            let record = s.new_transaction(transaction_id, initiator);
            let now = s.ledger.timestamp;
            &&& record.transaction_id == transaction_id
            &&& record.state == TransactionState::Pending
            &&& record.initiator == initiator
            &&& record.timestamp == now
            &&& record.last_updated == now
            &&& record.error_message is None
            &&& record.state_history.len() == 1
            &&& record.state_history[0] == (TransactionState::Pending, now)
            &&& written(s.transactions, t.transactions, transaction_id, record, PERSISTENT_TTL)
            &&& t == State { transactions: t.transactions, ..s }
        }),
{
}

} // verus!
