//! The transaction record store: the durable history of movements.
//!
//! A record is created in `Pending` status before any balance change is
//! attempted, and is finalized to `Completed` or `Failed`; a terminal record
//! is never changed again, so the history is an audit trail even of failed
//! attempts.

use vstd::prelude::*;

use crate::errors::StoreError;
use crate::money::Money;

verus! {

/// The kind of movement a record describes.
#[derive(Clone, Copy, PartialEq, Eq, Structural, Debug)]
pub enum TransactionType {
    Deposit,
    Withdrawal,
    Transfer,
}

/// The three-state lifecycle of a record.
#[derive(Clone, Copy, PartialEq, Eq, Structural, Debug)]
pub enum TxStatus {
    Pending,
    Completed,
    Failed,
}

/// One movement, as persisted. For deposits and withdrawals the receiver is
/// the sender itself; a transfer names the credited party.
#[derive(Clone, Copy, PartialEq, Eq, Structural, Debug)]
pub struct TransactionRecord {
    pub transaction_id: u128,
    pub sender: u128,
    pub receiver: u128,
    pub amount: Money,
    pub kind: TransactionType,
    pub status: TxStatus,
    pub created_at: i64,
    pub updated_at: i64,
}

/// No two records carry the same transaction id.
pub open spec fn unique_ids(s: Seq<TransactionRecord>) -> bool {
    forall|i: int, j: int|
        0 <= i < j < s.len() ==> s[i].transaction_id != s[j].transaction_id
}

/// Whether some record carries the id.
pub open spec fn has_tx(s: Seq<TransactionRecord>, tid: u128) -> bool {
    exists|i: int| 0 <= i < s.len() && s[i].transaction_id == tid
}

/// The position of the record carrying the id; meaningful when `has_tx`
/// holds and the ids are unique.
pub open spec fn tx_index(s: Seq<TransactionRecord>, tid: u128) -> int {
    choose|i: int| 0 <= i < s.len() && s[i].transaction_id == tid
}

/// The same record with another status.
pub open spec fn with_status(t: TransactionRecord, status: TxStatus) -> TransactionRecord {
    TransactionRecord { status, ..t }
}

/// What a status write does: a missing id is refused, a pending record takes
/// any status, a terminal record takes only the status it already has (the
/// write is idempotent), and any other transition is refused.
pub open spec fn set_status_result(s: Seq<TransactionRecord>, tid: u128, status: TxStatus) -> Result<
    Seq<TransactionRecord>,
    StoreError,
> {
    if !has_tx(s, tid) {
        Err(StoreError::NotFound)
    } else {
        let i = tx_index(s, tid);
        if s[i].status is Pending || s[i].status == status {
            Ok(s.update(i, with_status(s[i], status)))
        } else {
            Err(StoreError::InvalidTransition)
        }
    }
}

/// A record appended under a fresh id is found at the end of the history.
pub proof fn lemma_tx_index_push(s: Seq<TransactionRecord>, r: TransactionRecord)
    requires
        !has_tx(s, r.transaction_id),
    ensures
        has_tx(s.push(r), r.transaction_id),
        tx_index(s.push(r), r.transaction_id) == s.len(),
{
    let t = s.push(r);
    assert(t[s.len() as int] == r);
    assert(has_tx(t, r.transaction_id));
    let i = tx_index(t, r.transaction_id);
    assert(0 <= i < t.len() && t[i].transaction_id == r.transaction_id);
    if i < s.len() {
        assert(s[i] == t[i]);
        assert(has_tx(s, r.transaction_id));
    }
}

/// Writing the same status twice is harmless: the second write succeeds and
/// changes nothing.
pub proof fn lemma_status_write_idempotent(s: Seq<TransactionRecord>, tid: u128, status: TxStatus)
    requires
        unique_ids(s),
        set_status_result(s, tid, status) is Ok,
    ensures
        set_status_result(set_status_result(s, tid, status).unwrap(), tid, status)
            == set_status_result(s, tid, status),
{
    let i = tx_index(s, tid);
    let t = set_status_result(s, tid, status).unwrap();
    assert(t == s.update(i, with_status(s[i], status)));
    assert(t[i].transaction_id == tid);
    assert(has_tx(t, tid));
    let j = tx_index(t, tid);
    assert(0 <= j < t.len() && t[j].transaction_id == tid);
    assert(s[j].transaction_id == tid || j == i);
    assert(j == i);
    assert(t[i].status == status);
    assert(t.update(i, with_status(t[i], status)) =~= t);
}

/// The record store. It supports insertion of a pending record, a status
/// transition, and point and range lookup.
pub struct RecordStore {
    rows: Vec<TransactionRecord>,
}

impl View for RecordStore {
    type V = Seq<TransactionRecord>;

    closed spec fn view(&self) -> Seq<TransactionRecord> {
        self.rows@
    }
}

impl RecordStore {
    /// Well-formedness: transaction ids are globally unique, and every
    /// recorded amount is strictly positive.
    pub closed spec fn wf(&self) -> bool {
        unique_ids(self.rows@) && (forall|i: int|
            0 <= i < self.rows@.len() ==> self.rows@[i].amount@ > 0)
    }

    /// An empty history.
    pub fn new() -> (r: RecordStore)
        ensures
            r.wf(),
            r@ == Seq::<TransactionRecord>::empty(),
    {
        RecordStore { rows: Vec::new() }
    }

    /// The index of the record carrying `transaction_id`, if any.
    fn index_of(&self, transaction_id: u128) -> (r: Option<usize>)
        ensures
            match r {
                Some(i) => i < self.rows@.len() && self.rows@[i as int].transaction_id
                    == transaction_id,
                None => forall|j: int|
                    0 <= j < self.rows@.len() ==> self.rows@[j].transaction_id != transaction_id,
            },
    {
        let n = self.rows.len();
        let mut i: usize = 0;
        while i < n
            invariant
                i <= n,
                n == self.rows@.len(),
                forall|j: int| 0 <= j < i ==> self.rows@[j].transaction_id != transaction_id,
            decreases n - i,
        {
            if self.rows[i].transaction_id == transaction_id {
                return Some(i);
            }
            i = i + 1;
        }
        None
    }

    /// Append a pending record. The id is caller-supplied and must be
    /// globally unique; a collision is refused and nothing is written.
    pub fn insert_pending(
        &mut self,
        transaction_id: u128,
        sender: u128,
        receiver: u128,
        amount: Money,
        kind: TransactionType,
        now: i64,
    ) -> (r: Result<(), StoreError>)
        requires
            old(self).wf(),
            amount@ > 0,
        ensures
            final(self).wf(),
            match r {
                Ok(()) => !has_tx(old(self)@, transaction_id) && final(self)@ == old(self)@.push(
                    (TransactionRecord {
                        transaction_id,
                        sender,
                        receiver,
                        amount,
                        kind,
                        status: TxStatus::Pending,
                        created_at: now,
                        updated_at: now,
                    }),
                ),
                Err(StoreError::DuplicateKey) => has_tx(old(self)@, transaction_id) && final(self)@
                    == old(self)@,
                Err(_) => false,
            },
    {
        match self.index_of(transaction_id) {
            Some(_) => Err(StoreError::DuplicateKey),
            None => {
                let row = TransactionRecord {
                    transaction_id,
                    sender,
                    receiver,
                    amount,
                    kind,
                    status: TxStatus::Pending,
                    created_at: now,
                    updated_at: now,
                };
                self.rows.push(row);
                Ok(())
            },
        }
    }

    /// Transition the status of the addressed record, as
    /// [`set_status_result`] says.
    pub fn set_status(&mut self, transaction_id: u128, status: TxStatus) -> (r: Result<
        (),
        StoreError,
    >)
        requires
            old(self).wf(),
        ensures
            final(self).wf(),
            match set_status_result(old(self)@, transaction_id, status) {
                Ok(t) => r is Ok && final(self)@ == t,
                Err(e) => r == Err::<(), StoreError>(e) && final(self)@ == old(self)@,
            },
    {
        match self.index_of(transaction_id) {
            None => Err(StoreError::NotFound),
            Some(i) => {
                proof {
                    let k = tx_index(self.rows@, transaction_id);
                    assert(0 <= k < self.rows@.len() && self.rows@[k].transaction_id
                        == transaction_id);
                    assert(k == i as int);
                }
                let current = self.rows[i];
                match (current.status, status) {
                    (TxStatus::Pending, _) => {
                        self.rows.set(i, TransactionRecord { status, ..current });
                        Ok(())
                    },
                    (TxStatus::Completed, TxStatus::Completed)
                    | (TxStatus::Failed, TxStatus::Failed) => {
                        self.rows.set(i, TransactionRecord { status, ..current });
                        Ok(())
                    },
                    _ => Err(StoreError::InvalidTransition),
                }
            },
        }
    }

    /// Look up one record by id.
    pub fn get_by_id(&self, transaction_id: u128) -> (r: Result<TransactionRecord, StoreError>)
        requires
            self.wf(),
        ensures
            match r {
                Ok(t) => has_tx(self@, transaction_id) && t == self@[tx_index(
                    self@,
                    transaction_id,
                )],
                Err(StoreError::NotFound) => !has_tx(self@, transaction_id),
                Err(_) => false,
            },
    {
        match self.index_of(transaction_id) {
            None => Err(StoreError::NotFound),
            Some(i) => {
                proof {
                    let k = tx_index(self.rows@, transaction_id);
                    assert(0 <= k < self.rows@.len() && self.rows@[k].transaction_id
                        == transaction_id);
                    assert(k == i as int);
                }
                Ok(self.rows[i])
            },
        }
    }

    /// All records in which the user takes part, as sender or receiver, in
    /// creation order.
    pub fn list_for_user(&self, user_id: u128) -> (r: Vec<TransactionRecord>)
        ensures
            r@ == self@.filter(
                (|t: TransactionRecord| t.sender == user_id || t.receiver == user_id),
            ),
    {
        let n = self.rows.len();
        let mut out: Vec<TransactionRecord> = Vec::new();
        let mut i: usize = 0;
        while i < n
            invariant
                i <= n,
                n == self.rows@.len(),
                out@ == self.rows@.take(i as int).filter(
                    (|t: TransactionRecord| t.sender == user_id || t.receiver == user_id),
                ),
            decreases n - i,
        {
            let t = self.rows[i];
            proof {
                reveal_with_fuel(Seq::<TransactionRecord>::filter, 2);
                assert(self.rows@.take(i + 1).drop_last() =~= self.rows@.take(i as int));
                assert(self.rows@.take(i + 1).last() == t);
            }
            if t.sender == user_id || t.receiver == user_id {
                out.push(t);
            }
            i = i + 1;
        }
        proof {
            assert(self.rows@.take(n as int) =~= self.rows@);
        }
        out
    }
}

} // verus!
