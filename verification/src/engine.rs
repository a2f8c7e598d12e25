//! The transaction engine.
//!
//! A movement request is validated against the current balances, written to
//! the record store as `Pending`, applied to the balance store, and the
//! record is finalized to `Completed` or `Failed` according to whether the
//! balance writes took effect. The two balance rows and the record of a
//! transfer are one unit of work: both balance writes are checked before
//! either is applied, so a movement either changes every balance it names or
//! none.

use vstd::prelude::*;

use crate::balance::BalanceStore;
use crate::errors::EngineError;
use crate::errors::RequestFault;
use crate::money::Money;
use crate::records::RecordStore;
use crate::records::TransactionRecord;
use crate::records::TransactionType;
use crate::records::TxStatus;
use crate::records::has_tx;
use crate::records::lemma_tx_index_push;
use crate::records::tx_index;

verus! {

/// A requested movement: an optional counterparty, an amount, and the kind
/// of movement. The caller itself is always the debited (or solely affected)
/// account and is not named in the request.
#[derive(Clone, Copy, PartialEq, Eq, Debug)]
pub struct MovementRequest {
    pub receiver: Option<u128>,
    pub amount: Money,
    pub kind: TransactionType,
}

/// The account credited by a movement: the named receiver for a transfer,
/// the caller itself for the self-referential kinds.
pub open spec fn counterparty(caller: u128, req: MovementRequest) -> u128 {
    match req.receiver {
        Some(r) => r,
        None => caller,
    }
}

/// Which refusal, if any, a movement earns before anything is written.
/// The checks run in a fixed order: the amount must be positive, the caller
/// must be provisioned, the receiver field must fit the kind, the balance
/// must cover the amount, and a transfer's receiver must be provisioned.
pub open spec fn validate(bal: Map<u128, int>, caller: u128, req: MovementRequest) -> Option<
    EngineError,
> {
    if req.amount@ <= 0 {
        Some(EngineError::InvalidRequest(RequestFault::NonPositiveAmount))
    } else if !bal.contains_key(caller) {
        Some(EngineError::UserNotFound)
    } else {
        match req.kind {
            TransactionType::Deposit => {
                if req.receiver is Some {
                    Some(EngineError::InvalidRequest(RequestFault::CrossAccount))
                } else {
                    None
                }
            },
            TransactionType::Withdrawal => {
                if req.receiver is Some {
                    Some(EngineError::InvalidRequest(RequestFault::CrossAccount))
                } else if bal[caller] < req.amount@ {
                    Some(EngineError::InsufficientFunds)
                } else {
                    None
                }
            },
            TransactionType::Transfer => {
                if req.receiver is None || req.receiver == Some(caller) {
                    Some(EngineError::InvalidRequest(RequestFault::SelfTransfer))
                } else if bal[caller] < req.amount@ {
                    Some(EngineError::InsufficientFunds)
                } else if !bal.contains_key(counterparty(caller, req)) {
                    Some(EngineError::UserNotFound)
                } else {
                    None
                }
            },
        }
    }
}

/// Whether every balance a valid movement writes stays representable by the
/// store.
pub open spec fn writes_representable(bal: Map<u128, int>, caller: u128, req: MovementRequest) -> bool {
    let a = req.amount@;
    match req.kind {
        TransactionType::Deposit => Money::representable(bal[caller] + a),
        TransactionType::Withdrawal => Money::representable(bal[caller] - a),
        TransactionType::Transfer => Money::representable(bal[caller] - a)
            && Money::representable(bal[counterparty(caller, req)] + a),
    }
}

/// The balances after a valid movement is applied: the caller is debited (or
/// credited, for a deposit) and a transfer's receiver is credited.
pub open spec fn balances_after(bal: Map<u128, int>, caller: u128, req: MovementRequest) -> Map<
    u128,
    int,
> {
    let a = req.amount@;
    match req.kind {
        TransactionType::Deposit => bal.insert(caller, bal[caller] + a),
        TransactionType::Withdrawal => bal.insert(caller, bal[caller] - a),
        TransactionType::Transfer => {
            let r = counterparty(caller, req);
            bal.insert(caller, bal[caller] - a).insert(r, bal[r] + a)
        },
    }
}

/// The record a movement leaves behind.
pub open spec fn movement_record(
    caller: u128,
    req: MovementRequest,
    transaction_id: u128,
    now: i64,
    status: TxStatus,
) -> TransactionRecord {
    TransactionRecord {
        transaction_id,
        sender: caller,
        receiver: counterparty(caller, req),
        amount: req.amount,
        kind: req.kind,
        status,
        created_at: now,
        updated_at: now,
    }
}

/// The engine's view of the world: the balance store and the record store.
/// The engine borrows them for the duration of one movement and caches
/// nothing across calls.
pub struct Ledger {
    pub balances: BalanceStore,
    pub records: RecordStore,
}

impl Ledger {
    /// Both stores are well-formed.
    pub open spec fn wf(&self) -> bool {
        self.balances.wf() && self.records.wf()
    }

    /// An empty ledger: no user, no history.
    pub fn new() -> (r: Ledger)
        ensures
            r.wf(),
            r.balances@ == Map::<u128, int>::empty(),
            r.records@ == Seq::<TransactionRecord>::empty(),
    {
        Ledger { balances: BalanceStore::new(), records: RecordStore::new() }
    }

    /// Provision a brand-new account with a zero opening balance. Provisioning
    /// the same user twice is refused and changes nothing.
    pub fn create_account(&mut self, user_id: u128, now: i64) -> (r: Result<(), EngineError>)
        requires
            old(self).wf(),
        ensures
            final(self).wf(),
            final(self).records@ == old(self).records@,
            match r {
                Ok(()) => !old(self).balances@.contains_key(user_id) && final(self).balances@
                    == old(self).balances@.insert(user_id, 0),
                Err(EngineError::PersistenceError) => old(self).balances@.contains_key(user_id)
                    && final(self).balances@ == old(self).balances@,
                Err(_) => false,
            },
    {
        match self.balances.create_balance(user_id, Money::zero(), now) {
            Ok(()) => Ok(()),
            Err(_) => Err(EngineError::PersistenceError),
        }
    }

    /// Read the current balance of a user.
    pub fn balance_of(&self, user_id: u128) -> (r: Result<Money, EngineError>)
        requires
            self.wf(),
        ensures
            match r {
                Ok(m) => self.balances@.contains_key(user_id) && m@ == self.balances@[user_id],
                Err(EngineError::UserNotFound) => !self.balances@.contains_key(user_id),
                Err(_) => false,
            },
    {
        match self.balances.get_balance(user_id) {
            Ok(m) => Ok(m),
            Err(_) => Err(EngineError::UserNotFound),
        }
    }

    /// Execute one movement under a caller-supplied record id and timestamp.
    ///
    /// The outcome is a function of the pre-state and the arguments:
    /// a refused movement (see [`validate`]) changes nothing; a colliding
    /// record id is a persistence failure before anything is written; a
    /// balance write that the store could not represent leaves a `Failed`
    /// record and the balances untouched; otherwise the balances move and a
    /// `Completed` record is appended.
    pub fn execute_with(
        &mut self,
        caller: u128,
        req: MovementRequest,
        transaction_id: u128,
        now: i64,
    ) -> (r: Result<u128, EngineError>)
        requires
            old(self).wf(),
        ensures
            final(self).wf(),
            ({
                let bal = old(self).balances@;
                let recs = old(self).records@;
                match validate(bal, caller, req) {
                    Some(e) => r == Err::<u128, EngineError>(e) && final(self).balances@ == bal
                        && final(self).records@ == recs,
                    None => {
                        if has_tx(recs, transaction_id) {
                            r == Err::<u128, EngineError>(EngineError::PersistenceError) && final(self).balances@ == bal && final(self).records@ == recs
                        } else if !writes_representable(bal, caller, req) {
                            r == Err::<u128, EngineError>(EngineError::PersistenceError) && final(self).balances@ == bal && final(self).records@ == recs.push(
                                movement_record(caller, req, transaction_id, now, TxStatus::Failed),
                            )
                        } else {
                            r == Ok::<u128, EngineError>(transaction_id) && final(self).balances@
                                == balances_after(bal, caller, req) && final(self).records@
                                == recs.push(
                                movement_record(
                                    caller,
                                    req,
                                    transaction_id,
                                    now,
                                    TxStatus::Completed,
                                ),
                            )
                        }
                    },
                }
            }),
    {
        // Validation: nothing is written before every rule has passed.
        if !req.amount.is_positive() {
            return Err(EngineError::InvalidRequest(RequestFault::NonPositiveAmount));
        }
        let caller_balance = match self.balances.get_balance(caller) {
            Ok(m) => m,
            Err(_) => {
                return Err(EngineError::UserNotFound);
            },
        };
        // The new balance of the caller, and of the receiver where one is
        // credited; `None` stands for a value the store cannot hold.
        let new_caller_balance: Option<Money>;
        let mut new_receiver_balance: Option<Money> = None;
        let receiver_id: u128;
        match req.kind {
            TransactionType::Deposit => {
                if req.receiver.is_some() {
                    return Err(EngineError::InvalidRequest(RequestFault::CrossAccount));
                }
                receiver_id = caller;
                new_caller_balance = caller_balance.checked_add(&req.amount);
            },
            TransactionType::Withdrawal => {
                if req.receiver.is_some() {
                    return Err(EngineError::InvalidRequest(RequestFault::CrossAccount));
                }
                if !caller_balance.at_least(&req.amount) {
                    return Err(EngineError::InsufficientFunds);
                }
                receiver_id = caller;
                new_caller_balance = caller_balance.checked_sub(&req.amount);
            },
            TransactionType::Transfer => {
                let rcv = match req.receiver {
                    None => {
                        return Err(EngineError::InvalidRequest(RequestFault::SelfTransfer));
                    },
                    Some(rcv) => rcv,
                };
                if rcv == caller {
                    return Err(EngineError::InvalidRequest(RequestFault::SelfTransfer));
                }
                if !caller_balance.at_least(&req.amount) {
                    return Err(EngineError::InsufficientFunds);
                }
                let receiver_balance = match self.balances.get_balance(rcv) {
                    Ok(m) => m,
                    Err(_) => {
                        return Err(EngineError::UserNotFound);
                    },
                };
                receiver_id = rcv;
                new_caller_balance = caller_balance.checked_sub(&req.amount);
                new_receiver_balance = receiver_balance.checked_add(&req.amount);
            },
        }
        // The movement is legal. Write the pending record first; a colliding
        // id aborts the whole operation with nothing to roll back.
        let ghost recs = self.records@;
        if self.records.insert_pending(
            transaction_id,
            caller,
            receiver_id,
            req.amount,
            req.kind,
            now,
        ).is_err() {
            return Err(EngineError::PersistenceError);
        }
        proof {
            lemma_tx_index_push(
                recs,
                movement_record(caller, req, transaction_id, now, TxStatus::Pending),
            );
        }
        // Both balance writes are judged before either is applied: the store
        // refuses a value it cannot represent, and a transfer must not leave
        // one leg applied and the other not.
        let writable = match req.kind {
            TransactionType::Transfer => new_caller_balance.is_some()
                && new_receiver_balance.is_some(),
            _ => new_caller_balance.is_some(),
        };
        if !writable {
            // The movement failed after the record was created: the record
            // stays, finalized as `Failed`, as the audit trail of the attempt.
            let set = self.records.set_status(transaction_id, TxStatus::Failed);
            proof {
                assert(set is Ok);
                assert(self.records@ =~= recs.push(
                    movement_record(caller, req, transaction_id, now, TxStatus::Failed),
                ));
            }
            return Err(EngineError::PersistenceError);
        }
        // Apply the balance writes: the debited account first.
        let set = self.balances.set_balance(caller, new_caller_balance.unwrap());
        proof {
            assert(set is Ok);
        }
        if let TransactionType::Transfer = req.kind {
            let set = self.balances.set_balance(receiver_id, new_receiver_balance.unwrap());
            proof {
                assert(set is Ok);
            }
        }
        // Every required mutation succeeded: finalize the record.
        let set = self.records.set_status(transaction_id, TxStatus::Completed);
        proof {
            assert(set is Ok);
            assert(self.records@ =~= recs.push(
                movement_record(caller, req, transaction_id, now, TxStatus::Completed),
            ));
            assert(self.balances@ =~= balances_after(old(self).balances@, caller, req));
        }
        Ok(transaction_id)
    }

    /// Execute one movement: generate a fresh record id and timestamp, then
    /// run [`Ledger::execute_with`]. The id is drawn at random, so nothing is
    /// known of it; every outcome of the draw is covered below, and success
    /// is owed wherever no draw can collide: on an empty history a valid,
    /// representable movement must succeed.
    pub fn execute(&mut self, caller: u128, req: MovementRequest) -> (r: Result<u128, EngineError>)
        requires
            old(self).wf(),
        ensures
            final(self).wf(),
            old(self).records@.len() == 0 && validate(old(self).balances@, caller, req) is None
                && writes_representable(old(self).balances@, caller, req) ==> r is Ok,
            ({
                let bal = old(self).balances@;
                let recs = old(self).records@;
                match validate(bal, caller, req) {
                    Some(e) => r == Err::<u128, EngineError>(e) && final(self).balances@ == bal
                        && final(self).records@ == recs,
                    None => match r {
                        Ok(tid) => final(self).balances@ == balances_after(bal, caller, req)
                            && writes_representable(bal, caller, req) && !has_tx(recs, tid) && (
                        exists|now: i64|
                            final(self).records@ == recs.push(
                                #[trigger] movement_record(caller, req, tid, now, TxStatus::Completed),
                            )),
                        Err(e) => e == EngineError::PersistenceError && final(self).balances@ == bal
                            && (recs.len() > 0 || !writes_representable(bal, caller, req))
                            && (final(self).records@ == recs || (exists|tid: u128, now: i64|
                            !has_tx(recs, tid) && !writes_representable(bal, caller, req)
                                && final(self).records@ == recs.push(
                                #[trigger] movement_record(caller, req, tid, now, TxStatus::Failed),
                            ))),
                    },
                }
            }),
    {
        let transaction_id = fresh_id();
        let now = current_millis();
        let r = self.execute_with(caller, req, transaction_id, now);
        proof {
            let bal = old(self).balances@;
            let recs = old(self).records@;
            if validate(bal, caller, req) is None && !has_tx(recs, transaction_id)
                && !writes_representable(bal, caller, req) {
                assert(self.records@ == recs.push(
                    movement_record(caller, req, transaction_id, now, TxStatus::Failed),
                ));
            }
        }
        r
    }

    /// Look up one record by id. Only the sender of a movement may fetch it;
    /// the receiver of a transfer is refused.
    pub fn fetch_transaction(&self, caller: u128, transaction_id: u128) -> (r: Result<
        TransactionRecord,
        EngineError,
    >)
        requires
            self.wf(),
        ensures
            match r {
                Ok(t) => has_tx(self.records@, transaction_id) && t == self.records@[tx_index(
                    self.records@,
                    transaction_id,
                )] && t.sender == caller,
                Err(EngineError::Unauthorized) => has_tx(self.records@, transaction_id)
                    && self.records@[tx_index(self.records@, transaction_id)].sender != caller,
                Err(EngineError::RecordNotFound) => !has_tx(self.records@, transaction_id),
                Err(_) => false,
            },
    {
        match self.records.get_by_id(transaction_id) {
            Err(_) => Err(EngineError::RecordNotFound),
            Ok(t) => {
                if t.sender != caller {
                    Err(EngineError::Unauthorized)
                } else {
                    Ok(t)
                }
            },
        }
    }

    /// All records in which the caller takes part, as sender or receiver, in
    /// creation order.
    pub fn list_transactions(&self, caller: u128) -> (r: Vec<TransactionRecord>)
        ensures
            r@ == self.records@.filter(
                (|t: TransactionRecord| t.sender == caller || t.receiver == caller),
            ),
    {
        self.records.list_for_user(caller)
    }
}

/// A valid deposit of amount `a` by a provisioned user with balance `b`
/// passes validation and leaves the user with balance `b + a`; every other
/// balance is untouched. With [`Ledger::execute_with`]'s contract this also
/// places the appended record in status `Completed`.
pub proof fn lemma_deposit_adds(bal: Map<u128, int>, caller: u128, req: MovementRequest)
    requires
        req.kind == TransactionType::Deposit,
        req.receiver is None,
        req.amount@ > 0,
        bal.contains_key(caller),
        Money::representable(bal[caller] + req.amount@),
    ensures
        validate(bal, caller, req) is None,
        writes_representable(bal, caller, req),
        balances_after(bal, caller, req)[caller] == bal[caller] + req.amount@,
        forall|u: u128|
            u != caller && bal.contains_key(u) ==> balances_after(bal, caller, req)[u] == bal[u],
{
}

/// A withdrawal of `a` by a provisioned user with balance `b >= a` passes
/// validation and leaves the user with balance `b - a`; every other balance
/// is untouched.
pub proof fn lemma_withdrawal_subtracts(bal: Map<u128, int>, caller: u128, req: MovementRequest)
    requires
        req.kind == TransactionType::Withdrawal,
        req.receiver is None,
        req.amount@ > 0,
        bal.contains_key(caller),
        Money::representable(bal[caller]),
        bal[caller] >= req.amount@,
    ensures
        validate(bal, caller, req) is None,
        writes_representable(bal, caller, req),
        balances_after(bal, caller, req)[caller] == bal[caller] - req.amount@,
        forall|u: u128|
            u != caller && bal.contains_key(u) ==> balances_after(bal, caller, req)[u] == bal[u],
{
}

/// A withdrawal of `a` by a provisioned user with balance `b < a` is refused
/// as `InsufficientFunds`; with [`Ledger::execute_with`]'s contract the
/// balance is unchanged.
pub proof fn lemma_withdrawal_insufficient(bal: Map<u128, int>, caller: u128, req: MovementRequest)
    requires
        req.kind == TransactionType::Withdrawal,
        req.receiver is None,
        req.amount@ > 0,
        bal.contains_key(caller),
        bal[caller] < req.amount@,
    ensures
        validate(bal, caller, req) == Some(EngineError::InsufficientFunds),
{
}

/// A transfer of `a` between distinct provisioned users with sender balance
/// `b >= a` passes validation, debits the sender by `a`, credits the
/// receiver by `a`, and conserves the total across the two accounts.
pub proof fn lemma_transfer_conserves(
    bal: Map<u128, int>,
    caller: u128,
    receiver: u128,
    req: MovementRequest,
)
    requires
        req.kind == TransactionType::Transfer,
        req.receiver == Some(receiver),
        receiver != caller,
        req.amount@ > 0,
        bal.contains_key(caller),
        bal.contains_key(receiver),
        Money::representable(bal[caller]),
        bal[caller] >= req.amount@,
        Money::representable(bal[receiver] + req.amount@),
    ensures
        validate(bal, caller, req) is None,
        writes_representable(bal, caller, req),
        balances_after(bal, caller, req)[caller] == bal[caller] - req.amount@,
        balances_after(bal, caller, req)[receiver] == bal[receiver] + req.amount@,
        balances_after(bal, caller, req)[caller] + balances_after(bal, caller, req)[receiver]
            == bal[caller] + bal[receiver],
        forall|u: u128|
            u != caller && u != receiver && bal.contains_key(u) ==> balances_after(
                bal,
                caller,
                req,
            )[u] == bal[u],
{
}

/// A transfer that names the caller itself as receiver is refused as an
/// invalid request, whatever the balances hold.
pub proof fn lemma_self_transfer_refused(bal: Map<u128, int>, caller: u128, req: MovementRequest)
    requires
        req.kind == TransactionType::Transfer,
        req.receiver == Some(caller),
        bal.contains_key(caller),
    ensures
        validate(bal, caller, req) matches Some(EngineError::InvalidRequest(_)),
{
}

/// A deposit or withdrawal that names any receiver is refused as an invalid
/// request, whatever the balances hold.
pub proof fn lemma_cross_account_refused(bal: Map<u128, int>, caller: u128, req: MovementRequest)
    requires
        req.kind == TransactionType::Deposit || req.kind == TransactionType::Withdrawal,
        req.receiver is Some,
        bal.contains_key(caller),
    ensures
        validate(bal, caller, req) matches Some(EngineError::InvalidRequest(_)),
{
}

/// A valid movement never overdraws: when every balance is non-negative
/// before it, every balance is non-negative after it. Deposits only add,
/// and a withdrawal or transfer is only valid when the debited balance
/// covers the amount.
pub proof fn lemma_no_overdraft(bal: Map<u128, int>, caller: u128, req: MovementRequest)
    requires
        validate(bal, caller, req) is None,
        forall|u: u128| bal.contains_key(u) ==> bal[u] >= 0,
    ensures
        forall|u: u128|
            balances_after(bal, caller, req).contains_key(u) ==> balances_after(
                bal,
                caller,
                req,
            )[u] >= 0,
{
}

/// Relies on `uuid::Uuid::new_v4`: a freshly drawn random 128-bit identifier,
/// taken as its integer value. The draw is random, so nothing is promised of
/// the result; every caller handles every value, collisions included.
#[verifier::external_body]
pub(crate) fn fresh_id() -> u128 {
    uuid::Uuid::new_v4().as_u128()
}

/// Relies on `chrono::Utc::now`: the current wall-clock time, as milliseconds
/// since the Unix epoch. The clock is outside the model, so nothing is
/// promised of the result.
#[verifier::external_body]
pub(crate) fn current_millis() -> i64 {
    chrono::Utc::now().timestamp_millis()
}

} // verus!
