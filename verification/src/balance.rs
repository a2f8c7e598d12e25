//! The balance store: one balance row per user.
//!
//! The store is viewed as a map from user id to exact balance. Its invariant
//! is that every user owns at most one row, so a read and a write address one
//! well-defined balance.

use vstd::prelude::*;

use crate::errors::StoreError;
use crate::money::Money;

verus! {

/// One persisted balance row.
#[derive(Clone, Copy, PartialEq, Eq, Structural, Debug)]
pub struct BalanceRow {
    pub user_id: u128,
    pub balance: Money,
    pub updated_at: i64,
}

/// No two rows belong to the same user.
pub open spec fn unique_users(s: Seq<BalanceRow>) -> bool {
    forall|i: int, j: int|
        0 <= i < j < s.len() ==> s[i].user_id != s[j].user_id
}

/// The map a sequence of rows stands for: later rows win, which makes no
/// difference once the rows are unique per user.
pub open spec fn balances_of(s: Seq<BalanceRow>) -> Map<u128, int>
    decreases s.len(),
{
    if s.len() == 0 {
        Map::empty()
    } else {
        balances_of(s.drop_last()).insert(s.last().user_id, s.last().balance@)
    }
}

/// A user is in the map exactly when some row belongs to it.
pub proof fn lemma_balances_dom(s: Seq<BalanceRow>, u: u128)
    ensures
        balances_of(s).contains_key(u) <==> (exists|i: int|
            0 <= i < s.len() && s[i].user_id == u),
    decreases s.len(),
{
    if s.len() > 0 {
        lemma_balances_dom(s.drop_last(), u);
        if s.last().user_id == u {
            assert(s[s.len() - 1].user_id == u);
        } else {
            if exists|i: int| 0 <= i < s.len() && s[i].user_id == u {
                let i = choose|i: int| 0 <= i < s.len() && s[i].user_id == u;
                assert(s.drop_last()[i] == s[i]);
            }
            if exists|i: int| 0 <= i < s.drop_last().len() && s.drop_last()[i].user_id == u {
                let i = choose|i: int|
                    0 <= i < s.drop_last().len() && s.drop_last()[i].user_id == u;
                assert(s[i] == s.drop_last()[i]);
            }
        }
    }
}

/// With unique rows, the row of a user gives its map entry.
pub proof fn lemma_balances_at(s: Seq<BalanceRow>, i: int)
    requires
        unique_users(s),
        0 <= i < s.len(),
    ensures
        balances_of(s).contains_key(s[i].user_id),
        balances_of(s)[s[i].user_id] == s[i].balance@,
    decreases s.len(),
{
    if i == s.len() - 1 {
        assert(s.last() == s[i]);
    } else {
        assert(s.drop_last()[i] == s[i]);
        lemma_balances_at(s.drop_last(), i);
        assert(s.last().user_id != s[i].user_id);
    }
}

/// Overwriting the balance of one row updates exactly that user's entry.
pub proof fn lemma_balances_update(s: Seq<BalanceRow>, i: int, r: BalanceRow)
    requires
        unique_users(s),
        0 <= i < s.len(),
        r.user_id == s[i].user_id,
    ensures
        balances_of(s.update(i, r)) == balances_of(s).insert(r.user_id, r.balance@),
    decreases s.len(),
{
    let t = s.update(i, r);
    if i == s.len() - 1 {
        assert(t.drop_last() =~= s.drop_last());
        assert(t.last() == r);
        assert(balances_of(t) =~= balances_of(s).insert(r.user_id, r.balance@));
    } else {
        assert(t.drop_last() =~= s.drop_last().update(i, r));
        assert(s.drop_last()[i] == s[i]);
        lemma_balances_update(s.drop_last(), i, r);
        assert(t.last() == s.last());
        assert(s.last().user_id != r.user_id);
        assert(balances_of(t) =~= balances_of(s).insert(r.user_id, r.balance@));
    }
}

/// Appending a row for a fresh user adds exactly that user's entry.
pub proof fn lemma_balances_push(s: Seq<BalanceRow>, r: BalanceRow)
    ensures
        balances_of(s.push(r)) == balances_of(s).insert(r.user_id, r.balance@),
{
    assert(s.push(r).drop_last() =~= s);
    assert(s.push(r).last() == r);
}

/// Every balance in the map is representable: each entry is the view of a
/// stored `Money` value, a signed 64-bit count of cents.
pub proof fn lemma_balances_of_representable(s: Seq<BalanceRow>, u: u128)
    requires
        balances_of(s).contains_key(u),
    ensures
        Money::representable(balances_of(s)[u]),
    decreases s.len(),
{
    if s.len() > 0 {
        if s.last().user_id == u {
            s.last().balance.lemma_representable();
        } else {
            lemma_balances_of_representable(s.drop_last(), u);
        }
    }
}

/// The balance store. It owns one balance value per user and exposes read
/// and unconditional set operations; legality of a movement is judged by the
/// engine, not here.
pub struct BalanceStore {
    rows: Vec<BalanceRow>,
}

impl View for BalanceStore {
    type V = Map<u128, int>;

    closed spec fn view(&self) -> Map<u128, int> {
        balances_of(self.rows@)
    }
}

impl BalanceStore {
    /// Well-formedness: one row per user.
    pub closed spec fn wf(&self) -> bool {
        unique_users(self.rows@)
    }

    /// Every balance held by the store fits a signed 64-bit count of cents,
    /// so a client may state laws such as the deposit and transfer bounds
    /// directly over the store's map view.
    pub proof fn lemma_balance_representable(&self, u: u128)
        requires
            self@.contains_key(u),
        ensures
            Money::representable(self@[u]),
    {
        lemma_balances_of_representable(self.rows@, u);
    }

    /// An empty store: no user is provisioned.
    pub fn new() -> (r: BalanceStore)
        ensures
            r.wf(),
            r@ == Map::<u128, int>::empty(),
    {
        BalanceStore { rows: Vec::new() }
    }

    /// The index of the row of `user_id`, if there is one.
    fn index_of(&self, user_id: u128) -> (r: Option<usize>)
        ensures
            match r {
                Some(i) => i < self.rows@.len() && self.rows@[i as int].user_id == user_id,
                None => forall|j: int|
                    0 <= j < self.rows@.len() ==> self.rows@[j].user_id != user_id,
            },
    {
        let n = self.rows.len();
        let mut i: usize = 0;
        while i < n
            invariant
                i <= n,
                n == self.rows@.len(),
                forall|j: int| 0 <= j < i ==> self.rows@[j].user_id != user_id,
            decreases n - i,
        {
            if self.rows[i].user_id == user_id {
                return Some(i);
            }
            i = i + 1;
        }
        None
    }

    /// Provision a user with an opening balance. Invoked once per user by the
    /// registration flow; a second row for the same user is refused.
    pub fn create_balance(&mut self, user_id: u128, initial: Money, now: i64) -> (r: Result<
        (),
        StoreError,
    >)
        requires
            old(self).wf(),
        ensures
            final(self).wf(),
            match r {
                Ok(()) => !old(self)@.contains_key(user_id) && final(self)@ == old(
                    self,
                )@.insert(user_id, initial@),
                Err(StoreError::DuplicateKey) => old(self)@.contains_key(user_id) && final(self)@
                    == old(self)@,
                Err(_) => false,
            },
    {
        proof {
            lemma_balances_dom(self.rows@, user_id);
        }
        match self.index_of(user_id) {
            Some(_) => Err(StoreError::DuplicateKey),
            None => {
                let row = BalanceRow { user_id, balance: initial, updated_at: now };
                proof {
                    lemma_balances_push(self.rows@, row);
                }
                self.rows.push(row);
                Ok(())
            },
        }
    }

    /// Read the current balance of a user. A missing row is an error the
    /// caller must treat as "user not provisioned", not as a zero balance.
    pub fn get_balance(&self, user_id: u128) -> (r: Result<Money, StoreError>)
        requires
            self.wf(),
        ensures
            match r {
                Ok(m) => self@.contains_key(user_id) && m@ == self@[user_id],
                Err(StoreError::NotFound) => !self@.contains_key(user_id),
                Err(_) => false,
            },
    {
        proof {
            lemma_balances_dom(self.rows@, user_id);
        }
        match self.index_of(user_id) {
            Some(i) => {
                proof {
                    lemma_balances_at(self.rows@, i as int);
                }
                Ok(self.rows[i].balance)
            },
            None => Err(StoreError::NotFound),
        }
    }

    /// Unconditionally overwrite the balance of a provisioned user. The store
    /// does not judge the value; non-negativity is the engine's rule.
    pub fn set_balance(&mut self, user_id: u128, value: Money) -> (r: Result<(), StoreError>)
        requires
            old(self).wf(),
        ensures
            final(self).wf(),
            match r {
                Ok(()) => old(self)@.contains_key(user_id) && final(self)@ == old(
                    self,
                )@.insert(user_id, value@),
                Err(StoreError::NotFound) => !old(self)@.contains_key(user_id) && final(self)@
                    == old(self)@,
                Err(_) => false,
            },
    {
        proof {
            lemma_balances_dom(self.rows@, user_id);
        }
        match self.index_of(user_id) {
            Some(i) => {
                let row = BalanceRow {
                    user_id,
                    balance: value,
                    updated_at: self.rows[i].updated_at,
                };
                proof {
                    lemma_balances_at(self.rows@, i as int);
                    lemma_balances_update(self.rows@, i as int, row);
                }
                self.rows.set(i, row);
                Ok(())
            },
            None => Err(StoreError::NotFound),
        }
    }
}

} // verus!
