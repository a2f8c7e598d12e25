//! The user directory: account identity, credentials, and registration.
//!
//! The transaction engine itself never reads this directory — a balance row
//! is its sign that a user exists — but registration provisions both: an
//! account entry here and a zero opening balance in the balance store, as
//! one unit of work.

use vstd::prelude::*;

use crate::balance::BalanceStore;
use crate::errors::AuthError;
use crate::errors::StoreError;
use crate::money::Money;

verus! {

/// A registration request: the fields a new account is created from.
#[derive(Clone, Debug)]
pub struct UserRegisterReq {
    pub username: String,
    pub email: String,
    pub password: String,
}

/// A request to change the caller's username.
#[derive(Clone, Debug)]
pub struct UserUpdateReq {
    pub username: String,
}

/// A sign-in request: credentials to check against the directory.
#[derive(Clone, Debug)]
pub struct GetTokenReq {
    pub email: String,
    pub password: String,
}

/// The refusal a failed identity check answers with.
#[derive(Clone, Debug)]
pub struct ValidateUserError {
    pub status: String,
    pub message: String,
}

/// The identity a successful check confirms.
#[derive(Clone, Debug)]
pub struct ValidateUserDetails {
    pub uid: i32,
    pub email: String,
}

/// One account row. `id` is the serial row number, starting at 1;
/// `user_id` is the stable identity every other component keys on.
#[derive(Clone, PartialEq, Eq, Debug)]
pub struct UserAccount {
    pub id: i32,
    pub user_id: u128,
    pub username: String,
    pub email: String,
    pub password: String,
    pub created_at: i64,
    pub updated_at: i64,
}

/// Some account carries the email.
pub open spec fn email_taken(s: Seq<UserAccount>, email: Seq<char>) -> bool {
    exists|i: int| 0 <= i < s.len() && s[i].email@ == email
}

/// The position of the account carrying the email; meaningful when
/// `email_taken` holds and the emails are unique.
pub open spec fn email_index(s: Seq<UserAccount>, email: Seq<char>) -> int {
    choose|i: int| 0 <= i < s.len() && s[i].email@ == email
}

/// Some account carries the user id.
pub open spec fn has_user(s: Seq<UserAccount>, user_id: u128) -> bool {
    exists|i: int| 0 <= i < s.len() && s[i].user_id == user_id
}

/// The position of the account carrying the user id; meaningful when
/// `has_user` holds and the ids are unique.
pub open spec fn user_index(s: Seq<UserAccount>, user_id: u128) -> int {
    choose|i: int| 0 <= i < s.len() && s[i].user_id == user_id
}

/// The account row a registration appends.
pub open spec fn new_account(req: UserRegisterReq, user_id: u128, serial: i32, now: i64) -> UserAccount {
    UserAccount {
        id: serial,
        user_id,
        username: req.username,
        email: req.email,
        password: req.password,
        created_at: now,
        updated_at: now,
    }
}

/// User ids and emails are unique, and the serial numbers count the rows
/// from 1 in creation order.
pub open spec fn directory_wf(s: Seq<UserAccount>) -> bool {
    &&& forall|i: int, j: int| 0 <= i < j < s.len() ==> s[i].user_id != s[j].user_id
    &&& forall|i: int, j: int| 0 <= i < j < s.len() ==> s[i].email@ != s[j].email@
    &&& forall|i: int| 0 <= i < s.len() ==> #[trigger] s[i].id == i + 1
    &&& s.len() <= i32::MAX
}

/// The user directory.
pub struct UserDirectory {
    rows: Vec<UserAccount>,
}

impl View for UserDirectory {
    type V = Seq<UserAccount>;

    closed spec fn view(&self) -> Seq<UserAccount> {
        self.rows@
    }
}

impl UserDirectory {
    /// Well-formedness: see [`directory_wf`].
    pub open spec fn wf(&self) -> bool {
        directory_wf(self@)
    }

    /// An empty directory.
    pub fn new() -> (r: UserDirectory)
        ensures
            r.wf(),
            r@ == Seq::<UserAccount>::empty(),
    {
        UserDirectory { rows: Vec::new() }
    }

    /// The index of the account carrying `email`, if any.
    fn index_of_email(&self, email: &String) -> (r: Option<usize>)
        ensures
            match r {
                Some(i) => i < self.rows@.len() && self.rows@[i as int].email@ == email@,
                None => forall|j: int|
                    0 <= j < self.rows@.len() ==> self.rows@[j].email@ != email@,
            },
    {
        let n = self.rows.len();
        let mut i: usize = 0;
        while i < n
            invariant
                i <= n,
                n == self.rows@.len(),
                forall|j: int| 0 <= j < i ==> self.rows@[j].email@ != email@,
            decreases n - i,
        {
            if self.rows[i].email == *email {
                return Some(i);
            }
            i = i + 1;
        }
        None
    }

    /// The index of the account carrying `user_id`, if any.
    fn index_of_user(&self, user_id: u128) -> (r: Option<usize>)
        ensures
            match r {
                Some(i) => i < self.rows@.len() && self.rows@[i as int].user_id == user_id,
                None => forall|j: int|
                    0 <= j < self.rows@.len() ==> self.rows@[j].user_id != user_id,
            },
    {
        let n = self.rows.len();
        let mut i: usize = 0;
        while i < n
            invariant
                i <= n,
                n == self.rows@.len(),
                forall|j: int| 0 <= j < i ==> self.rows@[j].user_id != user_id,
            decreases n - i,
        {
            if self.rows[i].user_id == user_id {
                return Some(i);
            }
            i = i + 1;
        }
        None
    }

    /// Register a new user under a caller-supplied stable id, and provision
    /// its zero opening balance, as one unit of work: on any refusal neither
    /// the directory nor the balance store has changed.
    pub fn register(
        &mut self,
        balances: &mut BalanceStore,
        req: &UserRegisterReq,
        user_id: u128,
        now: i64,
    ) -> (r: Result<u128, StoreError>)
        requires
            old(self).wf(),
            old(balances).wf(),
        ensures
            final(self).wf(),
            final(balances).wf(),
            match r {
                Ok(uid) => uid == user_id && !email_taken(old(self)@, req.email@) && !has_user(
                    old(self)@,
                    user_id,
                ) && !old(balances)@.contains_key(user_id) && old(self)@.len() < i32::MAX && final(self)@ == old(self)@.push(
                    new_account(*req, user_id, (old(self)@.len() + 1) as i32, now),
                ) && final(balances)@ == old(balances)@.insert(user_id, 0),
                Err(StoreError::DuplicateKey) => (email_taken(old(self)@, req.email@) || has_user(
                    old(self)@,
                    user_id,
                ) || old(balances)@.contains_key(user_id)) && final(self)@ == old(self)@ && final(balances)@ == old(balances)@,
                Err(StoreError::ValueOutOfRange) => old(self)@.len() >= i32::MAX && final(self)@
                    == old(self)@ && final(balances)@ == old(balances)@,
                Err(_) => false,
            },
    {
        if self.index_of_email(&req.email).is_some() {
            return Err(StoreError::DuplicateKey);
        }
        if self.index_of_user(user_id).is_some() {
            return Err(StoreError::DuplicateKey);
        }
        let n = self.rows.len();
        if n >= (i32::MAX as usize) {
            return Err(StoreError::ValueOutOfRange);
        }
        match balances.create_balance(user_id, Money::zero(), now) {
            Err(_) => Err(StoreError::DuplicateKey),
            Ok(()) => {
                let row = UserAccount {
                    id: (n as i32) + 1,
                    user_id,
                    username: req.username.clone(),
                    email: req.email.clone(),
                    password: req.password.clone(),
                    created_at: now,
                    updated_at: now,
                };
                self.rows.push(row);
                Ok(user_id)
            },
        }
    }

    /// Register a new user: draw a fresh stable id and timestamp, then run
    /// [`UserDirectory::register`]. The id is drawn at random, so nothing is
    /// known of it; a taken email is refused whatever was drawn, each refusal
    /// is tied to its cause, and success is owed wherever no draw can
    /// collide: on an empty directory and balance store registration must
    /// succeed.
    pub fn register_user(&mut self, balances: &mut BalanceStore, req: &UserRegisterReq) -> (r:
        Result<u128, StoreError>)
        requires
            old(self).wf(),
            old(balances).wf(),
        ensures
            final(self).wf(),
            final(balances).wf(),
            email_taken(old(self)@, req.email@) ==> r is Err,
            old(self)@.len() == 0 && old(balances)@ == Map::<u128, int>::empty() ==> r is Ok,
            match r {
                Ok(uid) => !email_taken(old(self)@, req.email@) && !has_user(old(self)@, uid)
                    && !old(balances)@.contains_key(uid) && old(self)@.len() < i32::MAX && (
                exists|now: i64|
                    final(self)@ == old(self)@.push(
                        #[trigger] new_account(*req, uid, (old(self)@.len() + 1) as i32, now),
                    )) && final(balances)@ == old(balances)@.insert(uid, 0),
                Err(e) => final(self)@ == old(self)@ && final(balances)@ == old(balances)@ && match e {
                    StoreError::DuplicateKey => email_taken(old(self)@, req.email@) || old(
                        self,
                    )@.len() > 0 || old(balances)@ != Map::<u128, int>::empty(),
                    StoreError::ValueOutOfRange => old(self)@.len() >= i32::MAX,
                    _ => false,
                },
            },
    {
        let user_id = crate::engine::fresh_id();
        let now = crate::engine::current_millis();
        let r = self.register(balances, req, user_id, now);
        proof {
            if r is Ok {
                assert(self@ == old(self)@.push(
                    new_account(*req, user_id, (old(self)@.len() + 1) as i32, now),
                ));
            }
            if r == Err::<u128, StoreError>(StoreError::DuplicateKey) && old(
                balances,
            )@.contains_key(user_id) {
                assert(old(balances)@ != Map::<u128, int>::empty());
            }
        }
        r
    }

    /// Check sign-in credentials: the account carrying the email must exist
    /// and its password must match, character for character. A match answers
    /// with the account's stable id; anything else is one undistinguished
    /// refusal.
    pub fn authenticate(&self, req: &GetTokenReq) -> (r: Result<u128, AuthError>)
        requires
            self.wf(),
        ensures
            match r {
                Ok(uid) => email_taken(self@, req.email@) && ({
                    let row = self@[email_index(self@, req.email@)];
                    row.password@ == req.password@ && uid == row.user_id
                }),
                Err(AuthError::InvalidCredentials) => !email_taken(self@, req.email@) || self@[
                    email_index(self@, req.email@)
                ].password@ != req.password@,
            },
    {
        match self.index_of_email(&req.email) {
            None => Err(AuthError::InvalidCredentials),
            Some(i) => {
                proof {
                    let k = email_index(self@, req.email@);
                    assert(0 <= k < self@.len() && self@[k].email@ == req.email@);
                    assert(k == i as int);
                }
                if self.rows[i].password == req.password {
                    Ok(self.rows[i].user_id)
                } else {
                    Err(AuthError::InvalidCredentials)
                }
            },
        }
    }

    /// Look up an account by email.
    pub fn get_by_email(&self, email: &String) -> (r: Result<&UserAccount, StoreError>)
        requires
            self.wf(),
        ensures
            match r {
                Ok(u) => email_taken(self@, email@) && *u == self@[email_index(self@, email@)],
                Err(StoreError::NotFound) => !email_taken(self@, email@),
                Err(_) => false,
            },
    {
        match self.index_of_email(email) {
            None => Err(StoreError::NotFound),
            Some(i) => {
                proof {
                    let k = email_index(self@, email@);
                    assert(0 <= k < self@.len() && self@[k].email@ == email@);
                    assert(k == i as int);
                }
                Ok(&self.rows[i])
            },
        }
    }

    /// Look up an account by stable id.
    pub fn get_by_id(&self, user_id: u128) -> (r: Result<&UserAccount, StoreError>)
        requires
            self.wf(),
        ensures
            match r {
                Ok(u) => has_user(self@, user_id) && *u == self@[user_index(self@, user_id)],
                Err(StoreError::NotFound) => !has_user(self@, user_id),
                Err(_) => false,
            },
    {
        match self.index_of_user(user_id) {
            None => Err(StoreError::NotFound),
            Some(i) => {
                proof {
                    let k = user_index(self@, user_id);
                    assert(0 <= k < self@.len() && self@[k].user_id == user_id);
                    assert(k == i as int);
                }
                Ok(&self.rows[i])
            },
        }
    }

    /// Overwrite the username of the addressed account. Addressing a missing
    /// account changes nothing and is not an error, as an unconditional
    /// update.
    pub fn update_username(&mut self, user_id: u128, req: &UserUpdateReq)
        requires
            old(self).wf(),
        ensures
            final(self).wf(),
            has_user(old(self)@, user_id) ==> final(self)@ == old(self)@.update(
                user_index(old(self)@, user_id),
                (UserAccount {
                    username: req.username,
                    ..old(self)@[user_index(old(self)@, user_id)]
                }),
            ),
            !has_user(old(self)@, user_id) ==> final(self)@ == old(self)@,
    {
        match self.index_of_user(user_id) {
            None => (),
            Some(i) => {
                proof {
                    let k = user_index(self@, user_id);
                    assert(0 <= k < self@.len() && self@[k].user_id == user_id);
                    assert(k == i as int);
                }
                let updated = UserAccount {
                    id: self.rows[i].id,
                    user_id: self.rows[i].user_id,
                    username: req.username.clone(),
                    email: self.rows[i].email.clone(),
                    password: self.rows[i].password.clone(),
                    created_at: self.rows[i].created_at,
                    updated_at: self.rows[i].updated_at,
                };
                self.rows.set(i, updated);
            },
        }
    }

    /// Confirm that the authenticated serial id and the account carrying the
    /// email name the same user. Answers with the confirmed identity, or with
    /// a refusal naming what failed: a missing id, an unknown email, or a
    /// mismatch between the two.
    pub fn validate_user(&self, claimed: Option<i32>, email: &String) -> (r: Result<
        ValidateUserDetails,
        ValidateUserError,
    >)
        requires
            self.wf(),
        ensures
            match r {
                Ok(d) => claimed is Some && email_taken(self@, email@) && ({
                    let row = self@[email_index(self@, email@)];
                    row.id == claimed.unwrap() && d.uid == row.id && d.email@ == row.email@
                }),
                Err(e) => e.status@ == "Error"@ && ({
                    if claimed is None {
                        e.message@ == "user id not found"@
                    } else if !email_taken(self@, email@) {
                        e.message@ == "Invalid user details"@
                    } else {
                        self@[email_index(self@, email@)].id != claimed.unwrap() && e.message@
                            == "Not Authorized"@
                    }
                }),
            },
    {
        let uid = match claimed {
            Some(id) => id,
            None => {
                return Err(
                    ValidateUserError {
                        status: String::from_str("Error"),
                        message: String::from_str("user id not found"),
                    },
                );
            },
        };
        match self.index_of_email(email) {
            None => Err(
                ValidateUserError {
                    status: String::from_str("Error"),
                    message: String::from_str("Invalid user details"),
                },
            ),
            Some(i) => {
                proof {
                    let k = email_index(self@, email@);
                    assert(0 <= k < self@.len() && self@[k].email@ == email@);
                    assert(k == i as int);
                }
                if self.rows[i].id != uid {
                    Err(
                        ValidateUserError {
                            status: String::from_str("Error"),
                            message: String::from_str("Not Authorized"),
                        },
                    )
                } else {
                    Ok(ValidateUserDetails { uid: self.rows[i].id, email: self.rows[i].email.clone() })
                }
            },
        }
    }
}

} // verus!
