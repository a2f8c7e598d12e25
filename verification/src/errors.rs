//! Error taxonomy of the ledger.
//!
//! Store-level failures are reported by the stores themselves; the engine
//! folds them, together with its own validation failures, into the
//! caller-facing [`EngineError`].

use vstd::prelude::*;

verus! {

/// A failure reported by one of the data stores.
#[derive(Clone, Copy, PartialEq, Eq, Structural, Debug)]
pub enum StoreError {
    /// The addressed row does not exist.
    NotFound,
    /// A row with the same unique key already exists.
    DuplicateKey,
    /// A status write that would take a record out of a terminal status.
    InvalidTransition,
    /// The value to write is not representable by the store.
    ValueOutOfRange,
}

/// Why a movement request was refused: carried by
/// [`EngineError::InvalidRequest`].
#[derive(Clone, Copy, PartialEq, Eq, Structural, Debug)]
pub enum RequestFault {
    /// The amount was zero or negative.
    NonPositiveAmount,
    /// A deposit or withdrawal named a receiver.
    CrossAccount,
    /// A transfer named no receiver, or named the caller as receiver.
    SelfTransfer,
}

/// A failure of the credential check.
#[derive(Clone, Copy, PartialEq, Eq, Structural, Debug)]
pub enum AuthError {
    /// No account carries the email, or the password does not match.
    InvalidCredentials,
}

impl AuthError {
    /// The human-readable reason attached to the error response.
    pub fn message(&self) -> (r: &'static str)
        ensures
            r@ == "Invalid Credentials"@,
    {
        "Invalid Credentials"
    }
}

/// A caller-facing failure of an engine operation.
#[derive(Clone, Copy, PartialEq, Eq, Structural, Debug)]
pub enum EngineError {
    /// A referenced sender or receiver has no balance row.
    UserNotFound,
    /// The movement itself is malformed.
    InvalidRequest(RequestFault),
    /// The caller's balance does not cover the amount.
    InsufficientFunds,
    /// A store operation failed after validation passed.
    PersistenceError,
    /// The addressed transaction record does not exist.
    RecordNotFound,
    /// The caller asked for a record it does not own.
    Unauthorized,
}

impl EngineError {
    /// The human-readable reason attached to the error response.
    pub fn message(&self) -> (r: &'static str)
        ensures
            r@ == self.spec_message(),
    {
        match self {
            EngineError::UserNotFound => "Requested item not found",
            EngineError::InvalidRequest(RequestFault::NonPositiveAmount) => {
                "Amount must be positive"
            },
            EngineError::InvalidRequest(RequestFault::CrossAccount) => {
                "Cannot be done for different account"
            },
            EngineError::InvalidRequest(RequestFault::SelfTransfer) => {
                "Cannot be done for same user"
            },
            EngineError::InsufficientFunds => "Insufficient Balance",
            EngineError::PersistenceError => "Store operation failed",
            EngineError::RecordNotFound => "Requested item not found",
            EngineError::Unauthorized => "Unauthorized to access the transaction",
        }
    }

    /// The reason text, as a sequence of characters.
    pub open spec fn spec_message(&self) -> Seq<char> {
        match self {
            EngineError::UserNotFound => "Requested item not found"@,
            EngineError::InvalidRequest(RequestFault::NonPositiveAmount) => {
                "Amount must be positive"@
            },
            EngineError::InvalidRequest(RequestFault::CrossAccount) => {
                "Cannot be done for different account"@
            },
            EngineError::InvalidRequest(RequestFault::SelfTransfer) => {
                "Cannot be done for same user"@
            },
            EngineError::InsufficientFunds => "Insufficient Balance"@,
            EngineError::PersistenceError => "Store operation failed"@,
            EngineError::RecordNotFound => "Requested item not found"@,
            EngineError::Unauthorized => "Unauthorized to access the transaction"@,
        }
    }
}

} // verus!
