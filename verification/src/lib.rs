//! A custodial ledger: per-user monetary balances and an auditable history of
//! movements (deposits, withdrawals, transfers) between them.
//!
//! The transaction engine validates a requested movement against the current
//! balances, records it, applies the balance changes, and keeps the record's
//! status consistent with whether the changes actually took effect.


mod balance;
mod engine;
mod errors;
mod money;
mod records;
mod users;

pub use balance::BalanceRow;
pub use balance::BalanceStore;
pub use engine::Ledger;
pub use engine::MovementRequest;
pub use errors::AuthError;
pub use errors::EngineError;
pub use errors::RequestFault;
pub use errors::StoreError;
pub use money::Money;
pub use records::RecordStore;
pub use records::TransactionRecord;
pub use records::TransactionType;
pub use records::TxStatus;
pub use users::GetTokenReq;
pub use users::UserAccount;
pub use users::UserDirectory;
pub use users::UserRegisterReq;
pub use users::UserUpdateReq;
pub use users::ValidateUserDetails;
pub use users::ValidateUserError;
