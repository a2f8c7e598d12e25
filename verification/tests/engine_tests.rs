use ledger::EngineError;
use ledger::Ledger;
use ledger::Money;
use ledger::MovementRequest;
use ledger::RequestFault;
use ledger::TransactionType;
use ledger::TxStatus;

fn deposit(amount_cents: i64) -> MovementRequest {
    MovementRequest {
        receiver: None,
        amount: Money::from_cents(amount_cents),
        kind: TransactionType::Deposit,
    }
}

fn withdrawal(amount_cents: i64) -> MovementRequest {
    MovementRequest {
        receiver: None,
        amount: Money::from_cents(amount_cents),
        kind: TransactionType::Withdrawal,
    }
}

fn transfer(receiver: u128, amount_cents: i64) -> MovementRequest {
    MovementRequest {
        receiver: Some(receiver),
        amount: Money::from_cents(amount_cents),
        kind: TransactionType::Transfer,
    }
}

fn balance_cents(ledger: &Ledger, user: u128) -> i64 {
    ledger.balance_of(user).unwrap().as_cents()
}

#[test]
fn deposit_completes_and_adds() {
    let mut ledger = Ledger::new();
    ledger.create_account(1, 0).unwrap();
    let r = ledger.execute_with(1, deposit(10_000), 42, 7);
    assert_eq!(r, Ok(42));
    assert_eq!(balance_cents(&ledger, 1), 10_000);
    let rec = ledger.fetch_transaction(1, 42).unwrap();
    assert_eq!(rec.status, TxStatus::Completed);
    assert_eq!(rec.kind, TransactionType::Deposit);
    assert_eq!(rec.sender, 1);
    assert_eq!(rec.receiver, 1);
    assert_eq!(rec.amount.as_cents(), 10_000);
    assert_eq!(rec.created_at, 7);
}

#[test]
fn withdrawal_subtracts() {
    let mut ledger = Ledger::new();
    ledger.create_account(1, 0).unwrap();
    ledger.execute_with(1, deposit(10_000), 1, 0).unwrap();
    let r = ledger.execute_with(1, withdrawal(3_000), 2, 0);
    assert_eq!(r, Ok(2));
    assert_eq!(balance_cents(&ledger, 1), 7_000);
    assert_eq!(ledger.fetch_transaction(1, 2).unwrap().status, TxStatus::Completed);
}

#[test]
fn withdrawal_beyond_balance_fails_and_changes_nothing() {
    let mut ledger = Ledger::new();
    ledger.create_account(1, 0).unwrap();
    ledger.execute_with(1, deposit(5_000), 1, 0).unwrap();
    let r = ledger.execute_with(1, withdrawal(5_001), 2, 0);
    assert_eq!(r, Err(EngineError::InsufficientFunds));
    assert_eq!(balance_cents(&ledger, 1), 5_000);
    assert_eq!(ledger.list_transactions(1).len(), 1);
}

#[test]
fn transfer_moves_and_conserves() {
    let mut ledger = Ledger::new();
    ledger.create_account(1, 0).unwrap();
    ledger.create_account(2, 0).unwrap();
    ledger.execute_with(1, deposit(10_000), 1, 0).unwrap();
    let before = balance_cents(&ledger, 1) + balance_cents(&ledger, 2);
    let r = ledger.execute_with(1, transfer(2, 4_000), 2, 0);
    assert_eq!(r, Ok(2));
    assert_eq!(balance_cents(&ledger, 1), 6_000);
    assert_eq!(balance_cents(&ledger, 2), 4_000);
    assert_eq!(balance_cents(&ledger, 1) + balance_cents(&ledger, 2), before);
    let rec = ledger.fetch_transaction(1, 2).unwrap();
    assert_eq!(rec.sender, 1);
    assert_eq!(rec.receiver, 2);
    assert_eq!(rec.status, TxStatus::Completed);
}

#[test]
fn self_transfer_always_invalid() {
    let mut ledger = Ledger::new();
    ledger.create_account(1, 0).unwrap();
    ledger.execute_with(1, deposit(10_000), 1, 0).unwrap();
    let r = ledger.execute_with(1, transfer(1, 100), 2, 0);
    assert_eq!(r, Err(EngineError::InvalidRequest(RequestFault::SelfTransfer)));
    assert_eq!(balance_cents(&ledger, 1), 10_000);
    let e = r.unwrap_err();
    assert_eq!(e.message(), "Cannot be done for same user");
}

#[test]
fn transfer_without_receiver_invalid() {
    let mut ledger = Ledger::new();
    ledger.create_account(1, 0).unwrap();
    ledger.execute_with(1, deposit(100), 1, 0).unwrap();
    let req = MovementRequest {
        receiver: None,
        amount: Money::from_cents(50),
        kind: TransactionType::Transfer,
    };
    let r = ledger.execute_with(1, req, 2, 0);
    assert_eq!(r, Err(EngineError::InvalidRequest(RequestFault::SelfTransfer)));
}

#[test]
fn deposit_or_withdrawal_with_receiver_invalid() {
    let mut ledger = Ledger::new();
    ledger.create_account(1, 0).unwrap();
    ledger.create_account(2, 0).unwrap();
    ledger.execute_with(1, deposit(10_000), 1, 0).unwrap();
    let mut req = deposit(100);
    req.receiver = Some(2);
    let r = ledger.execute_with(1, req, 2, 0);
    assert_eq!(r, Err(EngineError::InvalidRequest(RequestFault::CrossAccount)));
    assert_eq!(r.unwrap_err().message(), "Cannot be done for different account");
    let mut req = withdrawal(100);
    req.receiver = Some(2);
    let r = ledger.execute_with(1, req, 2, 0);
    assert_eq!(r, Err(EngineError::InvalidRequest(RequestFault::CrossAccount)));
    assert_eq!(balance_cents(&ledger, 1), 10_000);
    assert_eq!(balance_cents(&ledger, 2), 0);
}

#[test]
fn non_positive_amount_invalid() {
    let mut ledger = Ledger::new();
    ledger.create_account(1, 0).unwrap();
    let r = ledger.execute_with(1, deposit(0), 1, 0);
    assert_eq!(r, Err(EngineError::InvalidRequest(RequestFault::NonPositiveAmount)));
    let r = ledger.execute_with(1, withdrawal(-5), 2, 0);
    assert_eq!(r, Err(EngineError::InvalidRequest(RequestFault::NonPositiveAmount)));
    assert!(ledger.list_transactions(1).is_empty());
}

#[test]
fn unknown_users_rejected() {
    let mut ledger = Ledger::new();
    let r = ledger.execute_with(9, deposit(100), 1, 0);
    assert_eq!(r, Err(EngineError::UserNotFound));
    ledger.create_account(1, 0).unwrap();
    ledger.execute_with(1, deposit(100), 1, 0).unwrap();
    let r = ledger.execute_with(1, transfer(9, 50), 2, 0);
    assert_eq!(r, Err(EngineError::UserNotFound));
    assert_eq!(balance_cents(&ledger, 1), 100);
}

#[test]
fn colliding_record_id_aborts_before_any_write() {
    let mut ledger = Ledger::new();
    ledger.create_account(1, 0).unwrap();
    ledger.execute_with(1, deposit(100), 7, 0).unwrap();
    let r = ledger.execute_with(1, deposit(100), 7, 0);
    assert_eq!(r, Err(EngineError::PersistenceError));
    assert_eq!(balance_cents(&ledger, 1), 100);
    assert_eq!(ledger.list_transactions(1).len(), 1);
}

#[test]
fn unrepresentable_balance_leaves_failed_record() {
    let mut ledger = Ledger::new();
    ledger.create_account(1, 0).unwrap();
    ledger.execute_with(1, deposit(i64::MAX), 1, 0).unwrap();
    assert_eq!(balance_cents(&ledger, 1), i64::MAX);
    let r = ledger.execute_with(1, deposit(1), 2, 0);
    assert_eq!(r, Err(EngineError::PersistenceError));
    assert_eq!(balance_cents(&ledger, 1), i64::MAX);
    let rec = ledger.fetch_transaction(1, 2).unwrap();
    assert_eq!(rec.status, TxStatus::Failed);
}

#[test]
fn full_scenario_two_users() {
    let mut ledger = Ledger::new();
    // User A starts at 0.00 and deposits 100.00.
    ledger.create_account(10, 0).unwrap();
    assert_eq!(balance_cents(&ledger, 10), 0);
    ledger.execute_with(10, deposit(10_000), 1, 0).unwrap();
    assert_eq!(balance_cents(&ledger, 10), 10_000);
    assert_eq!(ledger.fetch_transaction(10, 1).unwrap().status, TxStatus::Completed);
    // A withdraws 30.00.
    ledger.execute_with(10, withdrawal(3_000), 2, 0).unwrap();
    assert_eq!(balance_cents(&ledger, 10), 7_000);
    // A transfers 20.00 to B, who starts at 0.00.
    ledger.create_account(20, 0).unwrap();
    ledger.execute_with(10, transfer(20, 2_000), 3, 0).unwrap();
    assert_eq!(balance_cents(&ledger, 10), 5_000);
    assert_eq!(balance_cents(&ledger, 20), 2_000);
    let recs = ledger.list_transactions(20);
    assert_eq!(recs.len(), 1);
    assert_eq!(recs[0].sender, 10);
    assert_eq!(recs[0].receiver, 20);
    let deposit_rec = ledger.fetch_transaction(10, 1).unwrap();
    assert_eq!(deposit_rec.sender, 10);
    assert_eq!(deposit_rec.receiver, 10);
    // A tries to withdraw 1000.00 and is refused; nothing changes.
    let r = ledger.execute_with(10, withdrawal(100_000), 4, 0);
    assert_eq!(r, Err(EngineError::InsufficientFunds));
    assert_eq!(balance_cents(&ledger, 10), 5_000);
    assert_eq!(ledger.list_transactions(10).len(), 3);
}

#[test]
fn execute_draws_fresh_ids() {
    let mut ledger = Ledger::new();
    ledger.create_account(1, 0).unwrap();
    let first = ledger.execute(1, deposit(2_500)).unwrap();
    let second = ledger.execute(1, deposit(2_500)).unwrap();
    assert_ne!(first, second);
    assert_eq!(balance_cents(&ledger, 1), 5_000);
    let recs = ledger.list_transactions(1);
    assert_eq!(recs.len(), 2);
    assert_eq!(recs[0].status, TxStatus::Completed);
    assert_eq!(recs[1].status, TxStatus::Completed);
    assert_eq!(ledger.fetch_transaction(1, first).unwrap().transaction_id, first);
}

#[test]
fn only_the_sender_may_fetch() {
    let mut ledger = Ledger::new();
    ledger.create_account(1, 0).unwrap();
    ledger.create_account(2, 0).unwrap();
    ledger.execute_with(1, deposit(1_000), 1, 0).unwrap();
    ledger.execute_with(1, transfer(2, 400), 2, 0).unwrap();
    // The receiver of the transfer is a party to it, but lookup by id is
    // refused for anyone but the sender.
    let r = ledger.fetch_transaction(2, 2);
    assert_eq!(r, Err(EngineError::Unauthorized));
    assert!(ledger.fetch_transaction(1, 2).is_ok());
}

#[test]
fn fetching_a_missing_record_fails() {
    let mut ledger = Ledger::new();
    let r = ledger.fetch_transaction(1, 99);
    assert_eq!(r, Err(EngineError::RecordNotFound));
    assert_eq!(r.unwrap_err().message(), "Requested item not found");
}

#[test]
fn listing_filters_by_participant() {
    let mut ledger = Ledger::new();
    ledger.create_account(1, 0).unwrap();
    ledger.create_account(2, 0).unwrap();
    ledger.create_account(3, 0).unwrap();
    ledger.execute_with(1, deposit(1_000), 1, 0).unwrap();
    ledger.execute_with(1, transfer(2, 300), 2, 0).unwrap();
    ledger.execute_with(2, transfer(3, 100), 3, 0).unwrap();
    let for_one: Vec<u128> =
        ledger.list_transactions(1).iter().map(|t| t.transaction_id).collect();
    assert_eq!(for_one, vec![1, 2]);
    let for_two: Vec<u128> =
        ledger.list_transactions(2).iter().map(|t| t.transaction_id).collect();
    assert_eq!(for_two, vec![2, 3]);
    let for_three: Vec<u128> =
        ledger.list_transactions(3).iter().map(|t| t.transaction_id).collect();
    assert_eq!(for_three, vec![3]);
    assert!(ledger.list_transactions(4).is_empty());
}
