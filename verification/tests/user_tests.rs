use ledger::AuthError;
use ledger::BalanceStore;
use ledger::GetTokenReq;
use ledger::StoreError;
use ledger::UserDirectory;
use ledger::UserRegisterReq;
use ledger::UserUpdateReq;

fn req(username: &str, email: &str, password: &str) -> UserRegisterReq {
    UserRegisterReq {
        username: String::from(username),
        email: String::from(email),
        password: String::from(password),
    }
}

#[test]
fn registration_provisions_a_zero_balance() {
    let mut dir = UserDirectory::new();
    let mut balances = BalanceStore::new();
    let uid = dir.register(&mut balances, &req("test", "test@test.com", "test"), 77, 0).unwrap();
    assert_eq!(uid, 77);
    assert_eq!(balances.get_balance(77).unwrap().as_cents(), 0);
    let account = dir.get_by_id(77).unwrap();
    assert_eq!(account.id, 1);
    assert_eq!(account.username, "test");
    assert_eq!(account.email, "test@test.com");
}

#[test]
fn registration_with_a_random_id() {
    let mut dir = UserDirectory::new();
    let mut balances = BalanceStore::new();
    let uid = dir.register_user(&mut balances, &req("test", "test@test.com", "test")).unwrap();
    assert_eq!(balances.get_balance(uid).unwrap().as_cents(), 0);
    assert_eq!(dir.get_by_id(uid).unwrap().email, "test@test.com");
}

#[test]
fn duplicate_email_refused() {
    let mut dir = UserDirectory::new();
    let mut balances = BalanceStore::new();
    dir.register(&mut balances, &req("test", "test@test.com", "test"), 1, 0).unwrap();
    let r = dir.register(&mut balances, &req("other", "test@test.com", "pw"), 2, 0);
    assert_eq!(r, Err(StoreError::DuplicateKey));
    assert_eq!(balances.get_balance(2), Err(StoreError::NotFound));
    let r = dir.register_user(&mut balances, &req("other", "test@test.com", "pw"));
    assert_eq!(r, Err(StoreError::DuplicateKey));
}

#[test]
fn sign_in_checks_credentials() {
    let mut dir = UserDirectory::new();
    let mut balances = BalanceStore::new();
    dir.register(&mut balances, &req("test", "test@test.com", "test"), 5, 0).unwrap();
    let ok = dir.authenticate(&GetTokenReq {
        email: String::from("test@test.com"),
        password: String::from("test"),
    });
    assert_eq!(ok, Ok(5));
    let bad_password = dir.authenticate(&GetTokenReq {
        email: String::from("test@test.com"),
        password: String::from("wrong"),
    });
    assert_eq!(bad_password, Err(AuthError::InvalidCredentials));
    let unknown = dir.authenticate(&GetTokenReq {
        email: String::from("nobody@test.com"),
        password: String::from("test"),
    });
    assert_eq!(unknown, Err(AuthError::InvalidCredentials));
    assert_eq!(unknown.unwrap_err().message(), "Invalid Credentials");
}

#[test]
fn username_update_is_unconditional() {
    let mut dir = UserDirectory::new();
    let mut balances = BalanceStore::new();
    dir.register(&mut balances, &req("test", "test@test.com", "test"), 5, 0).unwrap();
    dir.update_username(5, &UserUpdateReq { username: String::from("test_updated") });
    assert_eq!(dir.get_by_id(5).unwrap().username, "test_updated");
    // A missing user is silently left alone, as an unconditional update.
    dir.update_username(9, &UserUpdateReq { username: String::from("nobody") });
    assert_eq!(dir.get_by_id(9), Err(StoreError::NotFound));
}

#[test]
fn lookup_by_email_and_serial_ids() {
    let mut dir = UserDirectory::new();
    let mut balances = BalanceStore::new();
    dir.register(&mut balances, &req("a", "a@test.com", "pa"), 1, 0).unwrap();
    dir.register(&mut balances, &req("b", "b@test.com", "pb"), 2, 0).unwrap();
    assert_eq!(dir.get_by_email(&String::from("b@test.com")).unwrap().id, 2);
    assert_eq!(dir.get_by_email(&String::from("a@test.com")).unwrap().user_id, 1);
    assert_eq!(dir.get_by_email(&String::from("c@test.com")), Err(StoreError::NotFound));
}

#[test]
fn identity_validation_names_what_failed() {
    let mut dir = UserDirectory::new();
    let mut balances = BalanceStore::new();
    dir.register(&mut balances, &req("test", "test@test.com", "test"), 5, 0).unwrap();
    let email = String::from("test@test.com");

    let missing = dir.validate_user(None, &email).unwrap_err();
    assert_eq!(missing.status, "Error");
    assert_eq!(missing.message, "user id not found");

    let unknown = dir.validate_user(Some(1), &String::from("nobody@test.com")).unwrap_err();
    assert_eq!(unknown.message, "Invalid user details");

    let mismatch = dir.validate_user(Some(2), &email).unwrap_err();
    assert_eq!(mismatch.message, "Not Authorized");

    let ok = dir.validate_user(Some(1), &email).unwrap();
    assert_eq!(ok.uid, 1);
    assert_eq!(ok.email, "test@test.com");
}
