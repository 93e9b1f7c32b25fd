use rwa_gold_protocol::decimal::Amount;
use rwa_gold_protocol::models::{Account, Bank, Market, UserRole};

fn parts(a: &Amount) -> (i128, u32) {
    (a.mantissa(), a.scale())
}

#[test]
fn new_account_is_empty() {
    let a = Account::new("Alchemist", Amount::new(5, 2), UserRole::Customer);
    assert_eq!(a.owner, "Alchemist");
    assert_eq!(a.role, UserRole::Customer);
    assert_eq!(parts(&a.balance), (0, 1));
    assert_eq!(parts(&a.gold_balance), (0, 1));
    assert_eq!(parts(&a.interest_rate), (5, 2));
}

#[test]
fn deposit_adds_to_balance() {
    let mut a = Account::new("Bond", Amount::new(0, 1), UserRole::Customer);
    a.deposit(Amount::new(1000, 2));
    assert_eq!(a.balance.to_text(), "10.00");
    a.deposit(Amount::new(5, 1));
    assert_eq!(a.balance.to_text(), "10.50");
    assert_eq!(parts(&a.gold_balance), (0, 1));
}

#[test]
fn apply_interest_uses_the_rate() {
    let mut a = Account::new("Saver", Amount::new(5, 2), UserRole::Customer);
    a.deposit(Amount::new(100, 0));
    a.apply_interest();
    assert_eq!(a.balance.to_text(), "105.00");
}

#[test]
fn withdraw_refuses_non_positive() {
    let mut a = Account::new("A", Amount::new(0, 1), UserRole::Customer);
    a.deposit(Amount::new(10, 0));
    assert_eq!(a.withdraw(Amount::new(0, 0)), Err(String::from("Cannot withdraw zero or negative amounts")));
    assert_eq!(a.withdraw(Amount::new(-5, 0)), Err(String::from("Cannot withdraw zero or negative amounts")));
    assert_eq!(a.balance.to_text(), "10");
}

#[test]
fn withdraw_refuses_more_than_balance() {
    let mut a = Account::new("A", Amount::new(0, 1), UserRole::Customer);
    a.deposit(Amount::new(10, 0));
    assert_eq!(a.withdraw(Amount::new(1001, 2)), Err(String::from("Insufficient funds for this transaction")));
    assert_eq!(a.balance.to_text(), "10");
}

#[test]
fn withdraw_takes_the_amount() {
    let mut a = Account::new("A", Amount::new(0, 1), UserRole::Customer);
    a.deposit(Amount::new(10, 0));
    assert_eq!(a.withdraw(Amount::new(10, 0)), Ok(()));
    assert_eq!(a.balance.to_text(), "0");
    a.deposit(Amount::new(10, 0));
    assert_eq!(a.withdraw(Amount::new(250, 2)), Ok(()));
    assert_eq!(a.balance.to_text(), "7.50");
}

#[test]
fn bank_files_and_finds_accounts() {
    let mut bank = Bank::new();
    assert_eq!(bank.find("alice"), None);
    bank.add_account("alice", Amount::new(5, 2), UserRole::Customer);
    bank.add_account("root", Amount::new(5, 2), UserRole::Admin);
    assert_eq!(bank.find("alice"), Some(0));
    assert_eq!(bank.find("root"), Some(1));
    assert_eq!(bank.find("bob"), None);
    assert_eq!(bank.accounts[1].1.role, UserRole::Admin);
}

#[test]
fn bank_replaces_an_account_under_the_same_name() {
    let mut bank = Bank::new();
    bank.add_account("alice", Amount::new(5, 2), UserRole::Customer);
    bank.accounts[0].1.deposit(Amount::new(40, 0));
    bank.add_account("alice", Amount::new(7, 2), UserRole::Admin);
    assert_eq!(bank.accounts.len(), 1);
    assert_eq!(bank.accounts[0].0, "alice");
    assert_eq!(bank.accounts[0].1.role, UserRole::Admin);
    assert_eq!(parts(&bank.accounts[0].1.balance), (0, 1));
    assert_eq!(parts(&bank.accounts[0].1.interest_rate), (7, 2));
}

#[test]
fn market_sets_the_price() {
    let mut m = Market { gold_price_per_gram: Amount::new(5000, 2) };
    m.update_price(Amount::new(6100, 2));
    assert_eq!(parts(&m.gold_price_per_gram), (6100, 2));
}

#[test]
fn admin_answer() {
    assert_eq!(UserRole::from_answer("y"), UserRole::Admin);
    assert_eq!(UserRole::from_answer("Y"), UserRole::Admin);
    assert_eq!(UserRole::from_answer("n"), UserRole::Customer);
    assert_eq!(UserRole::from_answer("yes"), UserRole::Customer);
    assert_eq!(UserRole::from_answer(""), UserRole::Customer);
}

#[test]
fn withdrawing_a_deposit_restores_the_balance() {
    let mut a = Account::new("A", Amount::new(0, 1), UserRole::Customer);
    a.deposit(Amount::new(1234, 2));
    a.deposit(Amount::new(5, 1));
    assert_eq!(a.withdraw(Amount::new(5, 1)), Ok(()));
    assert_eq!(a.balance.to_text(), "12.34");
}

#[test]
fn market_announces_the_price() {
    let mut m = Market { gold_price_per_gram: Amount::new(5000, 2) };
    m.update_price(Amount::new(6100, 2));
    assert_eq!(m.price_notice(), "Attention! Updated gold price: 61.00");
}

#[test]
fn deposit_notices() {
    let mut a = Account::new("alice", Amount::new(5, 2), UserRole::Customer);
    a.deposit(Amount::new(2500, 2));
    assert_eq!(a.deposit_notice(Amount::new(2500, 2)), "Success: $25.00 deposited to alice's account.");
    assert_eq!(a.balance_notice(), "Deposited! New balance: $25.00");
}

#[test]
fn withdraw_never_raises_the_balance() {
    let mut a = Account::new("alice", Amount::new(5, 2), UserRole::Customer);
    a.deposit(Amount::new(10, 0));
    assert!(a.withdraw(Amount::new(-5, 0)).is_err());
    assert_eq!(a.balance.to_text(), "10");
    assert_eq!(a.withdraw(Amount::new(25, 1)), Ok(()));
    assert_eq!(a.balance.to_text(), "7.5");
}
