use rwa_gold_protocol::decimal::Amount;
use rwa_gold_protocol::models::{Account, UserRole};
use rwa_gold_protocol::protocol::RwaProtocol;

const MAX: i128 = 79228162514264337593543950335;

fn whole(n: i128) -> Amount {
    Amount::from_i128_with_scale(n, 0)
}

fn parts(a: &Amount) -> (i128, u32) {
    (a.mantissa(), a.scale())
}

fn funded(balance: i128) -> RwaProtocol {
    let mut p = RwaProtocol::new();
    p.bank.add_account("alice", Amount::new(5, 2), UserRole::Customer);
    p.bank.add_account("bob", Amount::new(5, 2), UserRole::Customer);
    let k = p.bank.find("alice").unwrap();
    p.bank.accounts[k].1.balance = whole(balance);
    p
}

#[test]
fn large_purchase_goes_through() {
    let mut p = funded(30_000_000_000_000_000_000_000_000_000);
    p.physical_vault_grams = whole(20_000_000_000_000_000_000_000_000_000);
    p.gold_price_inr = whole(1);
    let grams = whole(10_000_000_000_000_000_000_000_000_000);
    assert_eq!(p.try_buy_tokens("alice", grams), Some(Ok(())));
    let k = p.bank.find("alice").unwrap();
    assert_eq!(p.bank.accounts[k].1.gold_balance.to_text(), "10000000000000000000000000000");
    assert_eq!(p.bank.accounts[k].1.balance.to_text(), "19990000000000000000000000000");
    assert_eq!(p.total_token_supply.to_text(), "10000000000000000000000000000");
    assert_eq!(p.history.len(), 1);
}

#[test]
fn purchase_that_would_overflow_the_supply_changes_nothing() {
    let mut p = funded(1000);
    p.total_token_supply = whole(MAX);
    let r = p.try_buy_tokens("alice", whole(1));
    assert_eq!(r, None);
    assert_eq!(parts(&p.total_token_supply), (MAX, 0));
    assert!(p.history.is_empty());
}

#[test]
fn purchase_whose_cost_overflows_changes_nothing() {
    let mut p = funded(1000);
    p.physical_vault_grams = whole(MAX);
    p.gold_price_inr = whole(MAX);
    assert_eq!(p.try_buy_tokens("alice", whole(2)), None);
    assert!(p.history.is_empty());
}

#[test]
fn sale_whose_payout_overflows_changes_nothing() {
    let mut p = funded(MAX);
    let k = p.bank.find("alice").unwrap();
    p.bank.accounts[k].1.gold_balance = whole(5);
    p.total_token_supply = whole(5);
    p.gold_price_inr = whole(1);
    assert_eq!(p.try_sell_tokens("alice", whole(5)), None);
    assert_eq!(parts(&p.bank.accounts[k].1.gold_balance), (5, 0));
    assert!(p.history.is_empty());
}

#[test]
fn transfer_that_would_overflow_the_recipient_changes_nothing() {
    let mut p = funded(0);
    let ka = p.bank.find("alice").unwrap();
    let kb = p.bank.find("bob").unwrap();
    p.bank.accounts[ka].1.gold_balance = whole(10);
    p.bank.accounts[kb].1.gold_balance = whole(MAX);
    assert_eq!(p.try_transfer_tokens("alice", "bob", whole(1)), None);
    assert_eq!(parts(&p.bank.accounts[ka].1.gold_balance), (10, 0));
    assert!(p.history.is_empty());
}

#[test]
fn large_transfer_goes_through() {
    let mut p = funded(0);
    let ka = p.bank.find("alice").unwrap();
    let kb = p.bank.find("bob").unwrap();
    p.bank.accounts[ka].1.gold_balance = whole(50_000_000_000_000_000_000_000_000_000);
    p.bank.accounts[kb].1.gold_balance = whole(20_000_000_000_000_000_000_000_000_000);
    let grams = whole(40_000_000_000_000_000_000_000_000_000);
    assert_eq!(p.try_transfer_tokens("alice", "bob", grams), Some(Ok(())));
    assert_eq!(p.bank.accounts[ka].1.gold_balance.to_text(), "10000000000000000000000000000");
    assert_eq!(p.bank.accounts[kb].1.gold_balance.to_text(), "60000000000000000000000000000");
}

#[test]
fn yield_that_would_overflow_changes_nothing() {
    let mut p = funded(MAX);
    assert!(!p.try_distribute_yield());
    let k = p.bank.find("alice").unwrap();
    assert_eq!(parts(&p.bank.accounts[k].1.balance), (MAX, 0));
}

#[test]
fn yield_on_a_large_balance() {
    let mut p = funded(50_000_000_000_000_000_000_000_000_000);
    assert!(p.try_distribute_yield());
    let k = p.bank.find("alice").unwrap();
    assert_eq!(p.bank.accounts[k].1.balance.to_text(), "50005000000000000000000000000");
}

#[test]
fn audit_that_would_overflow_gives_none() {
    let mut p = funded(0);
    let ka = p.bank.find("alice").unwrap();
    let kb = p.bank.find("bob").unwrap();
    p.bank.accounts[ka].1.gold_balance = whole(MAX);
    p.bank.accounts[kb].1.gold_balance = whole(MAX);
    assert!(p.try_perform_audit().is_none());
}

#[test]
fn audit_of_large_holdings() {
    let mut p = funded(0);
    let ka = p.bank.find("alice").unwrap();
    p.bank.accounts[ka].1.gold_balance = whole(MAX);
    p.total_token_supply = whole(MAX);
    let report = p.try_perform_audit().unwrap();
    assert_eq!(parts(&report.total_gold_in_accounts), (MAX, 0));
    assert!(report.ledger_consistent);
    assert!(!report.fully_collateralized);
}

#[test]
fn withdraw_from_the_largest_balance() {
    let mut a = Account::new("alice", Amount::new(5, 2), UserRole::Customer);
    a.balance = whole(MAX);
    assert_eq!(a.withdraw(whole(1)), Ok(()));
    assert_eq!(parts(&a.balance), (MAX - 1, 0));
}

#[test]
fn deposit_beyond_a_billion_billion() {
    let mut a = Account::new("alice", Amount::new(5, 2), UserRole::Customer);
    a.deposit(whole(60_000_000_000_000_000_000_000_000_000));
    assert_eq!(a.balance.to_text(), "60000000000000000000000000000");
}

#[test]
fn interest_that_would_overflow_changes_nothing() {
    let mut a = Account::new("alice", Amount::new(5, 2), UserRole::Customer);
    a.balance = whole(MAX);
    assert!(!a.try_apply_interest());
    assert_eq!(parts(&a.balance), (MAX, 0));
}

#[test]
fn trades_are_stamped_with_the_clock() {
    let mut p = funded(100000);
    assert_eq!(p.buy_tokens("alice", Amount::new(1, 0)), Ok(()));
    let t = p.history[0].timestamp;
    assert!(t.secs > 1_600_000_000);
    assert!(t.nanos < 1_000_000_000);
}
