use rwa_gold_protocol::decimal::Amount;
use rwa_gold_protocol::models::UserRole;
use rwa_gold_protocol::protocol::RwaProtocol;

fn parts(a: &Amount) -> (i128, u32) {
    (a.mantissa(), a.scale())
}

fn gold_of(p: &RwaProtocol, name: &str) -> String {
    let k = p.bank.find(name).unwrap();
    p.bank.accounts[k].1.gold_balance.to_text()
}

fn rupees_of(p: &RwaProtocol, name: &str) -> String {
    let k = p.bank.find(name).unwrap();
    p.bank.accounts[k].1.balance.to_text()
}

fn setup() -> RwaProtocol {
    let mut p = RwaProtocol::new();
    p.bank.add_account("alice", Amount::new(5, 2), UserRole::Customer);
    p.bank.add_account("bob", Amount::new(5, 2), UserRole::Customer);
    p.bank.add_account("root", Amount::new(5, 2), UserRole::Admin);
    let k = p.bank.find("alice").unwrap();
    p.bank.accounts[k].1.deposit(Amount::new(20000, 0));
    p
}

#[test]
fn new_protocol_starting_values() {
    let p = RwaProtocol::new();
    assert_eq!(parts(&p.total_token_supply), (0, 1));
    assert_eq!(parts(&p.physical_vault_grams), (100000, 2));
    assert_eq!(parts(&p.gold_price_inr), (625600, 2));
    assert!(p.history.is_empty());
    assert!(p.bank.accounts.is_empty());
}

#[test]
fn buy_refused_beyond_vault() {
    let mut p = setup();
    let r = p.buy_tokens("alice", Amount::new(100001, 2));
    assert_eq!(r, Err(String::from("PROTOCOL ERROR: Not enough physical gold in vault!")));
    assert_eq!(parts(&p.total_token_supply), (0, 1));
    assert!(p.history.is_empty());
}

#[test]
fn buy_refused_for_unknown_account() {
    let mut p = setup();
    assert_eq!(p.buy_tokens("carol", Amount::new(1, 0)), Err(String::from("Account not found")));
}

#[test]
fn buy_refused_without_rupees() {
    let mut p = setup();
    let r = p.buy_tokens("bob", Amount::new(2, 0));
    assert_eq!(r, Err(String::from("Insufficient INR. Need: 12524.51200, Have: 0.0")));
    assert_eq!(gold_of(&p, "bob"), "0.0");
    assert!(p.history.is_empty());
}

#[test]
fn buy_mints_tokens_and_charges_fee() {
    let mut p = setup();
    assert_eq!(p.buy_tokens("alice", Amount::new(2, 0)), Ok(()));
    assert_eq!(gold_of(&p, "alice"), "2");
    assert_eq!(rupees_of(&p, "alice"), "7475.48800");
    assert_eq!(parts(&p.total_token_supply), (2, 0));
    assert_eq!(p.history.len(), 1);
    assert_eq!(p.history[0].owner, "alice");
    assert_eq!(p.history[0].action, "BUY");
    assert_eq!(parts(&p.history[0].amount), (2, 0));
    assert_eq!(parts(&p.history[0].price_at_time), (625600, 2));
}

#[test]
fn buy_up_to_the_whole_vault() {
    let mut p = setup();
    let k = p.bank.find("alice").unwrap();
    p.bank.accounts[k].1.deposit(Amount::new(10_000_000, 0));
    assert_eq!(p.buy_tokens("alice", Amount::new(1000, 0)), Ok(()));
    assert_eq!(parts(&p.total_token_supply), (1000, 0));
    assert_eq!(
        p.buy_tokens("alice", Amount::new(1, 2)),
        Err(String::from("PROTOCOL ERROR: Not enough physical gold in vault!"))
    );
}

#[test]
fn sell_refused_for_unknown_account() {
    let mut p = setup();
    assert_eq!(p.sell_tokens("carol", Amount::new(1, 0)), Err(String::from("Account not found")));
}

#[test]
fn sell_refused_beyond_holdings() {
    let mut p = setup();
    let r = p.sell_tokens("alice", Amount::new(15, 1));
    assert_eq!(r, Err(String::from("Insufficient Gold Tokens. Have: 0.0g, Trying to sell: 1.5g")));
    assert!(p.history.is_empty());
}

#[test]
fn sell_burns_tokens_and_pays_out() {
    let mut p = setup();
    assert_eq!(p.buy_tokens("alice", Amount::new(2, 0)), Ok(()));
    assert_eq!(p.sell_tokens("alice", Amount::new(5, 1)), Ok(()));
    assert_eq!(gold_of(&p, "alice"), "1.5");
    assert_eq!(parts(&p.total_token_supply), (15, 1));
    // 7475.48800 + 0.5 * 6256.00 = 10603.48800
    assert_eq!(rupees_of(&p, "alice"), "10603.48800");
    assert_eq!(p.history.len(), 2);
    assert_eq!(p.history[1].action, "SELL");
}

#[test]
fn transfer_refusals() {
    let mut p = setup();
    assert_eq!(p.transfer_tokens("carol", "bob", Amount::new(1, 0)), Err(String::from("Sender not found")));
    assert_eq!(p.transfer_tokens("alice", "carol", Amount::new(1, 0)), Err(String::from("Recipient not found")));
    assert_eq!(
        p.transfer_tokens("alice", "bob", Amount::new(1, 0)),
        Err(String::from("Insufficient gold balance for transfer"))
    );
    assert!(p.history.is_empty());
}

#[test]
fn transfer_moves_tokens() {
    let mut p = setup();
    assert_eq!(p.buy_tokens("alice", Amount::new(2, 0)), Ok(()));
    assert_eq!(p.transfer_tokens("alice", "bob", Amount::new(75, 2)), Ok(()));
    assert_eq!(gold_of(&p, "alice"), "1.25");
    assert_eq!(gold_of(&p, "bob"), "0.75");
    assert_eq!(parts(&p.total_token_supply), (2, 0));
    assert_eq!(p.history[1].action, "TRANSFER TO bob");
    assert_eq!(p.history[1].owner, "alice");
}

#[test]
fn transfer_to_self_keeps_holdings() {
    let mut p = setup();
    assert_eq!(p.buy_tokens("alice", Amount::new(2, 0)), Ok(()));
    assert_eq!(p.transfer_tokens("alice", "alice", Amount::new(1, 0)), Ok(()));
    assert_eq!(gold_of(&p, "alice"), "2");
    assert_eq!(p.history.len(), 2);
}

#[test]
fn inventory_only_for_admins() {
    let mut p = setup();
    assert_eq!(p.admin_add_inventory("carol", Amount::new(5, 0)), Err(String::from("Admin account not found")));
    assert_eq!(
        p.admin_add_inventory("alice", Amount::new(5, 0)),
        Err(String::from("Access Denied: You are not authorised"))
    );
    assert_eq!(parts(&p.physical_vault_grams), (100000, 2));
    assert_eq!(p.admin_add_inventory("root", Amount::new(5, 0)), Ok(()));
    assert_eq!(parts(&p.physical_vault_grams), (100500, 2));
    assert_eq!(p.history.len(), 1);
    assert_eq!(p.history[0].action, "VAULT_REPLENISH");
    assert_eq!(p.history[0].owner, "root");
}

#[test]
fn oracle_moves_price() {
    let mut p = setup();
    p.apply_oracle_shift(Amount::new(-25, 2));
    assert_eq!(parts(&p.gold_price_inr), (625575, 2));
}

#[test]
fn oracle_resets_low_price() {
    let mut p = setup();
    p.apply_oracle_shift(Amount::new(-624700, 2));
    // 9.00 is below 10.0, so the price is reset to 60.0
    assert_eq!(parts(&p.gold_price_inr), (600, 1));
    p.apply_oracle_shift(Amount::new(-500, 1));
    // exactly 10.0 stays
    assert_eq!(p.gold_price_inr.to_text(), "10.0");
}

#[test]
fn yield_only_for_positive_balances() {
    let mut p = setup();
    let k = p.bank.find("bob").unwrap();
    p.bank.accounts[k].1.deposit(Amount::new(-10, 0));
    p.distribute_yield();
    assert_eq!(rupees_of(&p, "alice"), "20002.0000");
    assert_eq!(rupees_of(&p, "bob"), "-10");
    assert_eq!(rupees_of(&p, "root"), "0.0");
}

#[test]
fn audit_on_balanced_ledger() {
    let mut p = setup();
    assert_eq!(p.buy_tokens("alice", Amount::new(2, 0)), Ok(()));
    assert_eq!(p.transfer_tokens("alice", "bob", Amount::new(5, 1)), Ok(()));
    let report = p.perform_audit();
    assert_eq!(report.total_gold_in_accounts.to_text(), "2.0");
    assert!(report.ledger_consistent);
    assert!(report.fully_collateralized);
}

#[test]
fn audit_detects_mismatch() {
    let mut p = setup();
    let k = p.bank.find("bob").unwrap();
    p.bank.accounts[k].1.gold_balance = Amount::new(3, 0);
    p.total_token_supply = Amount::new(2000, 0);
    let report = p.perform_audit();
    assert!(!report.ledger_consistent);
    assert!(!report.fully_collateralized);
    assert_eq!(parts(&report.total_gold_in_accounts), (3, 0));
}

#[test]
fn reopening_an_account_resets_it() {
    let mut p = setup();
    assert_eq!(p.buy_tokens("alice", Amount::new(1, 0)), Ok(()));
    p.bank.add_account("alice", Amount::new(5, 2), UserRole::Customer);
    assert_eq!(gold_of(&p, "alice"), "0.0");
    assert!(!p.perform_audit().ledger_consistent);
}

#[test]
fn selling_what_was_bought_restores_tokens() {
    let mut p = setup();
    assert_eq!(p.buy_tokens("alice", Amount::new(125, 2)), Ok(()));
    assert_eq!(p.sell_tokens("alice", Amount::new(125, 2)), Ok(()));
    assert!(Amount::new(0, 0).le(&p.bank.accounts[0].1.gold_balance));
    assert!(p.bank.accounts[0].1.gold_balance.le(&Amount::new(0, 0)));
    assert!(p.total_token_supply.le(&Amount::new(0, 0)) && Amount::new(0, 0).le(&p.total_token_supply));
    assert_eq!(parts(&p.physical_vault_grams), (100000, 2));
    assert_eq!(p.history.len(), 2);
}

#[test]
fn sending_back_restores_both_accounts() {
    let mut p = setup();
    assert_eq!(p.buy_tokens("alice", Amount::new(3, 0)), Ok(()));
    assert_eq!(p.transfer_tokens("alice", "bob", Amount::new(15, 1)), Ok(()));
    assert_eq!(p.transfer_tokens("bob", "alice", Amount::new(15, 1)), Ok(()));
    assert_eq!(gold_of(&p, "alice"), "3.0");
    assert_eq!(gold_of(&p, "bob"), "0.0");
    assert_eq!(parts(&p.total_token_supply), (3, 0));
}

#[test]
fn ledger_stays_balanced_through_trades() {
    let mut p = setup();
    let k = p.bank.find("bob").unwrap();
    p.bank.accounts[k].1.deposit(Amount::new(50000, 0));
    assert_eq!(p.buy_tokens("alice", Amount::new(125, 2)), Ok(()));
    assert_eq!(p.buy_tokens("bob", Amount::new(3, 0)), Ok(()));
    assert_eq!(p.transfer_tokens("bob", "root", Amount::new(1, 0)), Ok(()));
    assert_eq!(p.sell_tokens("alice", Amount::new(25, 2)), Ok(()));
    assert_eq!(p.admin_add_inventory("root", Amount::new(10, 0)), Ok(()));
    p.distribute_yield();
    let report = p.perform_audit();
    assert!(report.ledger_consistent);
    assert!(report.fully_collateralized);
    assert_eq!(report.total_gold_in_accounts.to_text(), "4.00");
    assert_eq!(p.history.len(), 5);
}

#[test]
fn supply_rounds_where_balances_do_not() {
    let mut p = setup();
    let ka = p.bank.find("alice").unwrap();
    let kb = p.bank.find("bob").unwrap();
    p.bank.accounts[ka].1.gold_balance = Amount::from_i128_with_scale(1, 28);
    p.bank.accounts[kb].1.gold_balance = Amount::from_i128_with_scale(79_228_162_514_264_337_593_543_950_334, 28);
    p.total_token_supply = Amount::from_i128_with_scale(79_228_162_514_264_337_593_543_950_335, 28);
    assert_eq!(p.buy_tokens("alice", Amount::new(1, 0)), Ok(()));
    // the account's tokens are exact, the supply is rounded half to even at 27 places:
    // the tokens now add up to 8.9228162514264337593543950335, the supply to ...034
    assert_eq!(parts(&p.bank.accounts[ka].1.gold_balance), (10_000_000_000_000_000_000_000_000_001, 28));
    assert_eq!(parts(&p.total_token_supply), (8_922_816_251_426_433_759_354_395_034, 27));
}

#[test]
fn buying_then_selling_costs_the_fee() {
    let mut p = setup();
    assert_eq!(p.buy_tokens("alice", Amount::new(2, 0)), Ok(()));
    assert_eq!(p.sell_tokens("alice", Amount::new(2, 0)), Ok(()));
    assert_eq!(rupees_of(&p, "alice"), "19987.48800");
    assert_eq!(gold_of(&p, "alice"), "0");
    assert_eq!(p.total_token_supply.to_text(), "0");
}

#[test]
fn yield_never_lowers_a_balance() {
    let mut p = setup();
    let kb = p.bank.find("bob").unwrap();
    p.bank.accounts[kb].1.balance = Amount::new(-300, 2);
    p.distribute_yield();
    assert_eq!(rupees_of(&p, "alice"), "20002.0000");
    assert_eq!(rupees_of(&p, "bob"), "-3.00");
    assert_eq!(rupees_of(&p, "root"), "0.0");
}

#[test]
fn oracle_moves_the_price_by_the_shift() {
    let mut p = setup();
    p.apply_oracle_shift(Amount::new(-75, 2));
    assert_eq!(p.gold_price_inr.to_text(), "6255.25");
    p.apply_oracle_shift(Amount::new(-625000, 2));
    assert_eq!(p.gold_price_inr.to_text(), "60.0");
}

#[test]
fn trade_notices() {
    let p = setup();
    assert_eq!(p.buy_notice("alice", Amount::new(2, 0)), "TRADE SUCCESS: 2g minted for alice at ₹6256.00");
    assert_eq!(p.sell_notice("bob", Amount::new(15, 1)), "LIQUIDATION SUCCESS: 1.5g burned for bob at ₹6256.00");
    assert_eq!(p.oracle_notice(), "\n[ORACLE UPDATE] New Gold Price: $6256.00");
}
