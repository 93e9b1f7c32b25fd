//! The protocol: a bank of accounts, the token supply and the physical vault that backs
//! it, the gold price, and the audit trail.
use vstd::prelude::*;
use vstd::string::*;
use crate::decimal::{
    add_is_exact, decimal_checked_add, decimal_checked_sub, decimal_text, diff_view, exact_product,
    exact_product_view, exact_sum, exact_sum_view, lemma_exact_product_value, lemma_exact_sum_value,
    lemma_pow10_add, lemma_rounded_sign, lemma_rounded_sign_scaled, lemma_small_factor, moves_with,
    no_overflow, no_overflow_scaled, pow10, product_view, rounds_to, sum_view, view_value, view_wf,
    Amount, AmountView,
};
use crate::models::{gold_sum, lemma_gold_sum_update, Account, Bank, Transaction, UserRole};
use crate::time::{clock_instant, now};

verus! {

/// The fee on a purchase, as a fraction of its cost: `0.001`.
pub open spec fn fee_rate() -> AmountView {
    (1i128, 3u32, false)
}

/// What buying `grams` at `price` costs before the fee: `grams * price`.
pub open spec fn purchase_cost(grams: AmountView, price: AmountView) -> AmountView {
    product_view(grams, price)
}

/// What buying `grams` at `price` costs with the fee: `cost + cost * 0.001`.
pub open spec fn purchase_total(grams: AmountView, price: AmountView) -> AmountView {
    let cost = purchase_cost(grams, price);
    sum_view(cost, product_view(cost, fee_rate()))
}

/// `new` is `old` with the entry at `k` replaced by one under the same name whose account
/// has the same owner, role and rate.
pub open spec fn only_entry_changed(
    old_entries: Seq<(String, Account)>,
    new_entries: Seq<(String, Account)>,
    k: int,
) -> bool {
    &&& 0 <= k < old_entries.len()
    &&& new_entries.len() == old_entries.len()
    &&& forall|j: int| 0 <= j < old_entries.len() && j != k ==> new_entries[j] == old_entries[j]
    &&& new_entries[k].0 == old_entries[k].0
    &&& new_entries[k].1.owner == old_entries[k].1.owner
    &&& new_entries[k].1.role == old_entries[k].1.role
    &&& new_entries[k].1.interest_rate == old_entries[k].1.interest_rate
}

/// `new_history` is `old_history` with one transaction recorded at its end, stamped with
/// an instant read from the clock.
pub open spec fn recorded(
    old_history: Seq<Transaction>,
    new_history: Seq<Transaction>,
    owner: Seq<char>,
    action: Seq<char>,
    amount: Amount,
    price: Amount,
) -> bool {
    &&& new_history.len() == old_history.len() + 1
    &&& new_history.subrange(0, old_history.len() as int) == old_history
    &&& new_history.last().owner@ == owner
    &&& new_history.last().action@ == action
    &&& new_history.last().amount == amount
    &&& new_history.last().price_at_time == price
    &&& clock_instant(new_history.last().timestamp)
}

/// What buying `grams` at `price` costs with the fee, when no step needs rounding.
pub open spec fn exact_purchase_total(grams: AmountView, price: AmountView) -> Option<AmountView> {
    match exact_product(grams, price) {
        Some(cost) => match exact_product(cost, fee_rate()) {
            Some(fee) => exact_sum(cost, fee, false),
            None => None,
        },
        None => None,
    }
}

/// Where a tick of yield needs no rounding, what it gives is the exact result.
pub open spec fn yield_exact_known(balance: AmountView) -> bool {
    view_value(balance) > 0 ==> {
        &&& exact_product(balance, yield_rate()) matches Some(i) ==> product_view(balance, yield_rate()) == i
        &&& exact_sum(balance, product_view(balance, yield_rate()), false) matches Some(v) ==> sum_view(
            balance,
            product_view(balance, yield_rate()),
        ) == v
    }
}

/// What a purchase of `grams` by `user` that went through changes: the account pays the
/// total and gains the tokens, the supply grows by the tokens, and one transaction is
/// recorded; where a step needs no rounding, its result is the exact one.
pub open spec fn bought(before: RwaProtocol, after: RwaProtocol, user: Seq<char>, grams: Amount) -> bool {
    let k = before.bank.index_of(user);
    let account = before.account(user);
    let total = purchase_total(grams@, before.gold_price_inr@);
    let entries = after.bank.accounts@;
    &&& only_entry_changed(before.bank.accounts@, entries, k)
    &&& entries[k].1.balance@ == diff_view(account.balance@, total)
    &&& entries[k].1.gold_balance@ == sum_view(account.gold_balance@, grams@)
    &&& after.total_token_supply@ == sum_view(before.total_token_supply@, grams@)
    &&& after.physical_vault_grams == before.physical_vault_grams
    &&& after.gold_price_inr == before.gold_price_inr
    &&& recorded(before.history@, after.history@, user, "BUY"@, grams, before.gold_price_inr)
    &&& exact_sum(account.gold_balance@, grams@, false) matches Some(v) ==> sum_view(account.gold_balance@, grams@) == v
    &&& exact_sum(before.total_token_supply@, grams@, false) matches Some(v) ==> sum_view(
        before.total_token_supply@,
        grams@,
    ) == v
    &&& exact_purchase_total(grams@, before.gold_price_inr@) matches Some(t) ==> total == t
    &&& exact_sum(account.balance@, total, true) matches Some(v) ==> diff_view(account.balance@, total) == v
}

/// What a sale of `grams` by `user` that went through changes: the account gives up the
/// tokens and is paid `grams * price`, the supply shrinks by the tokens, and one
/// transaction is recorded; where a step needs no rounding, its result is the exact one.
pub open spec fn sold(before: RwaProtocol, after: RwaProtocol, user: Seq<char>, grams: Amount) -> bool {
    let k = before.bank.index_of(user);
    let account = before.account(user);
    let payout = product_view(grams@, before.gold_price_inr@);
    let entries = after.bank.accounts@;
    &&& only_entry_changed(before.bank.accounts@, entries, k)
    &&& entries[k].1.gold_balance@ == diff_view(account.gold_balance@, grams@)
    &&& entries[k].1.balance@ == sum_view(account.balance@, payout)
    &&& after.total_token_supply@ == diff_view(before.total_token_supply@, grams@)
    &&& after.physical_vault_grams == before.physical_vault_grams
    &&& after.gold_price_inr == before.gold_price_inr
    &&& recorded(before.history@, after.history@, user, "SELL"@, grams, before.gold_price_inr)
    &&& exact_sum(account.gold_balance@, grams@, true) matches Some(v) ==> diff_view(account.gold_balance@, grams@) == v
    &&& exact_sum(before.total_token_supply@, grams@, true) matches Some(v) ==> diff_view(
        before.total_token_supply@,
        grams@,
    ) == v
    &&& exact_product(grams@, before.gold_price_inr@) matches Some(v) ==> payout == v
    &&& exact_sum(account.balance@, payout, false) matches Some(v) ==> sum_view(account.balance@, payout) == v
}

/// What a transfer of `grams` from `from` to `to` that went through changes: the sender's
/// tokens become `gold - grams`, then the recipient's `gold + grams` (the same account
/// when both names are one), nothing else of the bank changes, and one transaction is
/// recorded; where a step needs no rounding, its result is the exact one.
pub open spec fn transferred(
    before: RwaProtocol,
    after: RwaProtocol,
    from: Seq<char>,
    to: Seq<char>,
    grams: Amount,
) -> bool {
    let kf = before.bank.index_of(from);
    let kt = before.bank.index_of(to);
    let sent = before.account(from).gold_balance@;
    let received = before.account(to).gold_balance@;
    let old_entries = before.bank.accounts@;
    let new_entries = after.bank.accounts@;
    &&& new_entries.len() == old_entries.len()
    &&& forall|j: int| 0 <= j < old_entries.len() ==> {
        &&& (#[trigger] new_entries[j]).0 == old_entries[j].0
        &&& new_entries[j].1.owner == old_entries[j].1.owner
        &&& new_entries[j].1.role == old_entries[j].1.role
        &&& new_entries[j].1.balance == old_entries[j].1.balance
        &&& new_entries[j].1.interest_rate == old_entries[j].1.interest_rate
    }
    &&& forall|j: int| 0 <= j < old_entries.len() && j != kf && j != kt ==> new_entries[j] == old_entries[j]
    &&& kf != kt ==> new_entries[kf].1.gold_balance@ == diff_view(sent, grams@)
    &&& kf != kt ==> new_entries[kt].1.gold_balance@ == sum_view(received, grams@)
    &&& kf == kt ==> new_entries[kf].1.gold_balance@ == sum_view(diff_view(sent, grams@), grams@)
    &&& after.total_token_supply == before.total_token_supply
    &&& after.physical_vault_grams == before.physical_vault_grams
    &&& after.gold_price_inr == before.gold_price_inr
    &&& recorded(before.history@, after.history@, from, "TRANSFER TO "@ + to, grams, before.gold_price_inr)
    &&& exact_sum(sent, grams@, true) matches Some(v) ==> diff_view(sent, grams@) == v
    &&& kf != kt ==> (exact_sum(received, grams@, false) matches Some(v) ==> sum_view(received, grams@) == v)
    &&& kf == kt ==> (exact_sum(diff_view(sent, grams@), grams@, false) matches Some(v) ==> sum_view(
        diff_view(sent, grams@),
        grams@,
    ) == v)
}

/// Every account holds at least zero rupees and zero tokens.
pub open spec fn holding_non_negative(entry: (String, Account)) -> bool {
    entry.1.balance.value() >= 0 && entry.1.gold_balance.value() >= 0
}

/// What `buy_tokens(user, grams)` gives, from the state `before` to the state `after`,
/// with the result `r`.
pub open spec fn buy_outcome(
    before: RwaProtocol,
    after: RwaProtocol,
    user: Seq<char>,
    grams: Amount,
    r: Result<(), String>,
) -> bool {
    let supply = sum_view(before.total_token_supply@, grams@);
    let goes_ahead = view_value(supply) <= before.physical_vault_grams.value() && before.bank.has_account(user);
    let total = purchase_total(grams@, before.gold_price_inr@);
    let balance = before.account(user).balance;
    &&& r is Err ==> after == before
    &&& view_value(supply) > before.physical_vault_grams.value() ==> (r matches Err(e) && e@
        == "PROTOCOL ERROR: Not enough physical gold in vault!"@)
    &&& view_value(supply) <= before.physical_vault_grams.value() && !before.bank.has_account(user) ==> (
    r matches Err(e) && e@ == "Account not found"@)
    &&& goes_ahead && balance.value() < view_value(total) ==> (r matches Err(e) && e@
        == "Insufficient INR. Need: "@ + decimal_text(total) + ", Have: "@ + decimal_text(balance@))
    &&& goes_ahead && balance.value() >= view_value(total) ==> r is Ok
    &&& r is Ok ==> bought(before, after, user, grams)
    &&& r is Ok ==> after.fully_collateralized()
    &&& before.ledger_balanced() && add_is_exact(before.total_token_supply@, grams@, false) && (
    before.bank.has_account(user) ==> add_is_exact(before.account(user).gold_balance@, grams@, false))
        ==> after.ledger_balanced()
    &&& before.holdings_non_negative() && grams.value() >= 0 && before.gold_price_inr.value() >= 0
        ==> after.holdings_non_negative()
    &&& exact_sum(before.total_token_supply@, grams@, false) matches Some(v) ==> supply == v
    &&& goes_ahead ==> (exact_purchase_total(grams@, before.gold_price_inr@) matches Some(t) ==> total == t)
}

/// What `sell_tokens(user, grams)` gives, from the state `before` to the state `after`,
/// with the result `r`.
pub open spec fn sell_outcome(
    before: RwaProtocol,
    after: RwaProtocol,
    user: Seq<char>,
    grams: Amount,
    r: Result<(), String>,
) -> bool {
    let gold = before.account(user).gold_balance;
    &&& r is Err ==> after == before
    &&& !before.bank.has_account(user) ==> (r matches Err(e) && e@ == "Account not found"@)
    &&& before.bank.has_account(user) && gold.value() < grams.value() ==> (r matches Err(e) && e@
        == "Insufficient Gold Tokens. Have: "@ + decimal_text(gold@) + "g, Trying to sell: "@
        + decimal_text(grams@) + "g"@)
    &&& before.bank.has_account(user) && gold.value() >= grams.value() ==> r is Ok
    &&& r is Ok ==> sold(before, after, user, grams)
    &&& before.ledger_balanced() && add_is_exact(before.total_token_supply@, grams@, true) && (
    before.bank.has_account(user) ==> add_is_exact(gold@, grams@, true)) ==> after.ledger_balanced()
    &&& before.fully_collateralized() && grams.value() >= 0 ==> after.fully_collateralized()
    &&& before.holdings_non_negative() && grams.value() >= 0 && before.gold_price_inr.value() >= 0
        ==> after.holdings_non_negative()
}

/// What `transfer_tokens(from, to, grams)` gives, from the state `before` to the state
/// `after`, with the result `r`.
pub open spec fn transfer_outcome(
    before: RwaProtocol,
    after: RwaProtocol,
    from: Seq<char>,
    to: Seq<char>,
    grams: Amount,
    r: Result<(), String>,
) -> bool {
    let both = before.bank.has_account(from) && before.bank.has_account(to);
    let gold = before.account(from).gold_balance;
    &&& r is Err ==> after == before
    &&& !before.bank.has_account(from) ==> (r matches Err(e) && e@ == "Sender not found"@)
    &&& before.bank.has_account(from) && !before.bank.has_account(to) ==> (r matches Err(e) && e@
        == "Recipient not found"@)
    &&& both && gold.value() < grams.value() ==> (r matches Err(e) && e@
        == "Insufficient gold balance for transfer"@)
    &&& both && gold.value() >= grams.value() ==> r is Ok
    &&& r is Ok ==> transferred(before, after, from, to, grams)
    &&& both && before.transfer_is_exact(from, to, grams) ==> gold_sum(after.bank.accounts@) == gold_sum(
        before.bank.accounts@,
    )
    &&& before.ledger_balanced() && (both ==> before.transfer_is_exact(from, to, grams))
        ==> after.ledger_balanced()
    &&& before.holdings_non_negative() && grams.value() >= 0 ==> after.holdings_non_negative()
    &&& before.tokens_non_negative() && grams.value() >= 0 ==> after.tokens_non_negative()
}

/// The price below which the oracle resets the price: `10.0`.
pub open spec fn price_floor() -> AmountView {
    (100i128, 1u32, false)
}

/// The price the oracle resets to: `60.0`.
pub open spec fn price_reset() -> AmountView {
    (600i128, 1u32, false)
}

/// The yield paid on each tick, as a fraction of the balance: `0.0001`.
pub open spec fn yield_rate() -> AmountView {
    (1i128, 4u32, false)
}

/// A rupee balance after one tick of yield: unchanged unless positive, and then
/// `balance + balance * 0.0001`.
pub open spec fn yielded(balance: AmountView) -> AmountView {
    if view_value(balance) > 0 {
        sum_view(balance, product_view(balance, yield_rate()))
    } else {
        balance
    }
}

/// A tick of yield on `balance` does not overflow: where it is positive,
/// `balance + balance * 0.0001` has a result.
pub open spec fn yield_fits(balance: AmountView) -> bool {
    view_value(balance) > 0 ==> decimal_checked_add(balance, product_view(balance, yield_rate())) is Some
}

/// What a tick of yield changes: each rupee balance becomes `yielded` of itself, and
/// nothing else of the protocol changes.
pub open spec fn yield_paid(before: RwaProtocol, after: RwaProtocol) -> bool {
    &&& after.bank.accounts@.len() == before.bank.accounts@.len()
    &&& forall|j: int| 0 <= j < before.bank.accounts@.len() ==> {
        let b = #[trigger] before.bank.accounts@[j];
        let a = after.bank.accounts@[j];
        &&& a.0 == b.0
        &&& a.1.owner == b.1.owner
        &&& a.1.role == b.1.role
        &&& a.1.gold_balance == b.1.gold_balance
        &&& a.1.interest_rate == b.1.interest_rate
        &&& a.1.balance@ == yielded(b.1.balance@)
    }
    &&& after.total_token_supply == before.total_token_supply
    &&& after.physical_vault_grams == before.physical_vault_grams
    &&& after.gold_price_inr == before.gold_price_inr
    &&& after.history == before.history
}

/// No rupee balance is lower after a tick of yield than before it.
pub open spec fn yield_never_lowers(before: RwaProtocol, after: RwaProtocol) -> bool {
    forall|j: int| 0 <= j < before.bank.accounts@.len() ==> (#[trigger] after.bank.accounts@[j]).1.balance.value()
        >= before.bank.accounts@[j].1.balance.value()
}

/// Entries whose gold balances agree hold the same sum of gold.
pub proof fn lemma_gold_sum_same(a: Seq<(String, Account)>, b: Seq<(String, Account)>)
    requires
        a.len() == b.len(),
        forall|j: int| 0 <= j < a.len() ==> #[trigger] a[j].1.gold_balance == b[j].1.gold_balance,
    ensures
        gold_sum(a) == gold_sum(b),
    decreases a.len(),
{
    if a.len() > 0 {
        let n = a.len() - 1;
        assert(a[n].1.gold_balance == b[n].1.gold_balance);
        lemma_gold_sum_same(a.drop_last(), b.drop_last());
    }
}

/// The tokens the entries hold, added up as `Decimal` adds them, starting from `0.0`.
pub open spec fn gold_total(entries: Seq<(String, Account)>) -> AmountView
    decreases entries.len(),
{
    if entries.len() == 0 {
        (0i128, 1u32, false)
    } else {
        sum_view(gold_total(entries.drop_last()), entries.last().1.gold_balance@)
    }
}

/// `gold_total` where no addition needs rounding, and `None` where one does.
pub open spec fn exact_gold_total(entries: Seq<(String, Account)>) -> Option<AmountView>
    decreases entries.len(),
{
    if entries.len() == 0 {
        Some((0i128, 1u32, false))
    } else {
        match exact_gold_total(entries.drop_last()) {
            Some(t) => exact_sum(t, entries.last().1.gold_balance@, false),
            None => None,
        }
    }
}

/// No addition of `gold_total` needs rounding.
pub open spec fn gold_total_exact(entries: Seq<(String, Account)>) -> bool
    decreases entries.len(),
{
    if entries.len() == 0 {
        true
    } else {
        gold_total_exact(entries.drop_last()) && add_is_exact(
            gold_total(entries.drop_last()),
            entries.last().1.gold_balance@,
            false,
        )
    }
}

/// No addition of `gold_total` overflows.
pub open spec fn gold_total_defined(entries: Seq<(String, Account)>) -> bool
    decreases entries.len(),
{
    if entries.len() == 0 {
        true
    } else {
        gold_total_defined(entries.drop_last()) && decimal_checked_add(
            gold_total(entries.drop_last()),
            entries.last().1.gold_balance@,
        ) is Some
    }
}

/// Where no addition of the whole sum overflows, none of a prefix's does.
pub proof fn lemma_gold_total_defined_prefix(entries: Seq<(String, Account)>, i: int)
    requires
        0 <= i <= entries.len(),
        gold_total_defined(entries),
    ensures
        gold_total_defined(entries.take(i)),
    decreases entries.len(),
{
    if i == entries.len() {
        assert(entries.take(i) =~= entries);
    } else {
        lemma_gold_total_defined_prefix(entries.drop_last(), i);
        assert(entries.drop_last().take(i) =~= entries.take(i));
    }
}

/// What an audit finds: the tokens the accounts hold, whether they match the supply, and
/// whether the vault covers the supply.
pub struct AuditReport {
    pub total_gold_in_accounts: Amount,
    pub ledger_consistent: bool,
    pub fully_collateralized: bool,
}

/// `new` files the same names as `old`, in the same places.
pub open spec fn keys_unique_kept(old_entries: Seq<(String, Account)>, new_entries: Seq<(String, Account)>) -> bool {
    &&& new_entries.len() == old_entries.len()
    &&& forall|j: int| 0 <= j < old_entries.len() ==> new_entries[j].0 == old_entries[j].0
}

/// The protocol's state.
pub struct RwaProtocol {
    pub bank: Bank,
    pub total_token_supply: Amount,
    pub physical_vault_grams: Amount,
    pub gold_price_inr: Amount,
    pub history: Vec<Transaction>,
}

impl RwaProtocol {
    /// Account names are unique.
    pub open spec fn wf(&self) -> bool {
        self.bank.wf()
    }

    /// The tokens that the accounts hold add up to the token supply.
    pub open spec fn ledger_balanced(&self) -> bool {
        gold_sum(self.bank.accounts@) == self.total_token_supply.value()
    }

    /// The vault holds at least as many grams as there are tokens.
    pub open spec fn fully_collateralized(&self) -> bool {
        self.total_token_supply.value() <= self.physical_vault_grams.value()
    }

    /// Every account holds at least zero rupees and zero tokens.
    pub open spec fn holdings_non_negative(&self) -> bool {
        forall|j: int| 0 <= j < self.bank.accounts@.len() ==> holding_non_negative(#[trigger] self.bank.accounts@[j])
    }

    /// Every account holds at least zero tokens.
    pub open spec fn tokens_non_negative(&self) -> bool {
        forall|j: int| 0 <= j < self.bank.accounts@.len() ==> #[trigger] self.bank.accounts@[j].1.gold_balance.value() >= 0
    }

    /// The account filed under `name`.
    pub open spec fn account(&self, name: Seq<char>) -> Account {
        self.bank.accounts@[self.bank.index_of(name)].1
    }

    /// A protocol with no accounts, no tokens, 1000.00 grams in the vault and gold at
    /// 6256.00 rupees a gram.
    pub fn new() -> (r: RwaProtocol)
        ensures
            r.wf(),
            r.bank.accounts@.len() == 0,
            r.total_token_supply@ == (0i128, 1u32, false),
            r.physical_vault_grams@ == (100000i128, 2u32, false),
            r.gold_price_inr@ == (625600i128, 2u32, false),
            r.history@.len() == 0,
            r.ledger_balanced(),
            r.fully_collateralized(),
    {
        RwaProtocol {
            bank: Bank::new(),
            total_token_supply: Amount::new(0, 1),
            physical_vault_grams: Amount::new(100000, 2),
            gold_price_inr: Amount::new(625600, 2),
            history: Vec::new(),
        }
    }

    /// Records a transaction of `owner` at the current time and price.
    fn record(&mut self, owner: &str, action: String, amount: Amount)
        ensures
            recorded(old(self).history@, final(self).history@, owner@, action@, amount, old(self).gold_price_inr),
            final(self).bank == old(self).bank,
            final(self).total_token_supply == old(self).total_token_supply,
            final(self).physical_vault_grams == old(self).physical_vault_grams,
            final(self).gold_price_inr == old(self).gold_price_inr,
    {
        let tx = Transaction {
            timestamp: now(),
            owner: String::from_str(owner),
            action: action,
            amount: amount,
            price_at_time: self.gold_price_inr,
        };
        self.history.push(tx);
        proof {
            assert(self.history@.subrange(0, old(self).history@.len() as int) =~= old(self).history@);
        }
    }
    /// No step of `buy_tokens(user, grams)` overflows (`Decimal` panics there): the new
    /// supply, and where the purchase goes ahead the cost, the total with the fee, the new
    /// rupee balance and the new token balance.
    pub open spec fn buy_fits(&self, user: Seq<char>, grams: Amount) -> bool {
        let supply = sum_view(self.total_token_supply@, grams@);
        let cost = purchase_cost(grams@, self.gold_price_inr@);
        let total = purchase_total(grams@, self.gold_price_inr@);
        &&& no_overflow(self.total_token_supply.value() + grams.value())
        &&& (view_value(supply) <= self.physical_vault_grams.value() && self.bank.has_account(user))
            ==> {
            &&& no_overflow_scaled(grams.value() * self.gold_price_inr.value())
            &&& decimal_checked_add(cost, product_view(cost, fee_rate())) is Some
            &&& self.account(user).balance.value() >= view_value(total) ==> {
                &&& decimal_checked_sub(self.account(user).balance@, total) is Some
                &&& no_overflow(self.account(user).gold_balance.value() + grams.value())
            }
        }
    }

    /// Mints `grams` of tokens for `user_name`, who pays `grams * price` plus a fee of
    /// 0.001 of that in rupees. Refuses when the new supply would exceed the vault, when
    /// there is no such account, and when its rupees do not cover the price; a refused
    /// purchase changes nothing.
    pub fn buy_tokens(&mut self, user_name: &str, grams: Amount) -> (r: Result<(), String>)
        requires
            old(self).wf(),
            old(self).buy_fits(user_name@, grams),
        ensures
            final(self).wf(),
            buy_outcome(*old(self), *final(self), user_name@, grams, r),
    {
        let new_supply = self.total_token_supply.add(grams);
        if self.physical_vault_grams.lt(&new_supply) {
            return Err(String::from_str("PROTOCOL ERROR: Not enough physical gold in vault!"));
        }
        let k = match self.bank.find(user_name) {
            Some(k) => k,
            None => {
                return Err(String::from_str("Account not found"));
            },
        };
        let balance = self.bank.accounts[k].1.balance;
        let gold = self.bank.accounts[k].1.gold_balance;
        let cost = match grams.checked_mul(self.gold_price_inr) {
            Some(c) => c,
            None => {
                proof { assert(false); }
                return Err(String::new());
            },
        };
        let fee_rate = Amount::new(1, 3);
        proof {
            assert(pow10(28) == 10000000000000000000000000000int);
            assert(fee_rate.value() == 10000000000000000000000000int);
            lemma_small_factor(cost@, fee_rate@);
        }
        let fee = cost.mul(fee_rate);
        let tot_cost = match cost.checked_add(fee) {
            Some(t) => t,
            None => {
                proof { assert(false); }
                return Err(String::new());
            },
        };
        if balance.lt(&tot_cost) {
            let mut msg = String::from_str("Insufficient INR. Need: ");
            let need = tot_cost.to_text();
            let have = balance.to_text();
            msg.append(need.as_str());
            msg.append(", Have: ");
            msg.append(have.as_str());
            return Err(msg);
        }
        let ghost before = self.bank.accounts@;
        let new_balance = match balance.checked_sub(tot_cost) {
            Some(b) => b,
            None => {
                proof { assert(false); }
                return Err(String::new());
            },
        };
        let new_gold = gold.add(grams);
        self.bank.accounts[k].1.balance = new_balance;
        self.bank.accounts[k].1.gold_balance = new_gold;
        self.total_token_supply = new_supply;
        proof {
            let e = self.bank.accounts@[k as int];
            assert(self.bank.accounts@ =~= before.update(k as int, e));
            lemma_gold_sum_update(before, k as int, e);
            assert(keys_unique_kept(before, self.bank.accounts@));
            if old(self).holdings_non_negative() && grams.value() >= 0 && self.gold_price_inr.value() >= 0 {
                lemma_rounded_sign(new_balance@, balance.value() - tot_cost.value());
                lemma_rounded_sign(new_gold@, gold.value() + grams.value());
                assert forall|j: int| 0 <= j < self.bank.accounts@.len() implies holding_non_negative(
                    #[trigger] self.bank.accounts@[j],
                ) by {
                    if j != k {
                        assert(self.bank.accounts@[j] == before[j]);
                        assert(holding_non_negative(old(self).bank.accounts@[j]));
                    }
                }
            }
        }
        self.record(user_name, String::from_str("BUY"), grams);
        Ok(())
    }

    /// Buys as `buy_tokens` does where no step overflows, and gives `None`, changing
    /// nothing, where one would (`Decimal` panics there).
    pub fn try_buy_tokens(&mut self, user_name: &str, grams: Amount) -> (r: Option<Result<(), String>>)
        requires
            old(self).wf(),
        ensures
            final(self).wf(),
            r is None <==> !old(self).buy_fits(user_name@, grams),
            ({
                let price = old(self).gold_price_inr;
                let cost = product_view(grams@, price@);
                let account = old(self).account(user_name@);
                &&& no_overflow(old(self).total_token_supply.value() + grams.value())
                &&& no_overflow_scaled(grams.value() * price.value())
                &&& decimal_checked_add(cost, product_view(cost, (1i128, 3u32, false))) is Some
                &&& decimal_checked_sub(
                    account.balance@,
                    sum_view(cost, product_view(cost, (1i128, 3u32, false))),
                ) is Some
                &&& no_overflow(account.gold_balance.value() + grams.value())
            }) ==> r is Some,
            r is None ==> *final(self) == *old(self),
            r matches Some(x) ==> buy_outcome(*old(self), *final(self), user_name@, grams, x),
    {
        let new_supply = match self.total_token_supply.checked_add(grams) {
            Some(s) => s,
            None => {
                return None;
            },
        };
        if self.physical_vault_grams.lt(&new_supply) {
            return Some(self.buy_tokens(user_name, grams));
        }
        let k = match self.bank.find(user_name) {
            Some(k) => k,
            None => {
                return Some(self.buy_tokens(user_name, grams));
            },
        };
        let balance = self.bank.accounts[k].1.balance;
        let gold = self.bank.accounts[k].1.gold_balance;
        let cost = match grams.checked_mul(self.gold_price_inr) {
            Some(c) => c,
            None => {
                return None;
            },
        };
        let fee_rate = Amount::new(1, 3);
        proof {
            assert(pow10(28) == 10000000000000000000000000000int);
            assert(fee_rate.value() == 10000000000000000000000000int);
            lemma_small_factor(cost@, fee_rate@);
        }
        let fee = cost.mul(fee_rate);
        let tot_cost = match cost.checked_add(fee) {
            Some(t) => t,
            None => {
                return None;
            },
        };
        if balance.lt(&tot_cost) {
            return Some(self.buy_tokens(user_name, grams));
        }
        if balance.checked_sub(tot_cost).is_none() || gold.checked_add(grams).is_none() {
            return None;
        }
        Some(self.buy_tokens(user_name, grams))
    }

    /// No step of `sell_tokens(user, grams)` overflows (`Decimal` panics there): where the
    /// sale goes ahead, the payout, the new token and rupee balances and the new supply.
    pub open spec fn sell_fits(&self, user: Seq<char>, grams: Amount) -> bool {
        (self.bank.has_account(user) && self.account(user).gold_balance.value() >= grams.value()) ==> {
            &&& no_overflow(self.account(user).gold_balance.value() - grams.value())
            &&& no_overflow_scaled(grams.value() * self.gold_price_inr.value())
            &&& decimal_checked_add(
                self.account(user).balance@,
                product_view(grams@, self.gold_price_inr@),
            ) is Some
            &&& no_overflow(self.total_token_supply.value() - grams.value())
        }
    }

    /// Burns `grams` of `user_name`'s tokens and pays `grams * price` rupees for them.
    /// Refuses when there is no such account and when it holds fewer tokens; a refused
    /// sale changes nothing.
    pub fn sell_tokens(&mut self, user_name: &str, grams: Amount) -> (r: Result<(), String>)
        requires
            old(self).wf(),
            old(self).sell_fits(user_name@, grams),
        ensures
            final(self).wf(),
            sell_outcome(*old(self), *final(self), user_name@, grams, r),
    {
        let k = match self.bank.find(user_name) {
            Some(k) => k,
            None => {
                return Err(String::from_str("Account not found"));
            },
        };
        let balance = self.bank.accounts[k].1.balance;
        let gold = self.bank.accounts[k].1.gold_balance;
        if gold.lt(&grams) {
            let mut msg = String::from_str("Insufficient Gold Tokens. Have: ");
            let have = gold.to_text();
            let trying = grams.to_text();
            msg.append(have.as_str());
            msg.append("g, Trying to sell: ");
            msg.append(trying.as_str());
            msg.append("g");
            return Err(msg);
        }
        let payout = grams.mul(self.gold_price_inr);
        let ghost before = self.bank.accounts@;
        let new_gold = gold.sub(grams);
        let new_balance = match balance.checked_add(payout) {
            Some(b) => b,
            None => {
                proof { assert(false); }
                return Err(String::new());
            },
        };
        self.bank.accounts[k].1.gold_balance = new_gold;
        self.bank.accounts[k].1.balance = new_balance;
        self.total_token_supply = self.total_token_supply.sub(grams);
        proof {
            let e = self.bank.accounts@[k as int];
            assert(self.bank.accounts@ =~= before.update(k as int, e));
            lemma_gold_sum_update(before, k as int, e);
            assert(keys_unique_kept(before, self.bank.accounts@));
            if old(self).holdings_non_negative() && grams.value() >= 0 && self.gold_price_inr.value() >= 0 {
                assert(holding_non_negative(before[k as int]));
                lemma_rounded_sign(new_gold@, gold.value() - grams.value());
                lemma_rounded_sign_scaled(payout@, grams.value() * self.gold_price_inr.value());
                lemma_rounded_sign(new_balance@, balance.value() + payout.value());
                assert forall|j: int| 0 <= j < self.bank.accounts@.len() implies holding_non_negative(
                    #[trigger] self.bank.accounts@[j],
                ) by {
                    if j != k {
                        assert(self.bank.accounts@[j] == before[j]);
                        assert(holding_non_negative(old(self).bank.accounts@[j]));
                    }
                }
            }
        }
        self.record(user_name, String::from_str("SELL"), grams);
        Ok(())
    }

    /// Sells as `sell_tokens` does where no step overflows, and gives `None`, changing
    /// nothing, where one would (`Decimal` panics there).
    pub fn try_sell_tokens(&mut self, user_name: &str, grams: Amount) -> (r: Option<Result<(), String>>)
        requires
            old(self).wf(),
        ensures
            final(self).wf(),
            r is None <==> !old(self).sell_fits(user_name@, grams),
            ({
                let account = old(self).account(user_name@);
                let price = old(self).gold_price_inr;
                &&& no_overflow(account.gold_balance.value() - grams.value())
                &&& no_overflow_scaled(grams.value() * price.value())
                &&& decimal_checked_add(account.balance@, product_view(grams@, price@)) is Some
                &&& no_overflow(old(self).total_token_supply.value() - grams.value())
            }) ==> r is Some,
            r is None ==> *final(self) == *old(self),
            r matches Some(x) ==> sell_outcome(*old(self), *final(self), user_name@, grams, x),
    {
        let k = match self.bank.find(user_name) {
            Some(k) => k,
            None => {
                return Some(self.sell_tokens(user_name, grams));
            },
        };
        let balance = self.bank.accounts[k].1.balance;
        let gold = self.bank.accounts[k].1.gold_balance;
        if gold.lt(&grams) {
            return Some(self.sell_tokens(user_name, grams));
        }
        if gold.checked_sub(grams).is_none() {
            return None;
        }
        let payout = match grams.checked_mul(self.gold_price_inr) {
            Some(p) => p,
            None => {
                return None;
            },
        };
        if balance.checked_add(payout).is_none() || self.total_token_supply.checked_sub(grams).is_none() {
            return None;
        }
        Some(self.sell_tokens(user_name, grams))
    }

    /// Adds `grams` of physical gold to the vault. Only an administrator may; refuses
    /// when there is no such account and when it is not an administrator's, and a refused
    /// request changes nothing.
    pub fn admin_add_inventory(&mut self, admin_name: &str, grams: Amount) -> (r: Result<(), String>)
        requires
            old(self).wf(),
            old(self).bank.has_account(admin_name@) && old(self).account(admin_name@).role == UserRole::Admin
                ==> no_overflow(old(self).physical_vault_grams.value() + grams.value()),
        ensures
            final(self).wf(),
            r is Err ==> *final(self) == *old(self),
            !old(self).bank.has_account(admin_name@) ==> (r matches Err(e) && e@ == "Admin account not found"@),
            old(self).bank.has_account(admin_name@) && old(self).account(admin_name@).role != UserRole::Admin
                ==> (r matches Err(e) && e@ == "Access Denied: You are not authorised"@),
            old(self).bank.has_account(admin_name@) && old(self).account(admin_name@).role == UserRole::Admin
                ==> r is Ok,
            r is Ok ==> {
                &&& final(self).physical_vault_grams@ == sum_view(old(self).physical_vault_grams@, grams@)
                &&& final(self).bank == old(self).bank
                &&& final(self).total_token_supply == old(self).total_token_supply
                &&& final(self).gold_price_inr == old(self).gold_price_inr
                &&& recorded(old(self).history@, final(self).history@, admin_name@, "VAULT_REPLENISH"@, grams, old(self).gold_price_inr)
            },
            old(self).ledger_balanced() ==> final(self).ledger_balanced(),
            old(self).fully_collateralized() && grams.value() >= 0 ==> final(self).fully_collateralized(),
            r is Ok ==> (exact_sum(old(self).physical_vault_grams@, grams@, false) matches Some(v) ==> sum_view(
                old(self).physical_vault_grams@,
                grams@,
            ) == v),
            grams.value() >= 0 ==> final(self).physical_vault_grams.value() >= old(
                self,
            ).physical_vault_grams.value(),
            old(self).holdings_non_negative() ==> final(self).holdings_non_negative(),
    {
        let k = match self.bank.find(admin_name) {
            Some(k) => k,
            None => {
                return Err(String::from_str("Admin account not found"));
            },
        };
        match self.bank.accounts[k].1.role {
            UserRole::Admin => {},
            UserRole::Customer => {
                return Err(String::from_str("Access Denied: You are not authorised"));
            },
        }
        self.physical_vault_grams = self.physical_vault_grams.add(grams);
        self.record(admin_name, String::from_str("VAULT_REPLENISH"), grams);
        Ok(())
    }
    /// No step of `transfer_tokens(from, to, grams)` overflows (`Decimal` panics there):
    /// where the transfer goes ahead, the sender's new token balance and then the
    /// recipient's (the same account's again when both names are one).
    pub open spec fn transfer_fits(&self, from: Seq<char>, to: Seq<char>, grams: Amount) -> bool {
        let sent = self.account(from).gold_balance;
        (self.bank.has_account(from) && self.bank.has_account(to) && sent.value() >= grams.value()) ==> {
            &&& no_overflow(sent.value() - grams.value())
            &&& self.bank.index_of(from) != self.bank.index_of(to) ==> no_overflow(
                self.account(to).gold_balance.value() + grams.value(),
            )
            &&& self.bank.index_of(from) == self.bank.index_of(to) ==> decimal_checked_add(
                diff_view(sent@, grams@),
                grams@,
            ) is Some
        }
    }

    /// Moving `grams` from `from` to `to` needs no rounding.
    pub open spec fn transfer_is_exact(&self, from: Seq<char>, to: Seq<char>, grams: Amount) -> bool {
        let sent = self.account(from).gold_balance@;
        &&& add_is_exact(sent, grams@, true)
        &&& self.bank.index_of(from) != self.bank.index_of(to) ==> add_is_exact(
            self.account(to).gold_balance@,
            grams@,
            false,
        )
        &&& self.bank.index_of(from) == self.bank.index_of(to) ==> add_is_exact(
            diff_view(sent, grams@),
            grams@,
            false,
        )
    }

    /// Moves `grams` of tokens from `from_name` to `to_name` (which may be the same
    /// account). Refuses when either account is missing and when the sender holds fewer
    /// tokens; a refused transfer changes nothing.
    pub fn transfer_tokens(&mut self, from_name: &str, to_name: &str, grams: Amount) -> (r: Result<(), String>)
        requires
            old(self).wf(),
            old(self).transfer_fits(from_name@, to_name@, grams),
        ensures
            final(self).wf(),
            transfer_outcome(*old(self), *final(self), from_name@, to_name@, grams, r),
    {
        let kf = match self.bank.find(from_name) {
            Some(k) => k,
            None => {
                return Err(String::from_str("Sender not found"));
            },
        };
        let kt = match self.bank.find(to_name) {
            Some(k) => k,
            None => {
                return Err(String::from_str("Recipient not found"));
            },
        };
        let sent = self.bank.accounts[kf].1.gold_balance;
        if sent.lt(&grams) {
            return Err(String::from_str("Insufficient gold balance for transfer"));
        }
        let ghost before = self.bank.accounts@;
        let remaining = sent.sub(grams);
        self.bank.accounts[kf].1.gold_balance = remaining;
        let ghost middle = self.bank.accounts@;
        proof {
            assert(middle =~= before.update(kf as int, middle[kf as int]));
            lemma_gold_sum_update(before, kf as int, middle[kf as int]);
        }
        let received = self.bank.accounts[kt].1.gold_balance;
        received.wf_fact();
        grams.wf_fact();
        let new_received = match received.checked_add(grams) {
            Some(g) => g,
            None => {
                proof { assert(false); }
                return Err(String::new());
            },
        };
        proof {
            if add_is_exact(received@, grams@, false) {
                lemma_exact_sum_value(received@, grams@, false);
            }
        }
        self.bank.accounts[kt].1.gold_balance = new_received;
        proof {
            assert(self.bank.accounts@ =~= middle.update(kt as int, self.bank.accounts@[kt as int]));
            lemma_gold_sum_update(middle, kt as int, self.bank.accounts@[kt as int]);
            assert(keys_unique_kept(before, self.bank.accounts@));
            if old(self).tokens_non_negative() && grams.value() >= 0 {
                assert(before[kf as int].1.gold_balance.value() >= 0);
                assert(before[kt as int].1.gold_balance.value() >= 0);
                lemma_rounded_sign(remaining@, sent.value() - grams.value());
                lemma_rounded_sign(new_received@, received.value() + grams.value());
                assert forall|j: int| 0 <= j < self.bank.accounts@.len() implies #[trigger] self.bank.accounts@[j].1.gold_balance.value() >= 0 by {
                    if j != kf && j != kt {
                        assert(self.bank.accounts@[j] == before[j]);
                    }
                }
            }
            if old(self).holdings_non_negative() && grams.value() >= 0 {
                assert(holding_non_negative(before[kf as int]));
                assert(holding_non_negative(before[kt as int]));
                lemma_rounded_sign(remaining@, sent.value() - grams.value());
                lemma_rounded_sign(new_received@, received.value() + grams.value());
                assert forall|j: int| 0 <= j < self.bank.accounts@.len() implies holding_non_negative(
                    #[trigger] self.bank.accounts@[j],
                ) by {
                    if j != kf && j != kt {
                        assert(self.bank.accounts@[j] == before[j]);
                        assert(holding_non_negative(old(self).bank.accounts@[j]));
                    }
                }
            }
        }
        let action = String::from_str("TRANSFER TO ").concat(to_name);
        self.record(from_name, action, grams);
        Ok(())
    }

    /// Transfers as `transfer_tokens` does where no step overflows, and gives `None`,
    /// changing nothing, where one would (`Decimal` panics there).
    pub fn try_transfer_tokens(&mut self, from_name: &str, to_name: &str, grams: Amount) -> (r: Option<
        Result<(), String>,
    >)
        requires
            old(self).wf(),
        ensures
            final(self).wf(),
            r is None <==> !old(self).transfer_fits(from_name@, to_name@, grams),
            ({
                let sent = old(self).account(from_name@).gold_balance;
                let received = old(self).account(to_name@).gold_balance;
                let same = old(self).bank.index_of(from_name@) == old(self).bank.index_of(to_name@);
                &&& no_overflow(sent.value() - grams.value())
                &&& !same ==> no_overflow(received.value() + grams.value())
                &&& same ==> decimal_checked_add(diff_view(sent@, grams@), grams@) is Some
            }) ==> r is Some,
            r is None ==> *final(self) == *old(self),
            r matches Some(x) ==> transfer_outcome(*old(self), *final(self), from_name@, to_name@, grams, x),
    {
        let kf = match self.bank.find(from_name) {
            Some(k) => k,
            None => {
                return Some(self.transfer_tokens(from_name, to_name, grams));
            },
        };
        let kt = match self.bank.find(to_name) {
            Some(k) => k,
            None => {
                return Some(self.transfer_tokens(from_name, to_name, grams));
            },
        };
        let sent = self.bank.accounts[kf].1.gold_balance;
        if sent.lt(&grams) {
            return Some(self.transfer_tokens(from_name, to_name, grams));
        }
        let remaining = match sent.checked_sub(grams) {
            Some(g) => g,
            None => {
                return None;
            },
        };
        let received = if kf == kt {
            remaining
        } else {
            self.bank.accounts[kt].1.gold_balance
        };
        if received.checked_add(grams).is_none() {
            return None;
        }
        Some(self.transfer_tokens(from_name, to_name, grams))
    }

    /// Moves the gold price by `shift`, as the market oracle does on each tick; a price
    /// that falls below 10.0 is reset to 60.0. Nothing else changes.
    pub fn apply_oracle_shift(&mut self, shift: Amount)
        requires
            no_overflow(old(self).gold_price_inr.value() + shift.value()),
        ensures
            ({
                let moved = sum_view(old(self).gold_price_inr@, shift@);
                &&& view_value(moved) < view_value(price_floor()) ==> final(self).gold_price_inr@ == price_reset()
                &&& view_value(moved) >= view_value(price_floor()) ==> final(self).gold_price_inr@ == moved
            }),
            final(self).gold_price_inr@ == price_reset() || {
                &&& moves_with(
                    old(self).gold_price_inr.value(),
                    shift.value(),
                    final(self).gold_price_inr.value(),
                )
                &&& rounds_to(final(self).gold_price_inr@, old(self).gold_price_inr.value() + shift.value())
            },
            view_value(final(self).gold_price_inr@) >= view_value(price_floor()),
            final(self).bank == old(self).bank,
            final(self).total_token_supply == old(self).total_token_supply,
            final(self).physical_vault_grams == old(self).physical_vault_grams,
            final(self).history == old(self).history,
            exact_sum(old(self).gold_price_inr@, shift@, false) matches Some(v) ==> sum_view(
                old(self).gold_price_inr@,
                shift@,
            ) == v,
    {
        self.gold_price_inr = self.gold_price_inr.add(shift);
        let floor = Amount::new(100, 1);
        assert(pow10(27) == 1000000000000000000000000000int);
        if self.gold_price_inr.lt(&floor) {
            self.gold_price_inr = Amount::new(600, 1);
        }
    }

    /// Pays yield of 0.0001 of the balance on every account whose rupee balance is
    /// positive, as the yield engine does on each tick: `balance += balance * 0.0001`.
    /// Nothing else changes. No new balance may overflow (`Decimal` panics there).
    pub fn distribute_yield(&mut self)
        requires
            forall|j: int| 0 <= j < old(self).bank.accounts@.len() ==> yield_fits(
                #[trigger] old(self).bank.accounts@[j].1.balance@,
            ),
        ensures
            yield_paid(*old(self), *final(self)),
            yield_never_lowers(*old(self), *final(self)),
            old(self).wf() ==> final(self).wf(),
            gold_sum(final(self).bank.accounts@) == gold_sum(old(self).bank.accounts@),
            old(self).holdings_non_negative() ==> final(self).holdings_non_negative(),
            forall|j: int| 0 <= j < old(self).bank.accounts@.len() ==> yield_exact_known(
                #[trigger] old(self).bank.accounts@[j].1.balance@,
            ),
    {
        let n = self.bank.accounts.len();
        let rate = Amount::new(1, 4);
        let zero = Amount::new(0, 1);
        let ghost start = self.bank.accounts@;
        let mut i: usize = 0;
        while i < n
            invariant
                n == start.len(),
                i <= n,
                rate@ == yield_rate(),
                view_value(zero@) == 0,
                self.bank.accounts@.len() == n,
                forall|j: int| 0 <= j < n ==> yield_fits(#[trigger] start[j].1.balance@),
                forall|j: int| i <= j < n ==> self.bank.accounts@[j] == #[trigger] start[j],
                forall|j: int| 0 <= j < i ==> yield_exact_known(#[trigger] start[j].1.balance@),
                forall|j: int| 0 <= j < i ==> #[trigger] start[j].1.balance.value() >= 0
                    ==> self.bank.accounts@[j].1.balance.value() >= 0,
                forall|j: int| 0 <= j < i ==> (#[trigger] self.bank.accounts@[j]).1.balance.value()
                    >= start[j].1.balance.value(),
                forall|j: int| 0 <= j < i ==> {
                    let before = #[trigger] start[j];
                    let after = self.bank.accounts@[j];
                    &&& after.0 == before.0
                    &&& after.1.owner == before.1.owner
                    &&& after.1.role == before.1.role
                    &&& after.1.gold_balance == before.1.gold_balance
                    &&& after.1.interest_rate == before.1.interest_rate
                    &&& after.1.balance@ == yielded(before.1.balance@)
                },
                self.total_token_supply == old(self).total_token_supply,
                self.physical_vault_grams == old(self).physical_vault_grams,
                self.gold_price_inr == old(self).gold_price_inr,
                self.history == old(self).history,
                start == old(self).bank.accounts@,
            decreases n - i,
        {
            let balance = self.bank.accounts[i].1.balance;
            assert(self.bank.accounts@[i as int] == start[i as int]);
            assert(yield_fits(start[i as int].1.balance@));
            if zero.lt(&balance) {
                balance.wf_fact();
                rate.wf_fact();
                proof {
                    assert(rate.value() == 1000000000000000000000000int);
                    assert(pow10(28) == 10000000000000000000000000000int);
                    lemma_small_factor(balance@, rate@);
                }
                let interest = balance.mul(rate);
                let new_balance = match balance.checked_add(interest) {
                    Some(b) => b,
                    None => {
                        proof { assert(false); }
                        balance
                    },
                };
                proof {
                    lemma_rounded_sign_scaled(interest@, balance.value() * rate.value());
                    lemma_rounded_sign(new_balance@, balance.value() + interest.value());
                }
                self.bank.accounts[i].1.balance = new_balance;
            }
            i = i + 1;
        }
        proof {
            assert(self.bank.accounts@.len() == start.len());
            lemma_gold_sum_same(start, self.bank.accounts@);
            if old(self).wf() {
                assert(keys_unique_kept(start, self.bank.accounts@));
            }
            if old(self).holdings_non_negative() {
                assert forall|j: int| 0 <= j < self.bank.accounts@.len() implies holding_non_negative(
                    #[trigger] self.bank.accounts@[j],
                ) by {
                    assert(holding_non_negative(start[j]));
                }
            }
        }
    }

    /// Pays yield as `distribute_yield` does where no new balance overflows, and says
    /// whether it did; where one would (`Decimal` panics there), nothing changes.
    pub fn try_distribute_yield(&mut self) -> (r: bool)
        ensures
            r == (forall|j: int| 0 <= j < old(self).bank.accounts@.len() ==> yield_fits(
                #[trigger] old(self).bank.accounts@[j].1.balance@,
            )),
            r ==> yield_paid(*old(self), *final(self)),
            yield_never_lowers(*old(self), *final(self)),
            r && old(self).wf() ==> final(self).wf(),
            r && old(self).holdings_non_negative() ==> final(self).holdings_non_negative(),
            !r ==> *final(self) == *old(self),
    {
        let n = self.bank.accounts.len();
        let rate = Amount::new(1, 4);
        let zero = Amount::new(0, 1);
        let mut i: usize = 0;
        while i < n
            invariant
                i <= n,
                n == self.bank.accounts@.len(),
                rate@ == yield_rate(),
                view_value(zero@) == 0,
                forall|j: int| 0 <= j < i ==> yield_fits(#[trigger] self.bank.accounts@[j].1.balance@),
            decreases n - i,
        {
            let balance = self.bank.accounts[i].1.balance;
            if zero.lt(&balance) {
                balance.wf_fact();
                rate.wf_fact();
                proof {
                    assert(rate.value() == 1000000000000000000000000int);
                    assert(pow10(28) == 10000000000000000000000000000int);
                    lemma_small_factor(balance@, rate@);
                }
                let interest = balance.mul(rate);
                if balance.checked_add(interest).is_none() {
                    assert(!yield_fits(self.bank.accounts@[i as int].1.balance@));
                    return false;
                }
            }
            i = i + 1;
        }
        self.distribute_yield();
        true
    }

    /// Adds up the tokens the accounts hold, in the order the bank files them, and checks
    /// that the sum matches the supply and that the vault covers the supply. No partial
    /// sum may overflow (`Decimal` panics there).
    pub fn perform_audit(&self) -> (r: AuditReport)
        requires
            gold_total_defined(self.bank.accounts@),
        ensures
            audit_outcome(*self, r),
    {
        let n = self.bank.accounts.len();
        let mut total = Amount::new(0, 1);
        let ghost entries = self.bank.accounts@;
        let mut i: usize = 0;
        while i < n
            invariant
                n == entries.len(),
                entries == self.bank.accounts@,
                i <= n,
                gold_total_defined(entries),
                total@ == gold_total(entries.take(i as int)),
                gold_total_exact(entries.take(i as int)) ==> total.value() == gold_sum(entries.take(i as int)),
                exact_gold_total(entries.take(i as int)) matches Some(t) ==> total@ == t,
            decreases n - i,
        {
            let g = self.bank.accounts[i].1.gold_balance;
            g.wf_fact();
            total.wf_fact();
            proof {
                let p = entries.take(i as int);
                let q = entries.take(i + 1);
                assert(q.drop_last() =~= p);
                assert(q.last() == entries[i as int]);
                lemma_gold_total_defined_prefix(entries, i + 1);
            }
            total = match total.checked_add(g) {
                Some(t) => t,
                None => {
                    proof { assert(false); }
                    total
                },
            };
            proof {
                let p = entries.take(i as int);
                if add_is_exact(gold_total(p), g@, false) {
                    lemma_exact_sum_value(gold_total(p), g@, false);
                }
            }
            i = i + 1;
        }
        proof {
            assert(entries.take(n as int) =~= entries);
        }
        let consistent = total.le(&self.total_token_supply) && self.total_token_supply.le(&total);
        let covered = self.total_token_supply.le(&self.physical_vault_grams);
        AuditReport { total_gold_in_accounts: total, ledger_consistent: consistent, fully_collateralized: covered }
    }

    /// Audits as `perform_audit` does where no partial sum overflows, and gives `None`
    /// where one would (`Decimal` panics there).
    pub fn try_perform_audit(&self) -> (r: Option<AuditReport>)
        ensures
            r is Some <==> gold_total_defined(self.bank.accounts@),
            r matches Some(a) ==> audit_outcome(*self, a),
    {
        let n = self.bank.accounts.len();
        let mut total = Amount::new(0, 1);
        let ghost entries = self.bank.accounts@;
        let mut i: usize = 0;
        while i < n
            invariant
                n == entries.len(),
                entries == self.bank.accounts@,
                i <= n,
                gold_total_defined(entries.take(i as int)),
                total@ == gold_total(entries.take(i as int)),
            decreases n - i,
        {
            let g = self.bank.accounts[i].1.gold_balance;
            proof {
                let p = entries.take(i as int);
                let q = entries.take(i + 1);
                assert(q.drop_last() =~= p);
                assert(q.last() == entries[i as int]);
            }
            total = match total.checked_add(g) {
                Some(t) => t,
                None => {
                    proof {
                        if gold_total_defined(entries) {
                            lemma_gold_total_defined_prefix(entries, i + 1);
                        }
                    }
                    return None;
                },
            };
            i = i + 1;
        }
        proof {
            assert(entries.take(n as int) =~= entries);
        }
        Some(self.perform_audit())
    }
}

/// What an audit of `p` reports: the tokens the accounts hold, added up as `Decimal`
/// adds them (the exact sum where no addition rounds), whether that matches the supply,
/// and whether the vault covers the supply.
pub open spec fn audit_outcome(p: RwaProtocol, r: AuditReport) -> bool {
    &&& r.total_gold_in_accounts@ == gold_total(p.bank.accounts@)
    &&& gold_total_exact(p.bank.accounts@) ==> r.total_gold_in_accounts.value() == gold_sum(p.bank.accounts@)
    &&& r.ledger_consistent == (r.total_gold_in_accounts.value() == p.total_token_supply.value())
    &&& r.fully_collateralized == p.fully_collateralized()
    &&& p.ledger_balanced() && gold_total_exact(p.bank.accounts@) ==> r.ledger_consistent
    &&& exact_gold_total(p.bank.accounts@) matches Some(t) ==> gold_total(p.bank.accounts@) == t
}

/// A purchase is turned away as an overflow only where a step of it overflows: when the
/// new supply, the cost `grams * price`, the total with the fee of `0.001`, the rupees
/// left and the new token balance all have results, the purchase can be made (whether it
/// then goes through or is refused for the vault, the account or the rupees).
pub proof fn law_buy_fits_unless_a_step_overflows(p: RwaProtocol, user: Seq<char>, grams: Amount)
    requires
        no_overflow(p.total_token_supply.value() + grams.value()),
        no_overflow_scaled(grams.value() * p.gold_price_inr.value()),
        decimal_checked_add(
            product_view(grams@, p.gold_price_inr@),
            product_view(product_view(grams@, p.gold_price_inr@), (1i128, 3u32, false)),
        ) is Some,
        decimal_checked_sub(
            p.account(user).balance@,
            sum_view(
                product_view(grams@, p.gold_price_inr@),
                product_view(product_view(grams@, p.gold_price_inr@), (1i128, 3u32, false)),
            ),
        ) is Some,
        no_overflow(p.account(user).gold_balance.value() + grams.value()),
    ensures
        p.buy_fits(user, grams),
{
}

/// A sale is turned away as an overflow only where a step of it overflows: when the
/// tokens left, the payout `grams * price`, the new rupee balance and the new supply all
/// have results, the sale can be made (whether it then goes through or is refused).
pub proof fn law_sell_fits_unless_a_step_overflows(p: RwaProtocol, user: Seq<char>, grams: Amount)
    requires
        no_overflow(p.account(user).gold_balance.value() - grams.value()),
        no_overflow_scaled(grams.value() * p.gold_price_inr.value()),
        decimal_checked_add(p.account(user).balance@, product_view(grams@, p.gold_price_inr@)) is Some,
        no_overflow(p.total_token_supply.value() - grams.value()),
    ensures
        p.sell_fits(user, grams),
{
}

/// A transfer is turned away as an overflow only where a step of it overflows: when the
/// sender's tokens less `grams` and the recipient's tokens plus `grams` (the same
/// account's, after the first step, when both names are one) have results, the transfer
/// can be made, whatever the recipient holds.
pub proof fn law_transfer_fits_unless_a_step_overflows(
    p: RwaProtocol,
    from: Seq<char>,
    to: Seq<char>,
    grams: Amount,
)
    requires
        no_overflow(p.account(from).gold_balance.value() - grams.value()),
        p.bank.index_of(from) != p.bank.index_of(to) ==> no_overflow(
            p.account(to).gold_balance.value() + grams.value(),
        ),
        p.bank.index_of(from) == p.bank.index_of(to) ==> decimal_checked_add(
            diff_view(p.account(from).gold_balance@, grams@),
            grams@,
        ) is Some,
    ensures
        p.transfer_fits(from, to, grams),
{
}

/// Selling the grams just bought gives the account and the supply back the tokens they
/// held before the purchase, and leaves the vault as it was, when no step rounds.
pub proof fn law_sell_undoes_buy(
    p0: RwaProtocol,
    p1: RwaProtocol,
    p2: RwaProtocol,
    user: Seq<char>,
    grams: Amount,
)
    requires
        p0.wf(),
        p0.bank.has_account(user),
        view_wf(grams@),
        view_wf(p0.account(user).gold_balance@),
        view_wf(p0.total_token_supply@),
        bought(p0, p1, user, grams),
        sold(p1, p2, user, grams),
        exact_sum(p0.account(user).gold_balance@, grams@, false) matches Some(g) && add_is_exact(g, grams@, true),
        exact_sum(p0.total_token_supply@, grams@, false) matches Some(s) && add_is_exact(s, grams@, true),
    ensures
        p2.account(user).gold_balance.value() == p0.account(user).gold_balance.value(),
        p2.total_token_supply.value() == p0.total_token_supply.value(),
        p2.physical_vault_grams == p0.physical_vault_grams,
        p2.history@.len() == p0.history@.len() + 2,
{
    let k = p0.bank.index_of(user);
    let g0 = p0.account(user).gold_balance@;
    let s0 = p0.total_token_supply@;
    assert forall|j: int| 0 <= j < p0.bank.accounts@.len() implies (#[trigger] p1.bank.accounts@[j]).0
        == p0.bank.accounts@[j].0 by {
        if j != k {
            assert(p1.bank.accounts@[j] == p0.bank.accounts@[j]);
        }
    }
    p0.bank.lemma_same_names(&p1.bank, user);
    assert forall|j: int| 0 <= j < p1.bank.accounts@.len() implies (#[trigger] p2.bank.accounts@[j]).0
        == p1.bank.accounts@[j].0 by {
        if j != k {
            assert(p2.bank.accounts@[j] == p1.bank.accounts@[j]);
        }
    }
    p1.bank.lemma_same_names(&p2.bank, user);
    let g = exact_sum_view(g0, grams@, false);
    let s = exact_sum_view(s0, grams@, false);
    lemma_exact_sum_value(g0, grams@, false);
    lemma_exact_sum_value(g, grams@, true);
    lemma_exact_sum_value(s0, grams@, false);
    lemma_exact_sum_value(s, grams@, true);
}

/// Buying grams and then selling them again at the same price costs the account exactly
/// the fee: `0.001` of the purchase's cost, when no step rounds.
pub proof fn law_buy_then_sell_costs_the_fee(
    p0: RwaProtocol,
    p1: RwaProtocol,
    p2: RwaProtocol,
    user: Seq<char>,
    grams: Amount,
)
    requires
        p0.wf(),
        p0.bank.has_account(user),
        view_wf(grams@),
        view_wf(p0.gold_price_inr@),
        view_wf(p0.account(user).balance@),
        bought(p0, p1, user, grams),
        sold(p1, p2, user, grams),
        exact_purchase_total(grams@, p0.gold_price_inr@) is Some,
        add_is_exact(p0.account(user).balance@, purchase_total(grams@, p0.gold_price_inr@), true),
        add_is_exact(
            diff_view(p0.account(user).balance@, purchase_total(grams@, p0.gold_price_inr@)),
            purchase_cost(grams@, p0.gold_price_inr@),
            false,
        ),
    ensures
        1000 * (p0.account(user).balance.value() - p2.account(user).balance.value()) == view_value(
            purchase_cost(grams@, p0.gold_price_inr@),
        ),
{
    let k = p0.bank.index_of(user);
    assert forall|j: int| 0 <= j < p0.bank.accounts@.len() implies (#[trigger] p1.bank.accounts@[j]).0
        == p0.bank.accounts@[j].0 by {
        if j != k {
            assert(p1.bank.accounts@[j] == p0.bank.accounts@[j]);
        }
    }
    p0.bank.lemma_same_names(&p1.bank, user);
    assert forall|j: int| 0 <= j < p1.bank.accounts@.len() implies (#[trigger] p2.bank.accounts@[j]).0
        == p1.bank.accounts@[j].0 by {
        if j != k {
            assert(p2.bank.accounts@[j] == p1.bank.accounts@[j]);
        }
    }
    p1.bank.lemma_same_names(&p2.bank, user);
    let price = p0.gold_price_inr@;
    let b0 = p0.account(user).balance@;
    let c = exact_product_view(grams@, price);
    lemma_exact_product_value(grams@, price);
    assert(view_wf(fee_rate()));
    let f = exact_product_view(c, fee_rate());
    lemma_exact_product_value(c, fee_rate());
    lemma_exact_sum_value(c, f, false);
    let t = exact_sum_view(c, f, false);
    lemma_exact_sum_value(b0, t, true);
    let b1 = exact_sum_view(b0, t, true);
    lemma_exact_sum_value(b1, c, false);
    lemma_pow10_add((25 - c.1) as nat, 3);
    assert(pow10(3) == 1000);
    let q = pow10((25 - c.1) as nat);
    assert(c.0 * 1 * q * 1000 == c.0 * (q * 1000)) by (nonlinear_arith);
}

/// Sending back the grams just received gives both accounts back the tokens they held,
/// when no step rounds.
pub proof fn law_transfer_back_restores(
    p0: RwaProtocol,
    p1: RwaProtocol,
    p2: RwaProtocol,
    a: Seq<char>,
    b: Seq<char>,
    grams: Amount,
)
    requires
        p0.wf(),
        p0.bank.has_account(a),
        p0.bank.has_account(b),
        a != b,
        view_wf(grams@),
        view_wf(p0.account(a).gold_balance@),
        view_wf(p0.account(b).gold_balance@),
        transferred(p0, p1, a, b, grams),
        transferred(p1, p2, b, a, grams),
        exact_sum(p0.account(a).gold_balance@, grams@, true) matches Some(ga) && add_is_exact(ga, grams@, false),
        exact_sum(p0.account(b).gold_balance@, grams@, false) matches Some(gb) && add_is_exact(gb, grams@, true),
    ensures
        p2.account(a).gold_balance.value() == p0.account(a).gold_balance.value(),
        p2.account(b).gold_balance.value() == p0.account(b).gold_balance.value(),
        p2.total_token_supply == p0.total_token_supply,
        p2.history@.len() == p0.history@.len() + 2,
{
    p0.bank.lemma_same_names(&p1.bank, a);
    p0.bank.lemma_same_names(&p1.bank, b);
    p1.bank.lemma_same_names(&p2.bank, a);
    p1.bank.lemma_same_names(&p2.bank, b);
    let ka = p0.bank.index_of(a);
    let kb = p0.bank.index_of(b);
    assert(ka != kb);
    let ga0 = p0.account(a).gold_balance@;
    let gb0 = p0.account(b).gold_balance@;
    let ga = exact_sum_view(ga0, grams@, true);
    let gb = exact_sum_view(gb0, grams@, false);
    lemma_exact_sum_value(ga0, grams@, true);
    lemma_exact_sum_value(gb0, grams@, false);
    lemma_exact_sum_value(gb, grams@, true);
    lemma_exact_sum_value(ga, grams@, false);
}

} // verus!
