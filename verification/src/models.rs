//! Accounts, the bank that holds them, the transactions of the audit trail and the
//! market price.
use vstd::prelude::*;
use vstd::string::*;
use crate::decimal::{
    add_is_exact, decimal_checked_add, decimal_checked_mul, decimal_text, diff_view, exact_product,
    exact_sum, exact_sum_view, lemma_exact_sum_value, lemma_rounded_sign, lemma_value_bound,
    no_overflow, product_view, sum_view, view_wf, Amount, AmountView,
};
use crate::time::Timestamp;

verus! {

/// Who an account belongs to: an administrator of the vault or a customer.
#[derive(Clone, Copy, Debug, PartialEq, Eq, Structural)]
pub enum UserRole {
    Admin,
    Customer,
}

impl UserRole {
    /// The role asked for by the answer to "Is this an admin? (y/n)": an administrator for
    /// `y` in either case, a customer for anything else.
    pub fn from_answer(answer: &str) -> (r: UserRole)
        ensures
            r == UserRole::Admin <==> (answer@ == "y"@ || answer@ == "Y"@),
    {
        let text = String::from_str(answer);
        if text == String::from_str("y") || text == String::from_str("Y") {
            UserRole::Admin
        } else {
            UserRole::Customer
        }
    }
}

/// One entry of the audit trail.
pub struct Transaction {
    pub timestamp: Timestamp,
    pub owner: String,
    pub action: String,
    pub amount: Amount,
    pub price_at_time: Amount,
}

/// A customer's (or an administrator's) holdings: rupees and grams of gold tokens.
pub struct Account {
    pub owner: String,
    pub role: UserRole,
    pub balance: Amount,
    pub gold_balance: Amount,
    pub interest_rate: Amount,
}

/// `0.0`, the balance a new account opens with.
pub open spec fn opening_balance() -> AmountView {
    (0i128, 1u32, false)
}

/// The account `Account::new(name, rate, role)` opens.
pub open spec fn opened_account(account: Account, name: Seq<char>, rate: AmountView, role: UserRole) -> bool {
    &&& account.owner@ == name
    &&& account.role == role
    &&& account.balance@ == opening_balance()
    &&& account.gold_balance@ == opening_balance()
    &&& account.interest_rate@ == rate
}

/// What a deposit of `amount` changes: the rupee balance becomes `balance + amount`, the
/// exact sum where no rounding is needed.
pub open spec fn deposited(before: Account, after: Account, amount: Amount) -> bool {
    &&& after.balance@ == sum_view(before.balance@, amount@)
    &&& exact_sum(before.balance@, amount@, false) matches Some(v) ==> after.balance@ == v
    &&& after.owner == before.owner
    &&& after.role == before.role
    &&& after.gold_balance == before.gold_balance
    &&& after.interest_rate == before.interest_rate
}

/// What a withdrawal of `amount` that went through changes: the rupee balance becomes
/// `balance - amount`, the exact difference where no rounding is needed.
pub open spec fn withdrew(before: Account, after: Account, amount: Amount) -> bool {
    &&& after.balance@ == diff_view(before.balance@, amount@)
    &&& exact_sum(before.balance@, amount@, true) matches Some(v) ==> after.balance@ == v
    &&& after.owner == before.owner
    &&& after.role == before.role
    &&& after.gold_balance == before.gold_balance
    &&& after.interest_rate == before.interest_rate
}

/// Withdrawing the amount just deposited gives the account back its balance, when
/// neither step rounds.
pub proof fn law_withdraw_undoes_deposit(a0: Account, a1: Account, a2: Account, amount: Amount)
    requires
        view_wf(a0.balance@),
        view_wf(amount@),
        deposited(a0, a1, amount),
        withdrew(a1, a2, amount),
        exact_sum(a0.balance@, amount@, false) matches Some(b) && add_is_exact(b, amount@, true),
    ensures
        a2.balance.value() == a0.balance.value(),
        a2.gold_balance == a0.gold_balance,
        a2.owner == a0.owner,
        a2.role == a0.role,
{
    let b = exact_sum_view(a0.balance@, amount@, false);
    lemma_exact_sum_value(a0.balance@, amount@, false);
    lemma_exact_sum_value(b, amount@, true);
}

/// Neither step of `balance += balance * rate` overflows.
pub open spec fn interest_fits(balance: AmountView, rate: AmountView) -> bool {
    &&& decimal_checked_mul(balance, rate) is Some
    &&& decimal_checked_add(balance, product_view(balance, rate)) is Some
}

/// What adding interest changes: the rupee balance becomes `balance + balance * rate`,
/// each step the exact result where it needs no rounding.
pub open spec fn earned_interest(before: Account, after: Account) -> bool {
    let interest = product_view(before.balance@, before.interest_rate@);
    &&& after.balance@ == sum_view(before.balance@, interest)
    &&& exact_product(before.balance@, before.interest_rate@) matches Some(i) ==> interest == i
    &&& exact_sum(before.balance@, interest, false) matches Some(v) ==> after.balance@ == v
    &&& after.owner == before.owner
    &&& after.role == before.role
    &&& after.gold_balance == before.gold_balance
    &&& after.interest_rate == before.interest_rate
}

impl Account {
    /// Opens an account for `name` with no rupees and no gold.
    pub fn new(name: &str, rate: Amount, role: UserRole) -> (r: Account)
        ensures
            opened_account(r, name@, rate@, role),
    {
        Account {
            owner: String::from_str(name),
            role: role,
            balance: Amount::new(0, 1),
            gold_balance: Amount::new(0, 1),
            interest_rate: rate,
        }
    }

    /// Adds `amount` to the rupee balance.
    pub fn deposit(&mut self, amount: Amount)
        requires
            no_overflow(old(self).balance.value() + amount.value()),
        ensures
            deposited(*old(self), *final(self), amount),
            add_is_exact(old(self).balance@, amount@, false) ==> final(self).balance.value()
                == old(self).balance.value() + amount.value(),
    {
        self.balance = self.balance.add(amount);
    }

    /// The announcement of a deposit of `amount`:
    /// `Success: $<amount> deposited to <owner>'s account.`
    pub fn deposit_notice(&self, amount: Amount) -> (r: String)
        ensures
            r@ == "Success: $"@ + decimal_text(amount@) + " deposited to "@ + self.owner@ + "'s account."@,
    {
        let mut text = String::from_str("Success: $");
        let shown = amount.to_text();
        text.append(shown.as_str());
        text.append(" deposited to ");
        text.append(self.owner.as_str());
        text.append("'s account.");
        text
    }

    /// The balance after a deposit: `Deposited! New balance: $<balance>`.
    pub fn balance_notice(&self) -> (r: String)
        ensures
            r@ == "Deposited! New balance: $"@ + decimal_text(self.balance@),
    {
        let mut text = String::from_str("Deposited! New balance: $");
        let shown = self.balance.to_text();
        text.append(shown.as_str());
        text
    }

    /// Adds the interest the account's rate earns on its rupee balance:
    /// `balance += balance * interest_rate`. Neither step may overflow, as `Decimal`
    /// panics there.
    pub fn apply_interest(&mut self)
        requires
            interest_fits(old(self).balance@, old(self).interest_rate@),
        ensures
            earned_interest(*old(self), *final(self)),
    {
        let interest = match self.balance.checked_mul(self.interest_rate) {
            Some(i) => i,
            None => {
                proof { assert(false); }
                Amount::zero()
            },
        };
        match self.balance.checked_add(interest) {
            Some(b) => {
                self.balance = b;
            },
            None => {
                proof { assert(false); }
            },
        }
    }

    /// Adds the interest where that does not overflow, as `apply_interest` does, and says
    /// whether it did; where it would overflow (`Decimal` panics there), the account stays
    /// as it is.
    pub fn try_apply_interest(&mut self) -> (r: bool)
        ensures
            r == interest_fits(old(self).balance@, old(self).interest_rate@),
            r ==> earned_interest(*old(self), *final(self)),
            !r ==> *final(self) == *old(self),
    {
        match self.balance.checked_mul(self.interest_rate) {
            Some(interest) => {
                match self.balance.checked_add(interest) {
                    Some(_) => {
                        self.apply_interest();
                        true
                    },
                    None => false,
                }
            },
            None => false,
        }
    }

    /// Takes `amount` out of the rupee balance. Refuses an amount that is not positive,
    /// and one larger than the balance; a refused withdrawal changes nothing.
    pub fn withdraw(&mut self, amount: Amount) -> (r: Result<(), String>)
        ensures
            amount.value() <= 0 ==> (r matches Err(e) && e@ == "Cannot withdraw zero or negative amounts"@),
            0 < amount.value() <= old(self).balance.value() ==> r is Ok,
            0 < amount.value() && old(self).balance.value() < amount.value() ==> (r matches Err(e)
                && e@ == "Insufficient funds for this transaction"@),
            r is Err ==> *final(self) == *old(self),
            r is Ok ==> withdrew(*old(self), *final(self), amount),
            r is Ok ==> add_is_exact(old(self).balance@, amount@, true) ==> final(self).balance.value()
                == old(self).balance.value() - amount.value(),
            r is Ok ==> final(self).balance.value() >= 0,
            final(self).balance.value() <= old(self).balance.value(),
            old(self).balance.value() >= 0 ==> final(self).balance.value() >= 0,
    {
        let zero = Amount::new(0, 0);
        if amount.le(&zero) {
            return Err(String::from_str("Cannot withdraw zero or negative amounts"));
        }
        if amount.le(&self.balance) {
            self.balance.wf_fact();
            proof {
                lemma_value_bound(self.balance@);
            }
            let remaining = self.balance.sub(amount);
            proof {
                lemma_rounded_sign(remaining@, self.balance.value() - amount.value());
            }
            self.balance = remaining;
            Ok(())
        } else {
            Err(String::from_str("Insufficient funds for this transaction"))
        }
    }
}

/// No two entries of the bank share a name.
pub open spec fn keys_unique(entries: Seq<(String, Account)>) -> bool {
    forall|i: int, j: int|
        0 <= i < entries.len() && 0 <= j < entries.len() && i != j ==> entries[i].0@ != entries[j].0@
}

/// Some entry of the bank is filed under `name`.
pub open spec fn has_key(entries: Seq<(String, Account)>, name: Seq<char>) -> bool {
    exists|i: int| 0 <= i < entries.len() && entries[i].0@ == name
}

/// The position of the entry filed under `name` (meaningful where `has_key` holds).
pub open spec fn key_index(entries: Seq<(String, Account)>, name: Seq<char>) -> int {
    choose|i: int| 0 <= i < entries.len() && entries[i].0@ == name
}

/// The grams of gold tokens that the entries hold, added up exactly.
pub open spec fn gold_sum(entries: Seq<(String, Account)>) -> int
    decreases entries.len(),
{
    if entries.len() == 0 {
        0
    } else {
        gold_sum(entries.drop_last()) + entries.last().1.gold_balance.value()
    }
}

/// Replacing one entry changes the sum of gold by the change in that entry.
pub proof fn lemma_gold_sum_update(entries: Seq<(String, Account)>, i: int, e: (String, Account))
    requires
        0 <= i < entries.len(),
    ensures
        gold_sum(entries.update(i, e)) == gold_sum(entries) - entries[i].1.gold_balance.value()
            + e.1.gold_balance.value(),
    decreases entries.len(),
{
    let u = entries.update(i, e);
    if i == entries.len() - 1 {
        assert(u.drop_last() =~= entries.drop_last());
    } else {
        lemma_gold_sum_update(entries.drop_last(), i, e);
        assert(u.drop_last() =~= entries.drop_last().update(i, e));
    }
}

/// The accounts, each filed under a name; no name occurs twice.
pub struct Bank {
    pub accounts: Vec<(String, Account)>,
}

impl Bank {
    /// Names are unique.
    pub open spec fn wf(&self) -> bool {
        keys_unique(self.accounts@)
    }

    /// An account is filed under `name`.
    pub open spec fn has_account(&self, name: Seq<char>) -> bool {
        has_key(self.accounts@, name)
    }

    /// The position of the account filed under `name`.
    pub open spec fn index_of(&self, name: Seq<char>) -> int {
        key_index(self.accounts@, name)
    }

    /// The account filed at position `i` is the one filed under its name.
    pub proof fn lemma_index_of(&self, i: int)
        requires
            self.wf(),
            0 <= i < self.accounts@.len(),
        ensures
            self.has_account(self.accounts@[i].0@),
            self.index_of(self.accounts@[i].0@) == i,
    {
        let name = self.accounts@[i].0@;
        assert(has_key(self.accounts@, name));
        let k = self.index_of(name);
        if k != i {
            assert(self.accounts@[k].0@ != self.accounts@[i].0@);
        }
    }

    /// A bank that files the same names in the same places finds each name where the
    /// other does.
    pub proof fn lemma_same_names(&self, other: &Bank, name: Seq<char>)
        requires
            self.wf(),
            self.has_account(name),
            other.accounts@.len() == self.accounts@.len(),
            forall|j: int| 0 <= j < self.accounts@.len() ==> (#[trigger] other.accounts@[j]).0 == self.accounts@[j].0,
        ensures
            other.wf(),
            other.has_account(name),
            other.index_of(name) == self.index_of(name),
    {
        let k = self.index_of(name);
        assert(other.accounts@[k].0 == self.accounts@[k].0);
        assert(keys_unique(other.accounts@)) by {
            assert forall|i: int, j: int|
                0 <= i < other.accounts@.len() && 0 <= j < other.accounts@.len() && i != j implies
                other.accounts@[i].0@ != other.accounts@[j].0@ by {
                assert(other.accounts@[i].0 == self.accounts@[i].0);
                assert(other.accounts@[j].0 == self.accounts@[j].0);
            }
        }
        other.lemma_index_of(k);
    }

    /// A bank with no accounts.
    pub fn new() -> (r: Bank)
        ensures
            r.wf(),
            r.accounts@.len() == 0,
    {
        Bank { accounts: Vec::new() }
    }

    /// Where the account filed under `name` stands, if there is one.
    pub fn find(&self, name: &str) -> (r: Option<usize>)
        requires
            self.wf(),
        ensures
            r is Some <==> self.has_account(name@),
            r matches Some(i) ==> i < self.accounts@.len() && i == self.index_of(name@)
                && self.accounts@[i as int].0@ == name@,
    {
        let key = String::from_str(name);
        let n = self.accounts.len();
        let mut i: usize = 0;
        while i < n
            invariant
                self.wf(),
                n == self.accounts@.len(),
                i <= n,
                key@ == name@,
                forall|j: int| 0 <= j < i ==> self.accounts@[j].0@ != name@,
            decreases n - i,
        {
            if self.accounts[i].0 == key {
                proof {
                    assert(self.accounts@[i as int].0@ == name@);
                    assert(has_key(self.accounts@, name@));
                    let k = self.index_of(name@);
                    assert(0 <= k < n && self.accounts@[k].0@ == name@);
                    if k != i {
                        assert(self.accounts@[k].0@ != self.accounts@[i as int].0@);
                    }
                }
                return Some(i);
            }
            i = i + 1;
        }
        None
    }

    /// Opens an account for `name`. An account already filed under `name` is replaced by
    /// the new one, in its place; otherwise the new account is filed last.
    pub fn add_account(&mut self, name: &str, rate: Amount, role: UserRole)
        requires
            old(self).wf(),
        ensures
            final(self).wf(),
            old(self).has_account(name@) ==> {
                let k = old(self).index_of(name@);
                &&& final(self).accounts@.len() == old(self).accounts@.len()
                &&& final(self).accounts@[k].0@ == name@
                &&& opened_account(final(self).accounts@[k].1, name@, rate@, role)
                &&& forall|j: int| 0 <= j < old(self).accounts@.len() && j != k
                    ==> final(self).accounts@[j] == old(self).accounts@[j]
                &&& gold_sum(final(self).accounts@) == gold_sum(old(self).accounts@)
                    - old(self).accounts@[k].1.gold_balance.value()
            },
            !old(self).has_account(name@) ==> {
                let n = old(self).accounts@.len();
                &&& final(self).accounts@.len() == n + 1
                &&& final(self).accounts@.subrange(0, n as int) == old(self).accounts@
                &&& final(self).accounts@[n as int].0@ == name@
                &&& opened_account(final(self).accounts@[n as int].1, name@, rate@, role)
                &&& gold_sum(final(self).accounts@) == gold_sum(old(self).accounts@)
            },
    {
        let account = Account::new(name, rate, role);
        match self.find(name) {
            Some(i) => {
                let key = String::from_str(name);
                let ghost before = self.accounts@;
                self.accounts.set(i, (key, account));
                proof {
                    assert(keys_unique(self.accounts@));
                    lemma_gold_sum_update(before, i as int, self.accounts@[i as int]);
                }
            },
            None => {
                let ghost before = self.accounts@;
                self.accounts.push((String::from_str(name), account));
                proof {
                    assert(keys_unique(self.accounts@));
                    assert(self.accounts@.drop_last() =~= before);
                }
            },
        }
    }
}

/// The market's price of one gram of gold.
pub struct Market {
    pub gold_price_per_gram: Amount,
}

impl Market {
    /// Sets the price.
    pub fn update_price(&mut self, new_price: Amount)
        ensures
            final(self).gold_price_per_gram == new_price,
    {
        self.gold_price_per_gram = new_price;
    }

    /// The announcement of the price: `Attention! Updated gold price: ` and the price.
    pub fn price_notice(&self) -> (r: String)
        ensures
            r@ == "Attention! Updated gold price: "@ + decimal_text(self.gold_price_per_gram@),
    {
        let mut text = String::from_str("Attention! Updated gold price: ");
        let price = self.gold_price_per_gram.to_text();
        text.append(price.as_str());
        text
    }
}

} // verus!
