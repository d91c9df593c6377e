//! The ledger store: how much each account holds, and the only way to move
//! value from one account to another.

use vstd::prelude::*;
use vstd::hash_map::StringHashMap;
use crate::numeric::{checked_add_u128, checked_sub_u128, zero_u128};
use crate::types::{AccountId, Balance};

verus! {

/// Why a transfer was refused.
#[derive(Debug, Clone, Copy, PartialEq, Eq, Structural)]
pub enum ErrorKind {
    /// The sender holds less than the amount to be moved.
    InsufficientFunds,
    /// The recipient's balance would exceed `Balance::MAX`.
    Overflow,
}

impl ErrorKind {
    /// The text that `message` returns for this error.
    pub open spec fn message_text(self) -> Seq<char> {
        match self {
            ErrorKind::InsufficientFunds => "Not enough funds"@,
            ErrorKind::Overflow => "Overflow occured"@,
        }
    }

    /// A short description of the error, for display.
    pub fn message(&self) -> (text: &'static str)
        ensures
            text@ == self.message_text(),
    {
        match self {
            ErrorKind::InsufficientFunds => "Not enough funds",
            ErrorKind::Overflow => "Overflow occured",
        }
    }
}

/// What `who` holds in `ledger`: the stored amount, or zero for an account
/// with no entry. An absent entry and a stored zero are the same balance.
pub open spec fn balance_of(ledger: Map<Seq<char>, Balance>, who: Seq<char>) -> Balance {
    if ledger.contains_key(who) {
        ledger[who]
    } else {
        0
    }
}

/// How a transfer of `amount` from `caller` to `to` ends on `ledger`:
/// refused for want of funds when `caller` holds less than `amount`;
/// otherwise refused for overflow when the balance of `to` plus `amount`
/// exceeds `Balance::MAX`; otherwise carried out.
pub open spec fn transfer_outcome(
    ledger: Map<Seq<char>, Balance>,
    caller: Seq<char>,
    to: Seq<char>,
    amount: Balance,
) -> Result<(), ErrorKind> {
    if balance_of(ledger, caller) < amount {
        Err(ErrorKind::InsufficientFunds)
    } else if balance_of(ledger, to) + amount > Balance::MAX {
        Err(ErrorKind::Overflow)
    } else {
        Ok(())
    }
}

/// The ledger that a transfer of `amount` from `caller` to `to` leaves
/// behind. A refused transfer leaves `ledger` as it was. A transfer that is
/// carried out stores the debited balance for `caller` and then the credited
/// balance for `to`, both computed from `ledger`.
pub open spec fn after_transfer(
    ledger: Map<Seq<char>, Balance>,
    caller: Seq<char>,
    to: Seq<char>,
    amount: Balance,
) -> Map<Seq<char>, Balance> {
    if transfer_outcome(ledger, caller, to, amount) is Ok {
        ledger.insert(caller, (balance_of(ledger, caller) - amount) as Balance).insert(
            to,
            (balance_of(ledger, to) + amount) as Balance,
        )
    } else {
        ledger
    }
}

/// The balance store. Its view is the map from account names to the amounts
/// stored for them; accounts that were never written have no entry.
pub struct Pallet {
    balances: StringHashMap<Balance>,
}

impl View for Pallet {
    type V = Map<Seq<char>, Balance>;

    closed spec fn view(&self) -> Map<Seq<char>, Balance> {
        self.balances@
    }
}

impl Pallet {
    /// Creates a store in which no account holds anything.
    pub fn new() -> (pallet: Self)
        ensures
            pallet@ == Map::<Seq<char>, Balance>::empty(),
            forall|who: Seq<char>| #[trigger] balance_of(pallet@, who) == 0,
    {
        Self { balances: StringHashMap::new() }
    }

    /// Sets the balance of `who` to `amount`, replacing whatever was stored.
    pub fn set_balance(&mut self, who: &AccountId, amount: Balance)
        ensures
            final(self)@ == old(self)@.insert(who@, amount),
            balance_of(final(self)@, who@) == amount,
    {
        self.balances.insert(who.clone(), amount);
    }

    /// The balance of `who`, which is zero for an account never written.
    pub fn balance(&self, who: &AccountId) -> (amount: Balance)
        ensures
            amount == balance_of(self@, who@),
    {
        match self.balances.get(who.as_str()) {
            Some(stored) => *stored,
            None => zero_u128(),
        }
    }

    /// Moves `amount` from `caller` to `to`. Both balances are read before
    /// either is written, and nothing is written unless both the debit and
    /// the credit can be represented.
    pub fn transfer(
        &mut self,
        caller: AccountId,
        to: AccountId,
        amount: Balance,
    ) -> (outcome: Result<(), ErrorKind>)
        ensures
            outcome == transfer_outcome(old(self)@, caller@, to@, amount),
            final(self)@ == after_transfer(old(self)@, caller@, to@, amount),
    {
        let caller_balance = self.balance(&caller);
        let to_balance = self.balance(&to);

        let new_caller_balance = match checked_sub_u128(caller_balance, amount) {
            Some(rest) => rest,
            None => { return Err(ErrorKind::InsufficientFunds); },
        };
        let new_to_balance = match checked_add_u128(to_balance, amount) {
            Some(sum) => sum,
            None => { return Err(ErrorKind::Overflow); },
        };

        self.set_balance(&caller, new_caller_balance);
        self.set_balance(&to, new_to_balance);

        Ok(())
    }
}

/// Setting a balance overwrites: afterwards the account holds exactly the
/// amount set, whatever it held before, and every other account holds what it
/// held.
pub proof fn lemma_set_balance_overwrites(
    ledger: Map<Seq<char>, Balance>,
    who: Seq<char>,
    amount: Balance,
)
    ensures
        balance_of(ledger.insert(who, amount), who) == amount,
        forall|other: Seq<char>|
            other != who ==> #[trigger] balance_of(ledger.insert(who, amount), other)
                == balance_of(ledger, other),
{
}

/// A transfer between two different accounts that is carried out debits the
/// sender by the amount, credits the recipient by the amount, and leaves
/// every other account as it was.
pub proof fn lemma_transfer_moves_amount(
    ledger: Map<Seq<char>, Balance>,
    caller: Seq<char>,
    to: Seq<char>,
    amount: Balance,
)
    requires
        caller != to,
        transfer_outcome(ledger, caller, to, amount) is Ok,
    ensures
        balance_of(after_transfer(ledger, caller, to, amount), caller) == balance_of(
            ledger,
            caller,
        ) - amount,
        balance_of(after_transfer(ledger, caller, to, amount), to) == balance_of(ledger, to)
            + amount,
        forall|other: Seq<char>|
            other != caller && other != to ==> #[trigger] balance_of(
                after_transfer(ledger, caller, to, amount),
                other,
            ) == balance_of(ledger, other),
{
}

/// Conservation: a transfer between two different accounts that is carried
/// out leaves the sum of their two balances unchanged.
pub proof fn lemma_transfer_conserves(
    ledger: Map<Seq<char>, Balance>,
    caller: Seq<char>,
    to: Seq<char>,
    amount: Balance,
)
    requires
        caller != to,
        transfer_outcome(ledger, caller, to, amount) is Ok,
    ensures
        balance_of(after_transfer(ledger, caller, to, amount), caller) + balance_of(
            after_transfer(ledger, caller, to, amount),
            to,
        ) == balance_of(ledger, caller) + balance_of(ledger, to),
{
    lemma_transfer_moves_amount(ledger, caller, to, amount);
}

/// A transfer from an account to itself reads the balance once and writes
/// the credited balance last, so when it is carried out the account ends up
/// holding its old balance plus the amount.
pub proof fn lemma_self_transfer_credits(
    ledger: Map<Seq<char>, Balance>,
    who: Seq<char>,
    amount: Balance,
)
    requires
        transfer_outcome(ledger, who, who, amount) is Ok,
    ensures
        balance_of(after_transfer(ledger, who, who, amount), who) == balance_of(ledger, who)
            + amount,
{
}

/// A transfer of nothing from an account to itself is always carried out and
/// leaves the account's balance unchanged.
pub proof fn lemma_self_transfer_of_nothing(
    ledger: Map<Seq<char>, Balance>,
    who: Seq<char>,
    amount: Balance,
)
    requires
        amount == 0,
    ensures
        transfer_outcome(ledger, who, who, amount) is Ok,
        balance_of(after_transfer(ledger, who, who, amount), who) == balance_of(ledger, who),
{
}

/// Failure atomicity: a refused transfer, for want of funds or for overflow,
/// leaves the whole ledger exactly as it was.
pub proof fn lemma_refused_transfer_changes_nothing(
    ledger: Map<Seq<char>, Balance>,
    caller: Seq<char>,
    to: Seq<char>,
    amount: Balance,
)
    requires
        transfer_outcome(ledger, caller, to, amount) is Err,
    ensures
        after_transfer(ledger, caller, to, amount) == ledger,
{
}

} // verus!
