//! The account ledger: a store from identities to balances in which a
//! missing entry stands for a balance of zero.

use std::collections::HashMap;
use vstd::prelude::*;
use vstd::std_specs::hash::*;
use crate::balance::Balance;
use crate::types::AccountId;

verus! {

/// The number of distinct identities.
pub open spec fn id_count() -> nat {
    (AccountId::MAX + 1) as nat
}

/// The balance that `accounts` holds for `who`: zero where it has no entry.
pub open spec fn balance_of(accounts: Map<AccountId, Balance>, who: AccountId) -> Balance {
    if accounts.contains_key(who) {
        accounts[who]
    } else {
        0
    }
}

/// The sum of the balances of the identities smaller than `bound`.
pub open spec fn total_below(accounts: Map<AccountId, Balance>, bound: nat) -> nat
    decreases bound,
{
    if bound == 0 {
        0
    } else {
        let last = (bound - 1) as nat;
        total_below(accounts, last) + balance_of(accounts, last as AccountId) as nat
    }
}

/// The sum of the balances of all identities.
pub open spec fn total(accounts: Map<AccountId, Balance>) -> nat {
    total_below(accounts, id_count())
}

/// What `who` contributes to the sum of the balances below `bound`.
pub open spec fn share_below(accounts: Map<AccountId, Balance>, who: AccountId, bound: nat) -> nat {
    if who < bound {
        balance_of(accounts, who) as nat
    } else {
        0
    }
}

/// Two ledgers that differ at most in what they hold for `who` have the same
/// sum below `bound` once the share of `who` is left out of both.
proof fn lemma_total_below_apart_from(
    a: Map<AccountId, Balance>,
    b: Map<AccountId, Balance>,
    who: AccountId,
    bound: nat,
)
    requires
        bound <= id_count(),
        forall|k: AccountId| k != who ==> balance_of(a, k) == balance_of(b, k),
    ensures
        total_below(a, bound) - share_below(a, who, bound) == total_below(b, bound) - share_below(
            b,
            who,
            bound,
        ),
    decreases bound,
{
    if bound > 0 {
        lemma_total_below_apart_from(a, b, who, (bound - 1) as nat);
    }
}

/// No identity holds more than all identities together below a bound that
/// lies above it.
proof fn lemma_share_below_le_total_below(
    accounts: Map<AccountId, Balance>,
    who: AccountId,
    bound: nat,
)
    requires
        bound <= id_count(),
    ensures
        share_below(accounts, who, bound) <= total_below(accounts, bound),
    decreases bound,
{
    if bound > 0 {
        lemma_share_below_le_total_below(accounts, who, (bound - 1) as nat);
    }
}

/// Nothing below any bound adds up to anything in a ledger without entries.
proof fn lemma_total_below_empty(bound: nat)
    ensures
        total_below(Map::<AccountId, Balance>::empty(), bound) == 0,
    decreases bound,
{
    if bound > 0 {
        lemma_total_below_empty((bound - 1) as nat);
    }
}

/// A ledger without entries holds nothing.
pub proof fn lemma_total_empty()
    ensures
        total(Map::<AccountId, Balance>::empty()) == 0,
{
    lemma_total_below_empty(id_count());
}

/// No single balance exceeds the sum of all balances.
pub proof fn lemma_balance_le_total(accounts: Map<AccountId, Balance>, who: AccountId)
    ensures
        balance_of(accounts, who) <= total(accounts),
{
    lemma_share_below_le_total_below(accounts, who, id_count());
}

/// Writing `value` for `who` changes the sum by the difference between
/// `value` and what `who` held before.
pub proof fn lemma_total_insert(accounts: Map<AccountId, Balance>, who: AccountId, value: Balance)
    ensures
        total(accounts.insert(who, value)) == total(accounts) - balance_of(accounts, who) + value,
{
    lemma_total_below_apart_from(accounts, accounts.insert(who, value), who, id_count());
}

/// Removing the entry of `who` takes what `who` held out of the sum.
pub proof fn lemma_total_remove(accounts: Map<AccountId, Balance>, who: AccountId)
    ensures
        total(accounts.remove(who)) == total(accounts) - balance_of(accounts, who),
{
    lemma_total_below_apart_from(accounts, accounts.remove(who), who, id_count());
}

/// The account ledger.
pub struct Accounts {
    entries: HashMap<AccountId, Balance>,
}

impl View for Accounts {
    type V = Map<AccountId, Balance>;

    /// The entries of the ledger.
    closed spec fn view(&self) -> Map<AccountId, Balance> {
        self.entries@
    }
}

impl Accounts {
    /// A ledger without entries.
    pub fn new() -> (r: Accounts)
        ensures
            r@ == Map::<AccountId, Balance>::empty(),
    {
        Accounts { entries: HashMap::new() }
    }

    /// The balance of `who`: zero where the ledger has no entry for it.
    pub fn get(&self, who: AccountId) -> (r: Balance)
        ensures
            r == balance_of(self@, who),
    {
        broadcast use group_hash_axioms;

        match self.entries.get(&who) {
            Some(balance) => *balance,
            None => 0,
        }
    }

    /// Whether the ledger has an entry for `who`.
    pub fn contains(&self, who: AccountId) -> (r: bool)
        ensures
            r == self@.contains_key(who),
    {
        broadcast use group_hash_axioms;

        self.entries.contains_key(&who)
    }

    /// Writes `balance` as the entry of `who`, whatever was there before.
    pub fn insert(&mut self, who: AccountId, balance: Balance)
        ensures
            final(self)@ == old(self)@.insert(who, balance),
    {
        broadcast use group_hash_axioms;

        self.entries.insert(who, balance);
    }

    /// Removes the entry of `who`, if there is one.
    pub fn remove(&mut self, who: AccountId)
        ensures
            final(self)@ == old(self)@.remove(who),
    {
        broadcast use group_hash_axioms;

        self.entries.remove(&who);
    }
}

} // verus!
