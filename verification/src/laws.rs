//! What holds of every ledger: the invariants that a new ledger has and that
//! every successful transition keeps.

use vstd::prelude::*;
use crate::accounts::{
    lemma_balance_le_total, lemma_total_empty, lemma_total_insert, lemma_total_remove, total,
};
use crate::balance::Balance;
use crate::state::State;
use crate::types::{AccountId, Config, Error};

verus! {

/// In a new ledger the issuance equals the sum of all balances: both are zero.
pub proof fn genesis_is_balanced(admin: AccountId, config: Config)
    ensures
        State::genesis(admin, config).balanced(),
{
    lemma_total_empty();
}

/// Where the issuance equals the sum of all balances, it still does after a
/// successful mint.
pub proof fn mint_keeps_balanced(
    state: State,
    caller: AccountId,
    beneficiary: AccountId,
    amount: Balance,
)
    requires
        state.balanced(),
    ensures
        state.mint(caller, beneficiary, amount) matches Ok(next) ==> next.balanced(),
{
    lemma_balance_le_total(state.accounts, beneficiary);
    lemma_total_insert(
        state.accounts,
        beneficiary,
        state.minted(beneficiary, amount).balance(beneficiary),
    );
}

/// Where the issuance equals the sum of all balances, it still does after a
/// successful burn, unless the minimum balance is zero and the burn asks for
/// more than the target holds: such a burn empties the account and takes the
/// whole amount asked for from the issuance.
pub proof fn burn_keeps_balanced(
    state: State,
    caller: AccountId,
    target: AccountId,
    amount: Balance,
    allow_killing: bool,
)
    requires
        state.balanced(),
        !(state.config.min_balance == 0 && amount > state.balance(target)),
    ensures
        state.burn(caller, target, amount, allow_killing) matches Ok(next) ==> next.balanced(),
{
    lemma_balance_le_total(state.accounts, target);
    lemma_total_remove(state.accounts, target);
    lemma_total_insert(state.accounts, target, state.remainder(target, amount));
}

/// With a minimum balance of zero, a successful burn of more than the target
/// holds leaves the issuance below the sum of all balances.
pub proof fn overdrawn_burn_breaks_balance(
    state: State,
    caller: AccountId,
    target: AccountId,
    amount: Balance,
    allow_killing: bool,
)
    requires
        state.balanced(),
        state.config.min_balance == 0,
        amount > state.balance(target),
    ensures
        state.burn(caller, target, amount, allow_killing) matches Ok(next) ==> next.meta.issuance
            < total(next.accounts),
{
    lemma_total_insert(state.accounts, target, 0);
}

/// A new ledger has no entry with a positive balance below the minimum: it
/// has no entry.
pub proof fn genesis_has_no_dust(admin: AccountId, config: Config)
    ensures
        State::genesis(admin, config).no_dust(),
{
}

/// Where no entry holds a positive balance below the minimum, none does after
/// a successful mint.
pub proof fn mint_keeps_no_dust(
    state: State,
    caller: AccountId,
    beneficiary: AccountId,
    amount: Balance,
)
    requires
        state.no_dust(),
    ensures
        state.mint(caller, beneficiary, amount) matches Ok(next) ==> next.no_dust(),
{
}

/// Where no entry holds a positive balance below the minimum, none does after
/// a successful burn.
pub proof fn burn_keeps_no_dust(
    state: State,
    caller: AccountId,
    target: AccountId,
    amount: Balance,
    allow_killing: bool,
)
    requires
        state.no_dust(),
    ensures
        state.burn(caller, target, amount, allow_killing) matches Ok(next) ==> next.no_dust(),
{
}

/// A new ledger has no entry with a balance of zero: it has no entry.
pub proof fn genesis_has_no_empty_entry(admin: AccountId, config: Config)
    ensures
        State::genesis(admin, config).no_empty_entry(),
{
}

/// With a positive minimum balance, where no entry holds zero, none does
/// after a successful mint.
pub proof fn mint_keeps_no_empty_entry(
    state: State,
    caller: AccountId,
    beneficiary: AccountId,
    amount: Balance,
)
    requires
        state.config.min_balance > 0,
        state.no_empty_entry(),
    ensures
        state.mint(caller, beneficiary, amount) matches Ok(next) ==> next.no_empty_entry(),
{
}

/// With a positive minimum balance, where no entry holds zero, none does
/// after a successful burn.
pub proof fn burn_keeps_no_empty_entry(
    state: State,
    caller: AccountId,
    target: AccountId,
    amount: Balance,
    allow_killing: bool,
)
    requires
        state.config.min_balance > 0,
        state.no_empty_entry(),
    ensures
        state.burn(caller, target, amount, allow_killing) matches Ok(next) ==> next.no_empty_entry(),
{
}

/// Where the issuance equals the sum of all balances, a successful mint adds
/// exactly the amount to the balance of the beneficiary: the sum cannot
/// saturate, because the issuance had room for the amount.
pub proof fn balanced_mint_adds_exactly(
    state: State,
    caller: AccountId,
    beneficiary: AccountId,
    amount: Balance,
)
    requires
        state.balanced(),
    ensures
        state.mint(caller, beneficiary, amount) matches Ok(next) ==> next.balance(beneficiary)
            == state.balance(beneficiary) + amount,
{
    lemma_balance_le_total(state.accounts, beneficiary);
}

/// Where the issuance equals the sum of all balances and the minimum balance
/// is positive, no burn is rejected for underflow: what a burn takes is never
/// more than the target holds.
pub proof fn balanced_burn_never_underflows(
    state: State,
    caller: AccountId,
    target: AccountId,
    amount: Balance,
    allow_killing: bool,
)
    requires
        state.balanced(),
        state.config.min_balance > 0,
    ensures
        state.burn(caller, target, amount, allow_killing) != Err::<State, Error>(Error::Underflow),
        state.burn(caller, target, amount, allow_killing) is Ok ==> state.burn_amount(
            target,
            amount,
        ) <= state.balance(target),
{
    lemma_balance_le_total(state.accounts, target);
}

/// Once the issuance has reached the largest balance, no positive amount can
/// be minted: the minter's call is rejected for overflow where the amount
/// reaches the minimum balance.
pub proof fn mint_at_full_issuance_overflows(
    state: State,
    caller: AccountId,
    beneficiary: AccountId,
    amount: Balance,
)
    requires
        state.meta.issuance == Balance::MAX,
        amount > 0,
    ensures
        state.mint(caller, beneficiary, amount) is Err,
        caller == state.meta.minter && amount >= state.config.min_balance ==> state.mint(
            caller,
            beneficiary,
            amount,
        ) == Err::<State, Error>(Error::Overflow),
{
}

/// A successful mint leaves the beneficiary with an entry and changes no other
/// account.
pub proof fn mint_touches_only_beneficiary(
    state: State,
    caller: AccountId,
    beneficiary: AccountId,
    amount: Balance,
    other: AccountId,
)
    requires
        other != beneficiary,
    ensures
        state.mint(caller, beneficiary, amount) matches Ok(next) ==> {
            &&& next.accounts.contains_key(beneficiary)
            &&& next.accounts.contains_key(other) == state.accounts.contains_key(other)
            &&& next.balance(other) == state.balance(other)
        },
{
}

/// A successful burn removes the entry of the target exactly where less than
/// the minimum would have been left to it, and changes no other account.
pub proof fn burn_touches_only_target(
    state: State,
    caller: AccountId,
    target: AccountId,
    amount: Balance,
    allow_killing: bool,
    other: AccountId,
)
    requires
        other != target,
    ensures
        state.burn(caller, target, amount, allow_killing) matches Ok(next) ==> {
            &&& next.accounts.contains_key(target) == !state.leaves_dust(target, amount)
            &&& next.accounts.contains_key(other) == state.accounts.contains_key(other)
            &&& next.balance(other) == state.balance(other)
        },
{
}

} // verus!
