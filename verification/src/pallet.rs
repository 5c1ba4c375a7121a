//! The ledger engine: it owns the authority record and the account ledger,
//! and changes them only through `mint` and `burn`.

use vstd::prelude::*;
use crate::accounts::Accounts;
use crate::balance::{checked_add, checked_sub, saturating_add, saturating_sub, zero, Balance};
use crate::laws::{burn_keeps_balanced, genesis_is_balanced, mint_keeps_balanced};
use crate::state::State;
use crate::types::{AccountId, Config, Error, Event, GenesisConfig, MetaData};

verus! {

/// A ledger of one asset.
pub struct Pallet {
    meta: MetaData,
    accounts: Accounts,
    events: Vec<Event>,
    config: Config,
}

impl View for Pallet {
    type V = State;

    closed spec fn view(&self) -> State {
        State {
            meta: self.meta,
            accounts: self.accounts@,
            events: self.events@,
            config: self.config,
        }
    }
}

impl GenesisConfig {
    /// Builds the ledger that this genesis describes: nothing issued, no
    /// account, and the administrator as both minter and burner.
    pub fn build(&self, config: Config) -> (r: Pallet)
        ensures
            r@ == State::genesis(self.admin, config),
            r@.balanced(),
            r@.no_dust(),
            r@.no_empty_entry(),
    {
        proof {
            genesis_is_balanced(self.admin, config);
        }
        Pallet::new(config, MetaData { issuance: zero(), minter: self.admin, burner: self.admin })
    }
}

impl Pallet {
    /// A ledger with the given configuration and authority record, without
    /// entries and without events.
    pub fn new(config: Config, meta: MetaData) -> (r: Pallet)
        ensures
            r@ == (State { meta, accounts: Map::empty(), events: Seq::empty(), config }),
    {
        Pallet { meta, accounts: Accounts::new(), events: Vec::new(), config }
    }

    /// The authority record.
    pub fn meta_data(&self) -> (r: MetaData)
        ensures
            r == self@.meta,
    {
        self.meta
    }

    /// The balance of `who`: zero where the ledger has no entry for it.
    pub fn account(&self, who: AccountId) -> (r: Balance)
        ensures
            r == self@.balance(who),
    {
        self.accounts.get(who)
    }

    /// The account ledger.
    pub fn accounts(&self) -> (r: &Accounts)
        ensures
            r@ == self@.accounts,
    {
        &self.accounts
    }

    /// The configuration that the ledger was built with.
    pub fn config(&self) -> (r: Config)
        ensures
            r == self@.config,
    {
        self.config
    }

    /// The events emitted so far and not yet taken, oldest first.
    pub fn events(&self) -> (r: &Vec<Event>)
        ensures
            r@ == self@.events,
    {
        &self.events
    }

    /// Hands out the events emitted so far and forgets them.
    pub fn take_events(&mut self) -> (r: Vec<Event>)
        ensures
            r@ == old(self)@.events,
            final(self)@ == (State { events: Seq::empty(), ..old(self)@ }),
    {
        let mut taken = Vec::new();
        std::mem::swap(&mut self.events, &mut taken);
        taken
    }

    /// Replaces the authority record, whatever it holds.
    pub fn put_meta_data(&mut self, meta: MetaData)
        ensures
            final(self)@ == (State { meta, ..old(self)@ }),
    {
        self.meta = meta;
    }

    /// Writes `balance` as the entry of `who`, whatever the balance is.
    pub fn put_account(&mut self, who: AccountId, balance: Balance)
        ensures
            final(self)@ == (State { accounts: old(self)@.accounts.insert(who, balance), ..old(self)@ }),
    {
        self.accounts.insert(who, balance);
    }

    /// Removes the entry of `who`, if there is one, whatever it held.
    pub fn remove_account(&mut self, who: AccountId)
        ensures
            final(self)@ == (State { accounts: old(self)@.accounts.remove(who), ..old(self)@ }),
    {
        self.accounts.remove(who);
    }

    /// Adds `amount` to the balance of `beneficiary` and to the issuance.
    ///
    /// Only the minter may do so, the amount must reach the minimum balance,
    /// and the issuance must stay representable. A call that is rejected
    /// changes nothing. A call that succeeds reports `Created` first if the
    /// beneficiary held nothing, and then `Minted`.
    pub fn mint(&mut self, caller: AccountId, beneficiary: AccountId, amount: Balance) -> (r: Result<
        (),
        Error,
    >)
        ensures
            match old(self)@.mint(caller, beneficiary, amount) {
                Ok(next) => r is Ok && final(self)@ == next,
                Err(error) => r == Err::<(), Error>(error) && *final(self) == *old(self),
            },
            old(self)@.balanced() ==> final(self)@.balanced(),
            old(self)@.no_dust() ==> final(self)@.no_dust(),
            old(self)@.config.min_balance > 0 && old(self)@.no_empty_entry()
                ==> final(self)@.no_empty_entry(),
    {
        proof {
            if self@.balanced() {
                mint_keeps_balanced(self@, caller, beneficiary, amount);
            }
        }
        if amount < self.config.min_balance {
            return Err(Error::BelowMinBalance);
        }
        if caller != self.meta.minter {
            return Err(Error::NoPermission);
        }
        let issuance = match checked_add(self.meta.issuance, amount) {
            Some(issuance) => issuance,
            None => {
                return Err(Error::Overflow);
            },
        };
        let balance = self.accounts.get(beneficiary);
        let created = balance == zero();
        // The sum saturates rather than fails: the issuance, which bounds every
        // balance of a sound ledger, was found to have room for the amount.
        self.accounts.insert(beneficiary, saturating_add(balance, amount));
        self.meta.issuance = issuance;
        if created {
            self.events.push(Event::Created(beneficiary));
        }
        self.events.push(Event::Minted(beneficiary, amount));
        Ok(())
    }

    /// Takes `amount` from the balance of `target` and from the issuance.
    ///
    /// Only the burner may do so, and only from an account that holds
    /// something. Where less than the minimum balance would be left, the call
    /// needs `allow_killing`, takes all that the account holds, removes the
    /// account and reports `Killed`. What was taken is reported as `Burned`.
    /// A call that is rejected changes nothing.
    pub fn burn(
        &mut self,
        caller: AccountId,
        target: AccountId,
        amount: Balance,
        allow_killing: bool,
    ) -> (r: Result<(), Error>)
        ensures
            match old(self)@.burn(caller, target, amount, allow_killing) {
                Ok(next) => r is Ok && final(self)@ == next,
                Err(error) => r == Err::<(), Error>(error) && *final(self) == *old(self),
            },
            old(self)@.balanced() && !(old(self)@.config.min_balance == 0
                && amount > old(self)@.balance(target)) ==> final(self)@.balanced(),
            old(self)@.no_dust() ==> final(self)@.no_dust(),
            old(self)@.config.min_balance > 0 && old(self)@.no_empty_entry()
                ==> final(self)@.no_empty_entry(),
    {
        proof {
            if self@.balanced() && !(self@.config.min_balance == 0
                && amount > self@.balance(target)) {
                burn_keeps_balanced(self@, caller, target, amount, allow_killing);
            }
        }
        if caller != self.meta.burner {
            return Err(Error::NoPermission);
        }
        let balance = self.accounts.get(target);
        if !(balance > zero()) {
            return Err(Error::CannotBurnEmpty);
        }
        let new_balance = saturating_sub(balance, amount);
        let burn_amount = if new_balance < self.config.min_balance {
            if !allow_killing {
                return Err(Error::BelowMinBalance);
            }
            let burn_amount = balance;
            if checked_sub(self.meta.issuance, burn_amount).is_none() {
                return Err(Error::Underflow);
            }
            self.accounts.remove(target);
            self.events.push(Event::Killed(target));
            burn_amount
        } else {
            let burn_amount = amount;
            if checked_sub(self.meta.issuance, burn_amount).is_none() {
                return Err(Error::Underflow);
            }
            self.accounts.insert(target, new_balance);
            burn_amount
        };
        // The difference saturates rather than fails: the issuance was found to
        // hold at least what is taken.
        self.meta.issuance = saturating_sub(self.meta.issuance, burn_amount);
        self.events.push(Event::Burned(target, burn_amount));
        Ok(())
    }
}

} // verus!
