//! The ledger as the contracts see it: an abstract state, and the two
//! transitions as functions from one state to the next.

use vstd::prelude::*;
use crate::accounts::{balance_of, total};
use crate::balance::{saturating_difference, saturating_sum, Balance};
use crate::types::{AccountId, Config, Error, Event, MetaData};

verus! {

/// The abstract state of a ledger.
#[verifier::ext_equal]
pub struct State {
    /// The authority record.
    pub meta: MetaData,
    /// The entries of the account ledger.
    pub accounts: Map<AccountId, Balance>,
    /// The events emitted so far and not yet taken, oldest first.
    pub events: Seq<Event>,
    /// The configuration that the ledger was built with.
    pub config: Config,
}

impl State {
    /// The state of a ledger that was just built for `admin`: nothing issued,
    /// no entries, no events, and `admin` in both roles.
    pub open spec fn genesis(admin: AccountId, config: Config) -> State {
        State {
            meta: MetaData { issuance: 0, minter: admin, burner: admin },
            accounts: Map::empty(),
            events: Seq::empty(),
            config,
        }
    }

    /// The balance of `who`: zero where the ledger has no entry for it.
    pub open spec fn balance(self, who: AccountId) -> Balance {
        balance_of(self.accounts, who)
    }

    /// The issuance equals the sum of all balances.
    pub open spec fn balanced(self) -> bool {
        total(self.accounts) == self.meta.issuance
    }

    /// No entry holds a positive balance below the minimum.
    pub open spec fn no_dust(self) -> bool {
        forall|who: AccountId| #[trigger]
            self.accounts.contains_key(who) ==> !(0 < self.accounts[who]
                < self.config.min_balance)
    }

    /// No entry holds a balance of zero.
    pub open spec fn no_empty_entry(self) -> bool {
        forall|who: AccountId| #[trigger] self.accounts.contains_key(who) ==> self.accounts[who] > 0
    }

    /// Why `caller` may not mint `amount`, if anything forbids it. The
    /// conditions are tried in this order, and the first that fails decides.
    pub open spec fn mint_rejection(self, caller: AccountId, amount: Balance) -> Option<Error> {
        if amount < self.config.min_balance {
            Some(Error::BelowMinBalance)
        } else if caller != self.meta.minter {
            Some(Error::NoPermission)
        } else if self.meta.issuance + amount > Balance::MAX {
            Some(Error::Overflow)
        } else {
            None
        }
    }

    /// The state after `amount` was minted to `beneficiary`. The balance
    /// saturates; the issuance is meant to be taken only where
    /// `mint_rejection` is `None`, so that it does not overflow.
    pub open spec fn minted(self, beneficiary: AccountId, amount: Balance) -> State {
        let minted = Event::Minted(beneficiary, amount);
        State {
            meta: MetaData { issuance: (self.meta.issuance + amount) as Balance, ..self.meta },
            accounts: self.accounts.insert(
                beneficiary,
                saturating_sum(self.balance(beneficiary), amount),
            ),
            events: if self.balance(beneficiary) == 0 {
                self.events.push(Event::Created(beneficiary)).push(minted)
            } else {
                self.events.push(minted)
            },
            config: self.config,
        }
    }

    /// The transition `mint`: the next state, or the reason for which there is none.
    pub open spec fn mint(self, caller: AccountId, beneficiary: AccountId, amount: Balance) -> Result<
        State,
        Error,
    > {
        match self.mint_rejection(caller, amount) {
            Some(error) => Err(error),
            None => Ok(self.minted(beneficiary, amount)),
        }
    }

    /// What would be left to `target` after `amount` was taken from it.
    pub open spec fn remainder(self, target: AccountId, amount: Balance) -> Balance {
        saturating_difference(self.balance(target), amount)
    }

    /// Whether taking `amount` from `target` would leave it less than the
    /// minimum, so that a burn can only sweep the whole account.
    pub open spec fn leaves_dust(self, target: AccountId, amount: Balance) -> bool {
        self.remainder(target, amount) < self.config.min_balance
    }

    /// What a burn of `amount` takes from `target`: all it holds where less
    /// than the minimum would be left, and `amount` otherwise.
    pub open spec fn burn_amount(self, target: AccountId, amount: Balance) -> Balance {
        if self.leaves_dust(target, amount) {
            self.balance(target)
        } else {
            amount
        }
    }

    /// Why `caller` may not burn `amount` from `target`, if anything forbids
    /// it. The conditions are tried in this order, and the first that fails
    /// decides.
    pub open spec fn burn_rejection(
        self,
        caller: AccountId,
        target: AccountId,
        amount: Balance,
        allow_killing: bool,
    ) -> Option<Error> {
        if caller != self.meta.burner {
            Some(Error::NoPermission)
        } else if self.balance(target) == 0 {
            Some(Error::CannotBurnEmpty)
        } else if self.leaves_dust(target, amount) && !allow_killing {
            Some(Error::BelowMinBalance)
        } else if self.meta.issuance < self.burn_amount(target, amount) {
            Some(Error::Underflow)
        } else {
            None
        }
    }

    /// The state after a burn of `amount` from `target`: the account is
    /// removed where less than the minimum would be left, and keeps the
    /// remainder otherwise.
    pub open spec fn burned(self, target: AccountId, amount: Balance) -> State {
        let taken = self.burn_amount(target, amount);
        let burned = Event::Burned(target, taken);
        State {
            meta: MetaData {
                issuance: saturating_difference(self.meta.issuance, taken),
                ..self.meta
            },
            accounts: if self.leaves_dust(target, amount) {
                self.accounts.remove(target)
            } else {
                self.accounts.insert(target, self.remainder(target, amount))
            },
            events: if self.leaves_dust(target, amount) {
                self.events.push(Event::Killed(target)).push(burned)
            } else {
                self.events.push(burned)
            },
            config: self.config,
        }
    }

    /// The transition `burn`: the next state, or the reason for which there is none.
    pub open spec fn burn(
        self,
        caller: AccountId,
        target: AccountId,
        amount: Balance,
        allow_killing: bool,
    ) -> Result<State, Error> {
        match self.burn_rejection(caller, target, amount, allow_killing) {
            Some(error) => Err(error),
            None => Ok(self.burned(target, amount)),
        }
    }
}

} // verus!
