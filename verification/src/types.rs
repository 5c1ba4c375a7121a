//! The plain data of the ledger: identities, the authority record, the
//! configuration, and the events and errors of the two transitions.

use vstd::prelude::*;
use crate::balance::Balance;

verus! {

/// The identity of an account. Identities are only ever compared.
pub type AccountId = u64;

/// The authority record of a ledger: the amount in circulation and the two
/// identities that may change it.
#[derive(Clone, Copy, Debug, PartialEq, Eq, Structural)]
pub struct MetaData {
    /// The total amount currently in circulation.
    pub issuance: Balance,
    /// The only identity allowed to mint.
    pub minter: AccountId,
    /// The only identity allowed to burn.
    pub burner: AccountId,
}

impl Default for MetaData {
    /// No issuance, and the default identity in both roles.
    fn default() -> (r: MetaData)
        ensures
            r == (MetaData { issuance: 0, minter: 0, burner: 0 }),
    {
        MetaData { issuance: 0, minter: 0, burner: 0 }
    }
}

/// The configuration of a ledger, fixed when the ledger is built.
#[derive(Clone, Copy, Debug, PartialEq, Eq, Structural)]
pub struct Config {
    /// The minimum balance necessary for an account to exist.
    pub min_balance: Balance,
}

/// The genesis of a ledger.
#[derive(Clone, Copy, Debug, PartialEq, Eq, Structural)]
pub struct GenesisConfig {
    /// The identity that becomes both minter and burner.
    pub admin: AccountId,
}

impl Default for GenesisConfig {
    /// The genesis whose administrator is the default identity.
    fn default() -> (r: GenesisConfig)
        ensures
            r == (GenesisConfig { admin: 0 }),
    {
        GenesisConfig { admin: 0 }
    }
}

/// What a transition tells the outside world.
#[derive(Clone, Copy, Debug, PartialEq, Eq, Structural)]
pub enum Event {
    /// An account came into existence.
    Created(AccountId),
    /// An account was removed together with all it held.
    Killed(AccountId),
    /// An amount was added to an account.
    Minted(AccountId, Balance),
    /// An amount was taken from an account.
    Burned(AccountId, Balance),
}

/// Why a transition was rejected.
#[derive(Clone, Copy, Debug, PartialEq, Eq, Structural)]
pub enum Error {
    /// An account would go below the minimum balance if the operation were executed.
    BelowMinBalance,
    /// The caller does not have the required permission for the operation.
    NoPermission,
    /// The operation would lead to an overflow of the issuance.
    Overflow,
    /// The operation would lead to an underflow of the issuance.
    Underflow,
    /// Cannot burn the balance of a non-existent account.
    CannotBurnEmpty,
}

} // verus!
