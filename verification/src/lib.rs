//! A single-asset ledger: per-account balances, a global issuance counter, and
//! the two privileged transitions `mint` and `burn` that keep them in step.

pub mod accounts;
pub mod balance;
pub mod laws;
pub mod pallet;
pub mod state;
pub mod types;

pub use crate::accounts::Accounts;
pub use crate::balance::Balance;
pub use crate::pallet::Pallet;
pub use crate::types::{AccountId, Config, Error, Event, GenesisConfig, MetaData};
