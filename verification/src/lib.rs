//! Epoch-scoped creator funding: an epoch state machine, a tiered creator
//! registry, a two-sided pledge ledger and the reconciliation of settlements.

pub mod account;
pub mod account_map;
pub mod account_set;
pub mod consts;
pub mod contract;
pub mod epoch;
pub mod epoch_map;
pub mod error;
pub mod fund_creators;
pub mod laws;
pub mod ledger;
pub mod nft;
pub mod registry;
pub mod rewards;
pub mod state;
pub mod table;
pub mod text;
pub mod token_receiver;
pub mod views;

pub use account::{AccountId, CreatorAccountId, FTAccountId, ParseAccountIdError, UserAccountId};
pub use contract::MetaDaoContract;
pub use epoch::Epoch;
pub use error::MetaDaoError;
pub use ledger::{FundedTokenAmount, ObtainedTokenAmounts};
