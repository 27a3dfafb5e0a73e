//! Reward claims against an outside reward ledger, settled through a token
//! contract.
//!
//! An account that has accrued rewards in a lending protocol asks this
//! contract to pay them out. The contract asks the protocol for the account's
//! lifetime total, compares it with what it has already paid, records the new
//! total, asks the token contract to transfer the difference, and takes the
//! record back if the transfer fails.
//!
//! The contract never talks to the host itself. Each entry point takes what
//! the host knows about the call as a [`CallContext`] and answers with a
//! description of the cross-contract call to schedule next; the embedding
//! schedules it and hands the result to the next entry point.

pub mod budget;
pub mod contract;
pub mod error;
pub mod ledger;
pub mod promise;
pub mod storage;
pub mod types;
pub mod workflow;

pub use budget::{
    required, GAS_FOR_CLAIM, GAS_FOR_FT_TRANSFER, GAS_FOR_FT_TRANSFER_CALLBACK,
    GAS_FOR_GET_ACCOUNT_CALLBACK, ONE_TERA,
};
pub use contract::Contract;
pub use error::{PreconditionError, RegistrationError};
pub use ledger::Ledger;
pub use promise::{OracleQuery, PromiseOrValue, Refund, Settlement, TokenTransfer};
pub use storage::{
    measured_storage_usage, measuring_account_id, StorageBalance, StorageBalanceBounds,
    StorageReceipt, STORAGE_PRICE_PER_BYTE,
};
pub use types::{AccountId, AccountInfo, Balance, CallContext, Gas, StorageUsage, ONE_YOCTO};
