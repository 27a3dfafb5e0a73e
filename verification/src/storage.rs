//! Registration, paid for by a storage deposit.
//!
//! A record in the ledger takes up storage, which the registering account
//! pays for. Every record takes the same room, so the price of a
//! registration is one fixed amount: it is the least and the most that the
//! contract keeps of a deposit.

use vstd::prelude::*;
use crate::contract::{Contract, ContractView};
use crate::error::RegistrationError;
use crate::promise::Refund;
use crate::types::{AccountId, Balance, CallContext, StorageUsage};

verus! {

/// What the host charges for one byte of storage.
pub const STORAGE_PRICE_PER_BYTE: Balance = 10_000_000_000_000_000_000;

/// What an account has paid for storage, and how much of it is not in use.
#[derive(Debug, Clone, Copy, PartialEq, Eq, Structural)]
pub struct StorageBalance {
    pub total: Balance,
    pub available: Balance,
}

/// The least and the most that an account can have paid for storage.
#[derive(Debug, Clone, Copy, PartialEq, Eq)]
pub struct StorageBalanceBounds {
    pub min: Balance,
    pub max: Option<Balance>,
}

/// How a storage deposit ends: the account's storage balance, and the part
/// of the deposit that goes back to the caller.
#[derive(Debug)]
pub struct StorageReceipt {
    pub balance: StorageBalance,
    pub refund: Option<Refund>,
}

/// The price of a registration: the storage of one record at the host's
/// price per byte.
pub open spec fn required_storage_balance(account_storage_usage: StorageUsage) -> Balance {
    (account_storage_usage * STORAGE_PRICE_PER_BYTE) as Balance
}

/// The part of a deposit that goes back to the caller: all of it where the
/// account is registered already, else what exceeds the price.
pub open spec fn refund_due(registered: bool, attached_deposit: Balance, price: Balance) -> int {
    if registered {
        attached_deposit as int
    } else {
        attached_deposit - price
    }
}

/// The storage balance of every registered account.
pub open spec fn registered_balance(account_storage_usage: StorageUsage) -> StorageBalance {
    StorageBalance { total: required_storage_balance(account_storage_usage), available: 0 }
}

/// The price of a registration fits a balance, whatever a record takes.
pub proof fn lemma_required_storage_balance_fits(account_storage_usage: StorageUsage)
    ensures
        account_storage_usage * STORAGE_PRICE_PER_BYTE <= u128::MAX,
        required_storage_balance(account_storage_usage) == account_storage_usage
            * STORAGE_PRICE_PER_BYTE,
{
    assert(account_storage_usage * 10_000_000_000_000_000_000u128 <= u128::MAX)
        by (nonlinear_arith)
        requires
            account_storage_usage <= u64::MAX,
    ;
}

/// The account name with which the storage of one record is measured: as
/// long as a name can be, 64 characters, so that no record takes more.
pub open spec fn measuring_name() -> Seq<char> {
    Seq::new(64, |i: int| 'a')
}

/// The account under whose name the host writes a record to measure what a
/// record takes.
pub fn measuring_account_id() -> (account_id: AccountId)
    ensures
        account_id@ == measuring_name(),
{
    let name = "aaaaaaaaaaaaaaaaaaaaaaaaaaaaaaaaaaaaaaaaaaaaaaaaaaaaaaaaaaaaaaaa";
    proof {
        reveal_strlit("aaaaaaaaaaaaaaaaaaaaaaaaaaaaaaaaaaaaaaaaaaaaaaaaaaaaaaaaaaaaaaaa");
        assert(name@ =~= measuring_name());
    }
    AccountId::new(name.to_owned())
}

/// The storage that one record takes: by how much the host's storage grew
/// from the reading before the record was written to the reading after.
pub fn measured_storage_usage(initial_storage_usage: StorageUsage, storage_usage: StorageUsage) -> (usage:
    StorageUsage)
    requires
        initial_storage_usage <= storage_usage,
    ensures
        usage == storage_usage - initial_storage_usage,
{
    storage_usage - initial_storage_usage
}

/// The host's price for one byte of storage, as
/// `near_sdk::env::storage_byte_cost` gives it. Not proved, but read off
/// that function: in near-sdk 4.1 it returns the constant 10^19 yocto and
/// does not ask the host.
#[verifier::external_body]
fn storage_byte_cost() -> (cost: Balance)
    ensures
        cost == STORAGE_PRICE_PER_BYTE,
{
    near_sdk::env::storage_byte_cost()
}

impl Contract {
    /// The least and the most that an account can have paid for storage:
    /// both are the price of a registration.
    pub fn storage_balance_bounds(&self) -> (bounds: StorageBalanceBounds)
        ensures
            bounds.min == required_storage_balance(self@.account_storage_usage),
            bounds.max == Some(bounds.min),
    {
        let usage = self.account_storage_usage();
        let cost = storage_byte_cost();
        proof {
            lemma_required_storage_balance_fits(usage);
        }
        let required_storage_balance: Balance = (usage as Balance) * cost;
        StorageBalanceBounds {
            min: required_storage_balance,
            max: Some(required_storage_balance),
        }
    }

    /// The storage balance of an account: for a registered account the
    /// price of a registration, all of it in use; for any other, none.
    pub fn storage_balance_of(&self, account_id: AccountId) -> (balance: Option<StorageBalance>)
        ensures
            balance == if self@.claimed_rewards.contains_key(account_id@) {
                Some(registered_balance(self@.account_storage_usage))
            } else {
                None
            },
    {
        if self.is_account_registered(&account_id) {
            Some(StorageBalance { total: self.storage_balance_bounds().min, available: 0 })
        } else {
            None
        }
    }

    /// Registers `account_id`, or the caller where none is given, against
    /// the deposit attached to the call.
    ///
    /// An account that is registered already stays as it is, and the whole
    /// deposit goes back to the caller. An account that is not is given a
    /// record of zero if the deposit covers the price of a registration,
    /// and what exceeds the price goes back; if the deposit falls short,
    /// the call fails and nothing is written. The contract keeps no more
    /// than the price, so `registration_only` changes nothing.
    #[allow(unused_variables)]
    pub fn storage_deposit(
        &mut self,
        context: &CallContext,
        account_id: Option<AccountId>,
        registration_only: Option<bool>,
    ) -> (result: Result<StorageReceipt, RegistrationError>)
        ensures
            ({
                let account = match account_id {
                    Some(given) => given@,
                    None => context.predecessor_account_id@,
                };
                let registered = old(self)@.claimed_rewards.contains_key(account);
                let price = required_storage_balance(old(self)@.account_storage_usage);
                let due = refund_due(registered, context.attached_deposit, price);
                match result {
                    Ok(receipt) => {
                        &&& registered || context.attached_deposit >= price
                        &&& receipt.balance == registered_balance(old(self)@.account_storage_usage)
                        &&& match receipt.refund {
                            Some(refund) => {
                                &&& due > 0
                                &&& refund.receiver_id@ == context.predecessor_account_id@
                                &&& refund.amount == due
                            },
                            None => due == 0,
                        }
                        &&& final(self)@ == (ContractView {
                            claimed_rewards: if registered {
                                old(self)@.claimed_rewards
                            } else {
                                old(self)@.claimed_rewards.insert(account, 0)
                            },
                            ..old(self)@
                        })
                    },
                    Err(error) => {
                        &&& error == RegistrationError::InsufficientDeposit
                        &&& !registered
                        &&& context.attached_deposit < price
                        &&& final(self)@ == old(self)@
                    },
                }
            }),
    {
        let amount: Balance = context.attached_deposit;
        let min_balance: Balance = self.storage_balance_bounds().min;
        let account_id = match account_id {
            Some(given) => given,
            None => context.predecessor_account_id.clone(),
        };
        let refund: Balance = if self.is_account_registered(&account_id) {
            amount
        } else {
            if amount < min_balance {
                return Err(RegistrationError::InsufficientDeposit);
            }
            let registration = self.register_account(&account_id);
            assert(registration is Ok);
            amount - min_balance
        };
        let refund = if refund > 0 {
            Some(Refund { receiver_id: context.predecessor_account_id.clone(), amount: refund })
        } else {
            None
        };
        Ok(
            StorageReceipt {
                balance: StorageBalance { total: min_balance, available: 0 },
                refund,
            },
        )
    }
}

} // verus!
