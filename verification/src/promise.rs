//! The cross-contract calls that the contract asks its host to schedule.
//!
//! The contract decides; the host acts. Each value here describes one call
//! completely: whom to call, with what, how much gas and deposit to attach,
//! and what to hand to the contract when the answer is in.

use vstd::prelude::*;
use crate::budget::{GAS_FOR_FT_TRANSFER, GAS_FOR_FT_TRANSFER_CALLBACK, GAS_FOR_GET_ACCOUNT_CALLBACK};
use crate::types::{AccountId, Balance, Gas, ONE_YOCTO};

verus! {

/// A question to the reward protocol: what has this account earned in all?
/// The answer goes to `Contract::get_account_callback` together with
/// `account_id`.
#[derive(Debug)]
pub struct OracleQuery {
    /// The reward protocol's contract.
    pub pembrock_id: AccountId,
    /// The account asked about.
    pub account_id: AccountId,
    /// The gas handed to the reward protocol.
    pub gas: Gas,
    /// The gas reserved for handling the answer.
    pub callback_gas: Gas,
}

impl OracleQuery {
    /// The query asks `pembrock_id` about `account_id` with `gas`, and
    /// reserves the fixed cost of the callback.
    pub open spec fn asks(&self, pembrock_id: Seq<char>, account_id: Seq<char>, gas: int) -> bool {
        &&& self.pembrock_id@ == pembrock_id
        &&& self.account_id@ == account_id
        &&& self.gas == gas
        &&& self.callback_gas == GAS_FOR_GET_ACCOUNT_CALLBACK
    }
}

/// A request to the token contract to move tokens out of the contract's
/// holdings.
#[derive(Debug)]
pub struct TokenTransfer {
    /// The token contract.
    pub token_id: AccountId,
    /// The account that receives the tokens.
    pub receiver_id: AccountId,
    /// How many tokens to move.
    pub amount: Balance,
    /// The gas handed to the token contract.
    pub gas: Gas,
    /// The deposit attached to the request.
    pub deposit: Balance,
}

impl TokenTransfer {
    /// The transfer asks `token_id` to send `amount` to `receiver_id`, with
    /// the fixed gas of a transfer and the one yocto that token contracts
    /// demand.
    pub open spec fn sends(&self, token_id: Seq<char>, receiver_id: Seq<char>, amount: int) -> bool {
        &&& self.token_id@ == token_id
        &&& self.receiver_id@ == receiver_id
        &&& self.amount == amount
        &&& self.gas == GAS_FOR_FT_TRANSFER
        &&& self.deposit == ONE_YOCTO
    }
}

/// The payout of a claim: a transfer to the claiming account, and what
/// `Contract::ft_transfer_callback` needs when the transfer's result is in.
#[derive(Debug)]
pub struct Settlement {
    /// The transfer of the unclaimed rewards to the claiming account.
    pub transfer: TokenTransfer,
    /// What the ledger held for the account before this claim.
    pub claimed_rewards: Balance,
    /// What this claim pays out.
    pub unclaimed_rewards: Balance,
    /// The gas reserved for handling the transfer's result.
    pub callback_gas: Gas,
}

impl Settlement {
    /// The settlement pays `unclaimed_rewards` of `token_id` to
    /// `account_id`, whose record stood at `claimed_rewards`.
    pub open spec fn pays(
        &self,
        token_id: Seq<char>,
        account_id: Seq<char>,
        claimed_rewards: int,
        unclaimed_rewards: int,
    ) -> bool {
        &&& self.transfer.sends(token_id, account_id, unclaimed_rewards)
        &&& self.claimed_rewards == claimed_rewards
        &&& self.unclaimed_rewards == unclaimed_rewards
        &&& self.callback_gas == GAS_FOR_FT_TRANSFER_CALLBACK
    }
}

/// How the handling of the reward protocol's answer ends: with a payout
/// still to be settled, or with the amount paid out, which is then zero.
#[derive(Debug)]
pub enum PromiseOrValue {
    /// A transfer is to be scheduled; the claim ends in
    /// `Contract::ft_transfer_callback`.
    Promise(Settlement),
    /// The claim is over and has paid out this much.
    Value(Balance),
}

/// Native tokens to hand back to the account that attached them.
#[derive(Debug)]
pub struct Refund {
    /// The account that gets the tokens back.
    pub receiver_id: AccountId,
    /// How many; never zero.
    pub amount: Balance,
}

} // verus!
