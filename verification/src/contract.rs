//! The contract: its state and its entry points.

use vstd::prelude::*;
use near_sdk::PromiseError;
use crate::budget::{
    claim_budget, lemma_claim_budget, required, GAS_FOR_CLAIM, GAS_FOR_FT_TRANSFER,
    GAS_FOR_FT_TRANSFER_CALLBACK, GAS_FOR_GET_ACCOUNT_CALLBACK,
};
use crate::error::{PreconditionError, RegistrationError};
use crate::ledger::{recorded, Ledger};
use crate::promise::{OracleQuery, PromiseOrValue, Settlement, TokenTransfer};
use crate::types::{AccountId, AccountInfo, Balance, CallContext, Gas, StorageUsage, ONE_YOCTO};
use crate::workflow::{
    claim_outcome, claim_refusal, ledger_after_report, ledger_after_transfer, payout,
    reported_total, rewards_owed, withdrawal_refusal,
};

verus! {

/// The state of the contract.
pub struct Contract {
    /// The account that may withdraw the contract's tokens.
    owner_id: AccountId,
    /// The reward protocol's contract.
    pembrock_id: AccountId,
    /// The contract of the token in which rewards are paid.
    pem_token_id: AccountId,
    /// For each registered account, the rewards paid out to it so far.
    claimed_rewards: Ledger,
    /// The storage that one record takes, in bytes.
    account_storage_usage: StorageUsage,
}

/// The state of the contract, as contracts speak of it.
#[verifier::ext_equal]
pub struct ContractView {
    pub owner_id: Seq<char>,
    pub pembrock_id: Seq<char>,
    pub pem_token_id: Seq<char>,
    pub claimed_rewards: Map<Seq<char>, Balance>,
    pub account_storage_usage: StorageUsage,
}

impl View for Contract {
    type V = ContractView;

    closed spec fn view(&self) -> ContractView {
        ContractView {
            owner_id: self.owner_id@,
            pembrock_id: self.pembrock_id@,
            pem_token_id: self.pem_token_id@,
            claimed_rewards: self.claimed_rewards@,
            account_storage_usage: self.account_storage_usage,
        }
    }
}

impl Contract {
    /// A contract without registered accounts. `account_storage_usage` is
    /// what the host measured for one record of the ledger.
    pub fn new(
        owner_id: AccountId,
        pembrock_id: AccountId,
        pem_token_id: AccountId,
        account_storage_usage: StorageUsage,
    ) -> (contract: Contract)
        ensures
            contract@ == (ContractView {
                owner_id: owner_id@,
                pembrock_id: pembrock_id@,
                pem_token_id: pem_token_id@,
                claimed_rewards: Map::empty(),
                account_storage_usage,
            }),
    {
        Contract {
            owner_id,
            pembrock_id,
            pem_token_id,
            claimed_rewards: Ledger::new(),
            account_storage_usage,
        }
    }

    /// A contract over a ledger that exists already.
    pub fn with_ledger(
        owner_id: AccountId,
        pembrock_id: AccountId,
        pem_token_id: AccountId,
        claimed_rewards: Ledger,
        account_storage_usage: StorageUsage,
    ) -> (contract: Contract)
        ensures
            contract@ == (ContractView {
                owner_id: owner_id@,
                pembrock_id: pembrock_id@,
                pem_token_id: pem_token_id@,
                claimed_rewards: claimed_rewards@,
                account_storage_usage,
            }),
    {
        Contract { owner_id, pembrock_id, pem_token_id, claimed_rewards, account_storage_usage }
    }

    /// The account that may withdraw the contract's tokens.
    pub fn owner_id(&self) -> (owner_id: &AccountId)
        ensures
            owner_id@ == self@.owner_id,
    {
        &self.owner_id
    }

    /// The reward protocol's contract.
    pub fn pembrock_id(&self) -> (pembrock_id: &AccountId)
        ensures
            pembrock_id@ == self@.pembrock_id,
    {
        &self.pembrock_id
    }

    /// The contract of the token in which rewards are paid.
    pub fn pem_token_id(&self) -> (pem_token_id: &AccountId)
        ensures
            pem_token_id@ == self@.pem_token_id,
    {
        &self.pem_token_id
    }

    /// The ledger of what has been paid out.
    pub fn claimed_rewards(&self) -> (ledger: &Ledger)
        ensures
            ledger@ == self@.claimed_rewards,
    {
        &self.claimed_rewards
    }

    /// The storage that one record takes, in bytes.
    pub fn account_storage_usage(&self) -> (usage: StorageUsage)
        ensures
            usage == self@.account_storage_usage,
    {
        self.account_storage_usage
    }

    /// Whether the account has a record in the ledger.
    pub fn is_account_registered(&self, account_id: &AccountId) -> (registered: bool)
        ensures
            registered == self@.claimed_rewards.contains_key(account_id@),
    {
        self.claimed_rewards.contains(account_id)
    }

    /// Gives the account a record of zero. Registration is strict: for an
    /// account that has a record the call fails, and the record stays as it
    /// is. (A storage deposit for such an account does not fail: it hands
    /// the deposit back.)
    pub fn register_account(&mut self, account_id: &AccountId) -> (result: Result<
        (),
        RegistrationError,
    >)
        ensures
            match result {
                Ok(()) => {
                    &&& !old(self)@.claimed_rewards.contains_key(account_id@)
                    &&& final(self)@ == (ContractView {
                        claimed_rewards: old(self)@.claimed_rewards.insert(account_id@, 0),
                        ..old(self)@
                    })
                },
                Err(error) => {
                    &&& error == RegistrationError::AlreadyRegistered
                    &&& old(self)@.claimed_rewards.contains_key(account_id@)
                    &&& final(self)@ == old(self)@
                },
            },
    {
        if self.claimed_rewards.contains(account_id) {
            return Err(RegistrationError::AlreadyRegistered);
        }
        self.claimed_rewards.insert(account_id, 0);
        Ok(())
    }

    /// Moves `amount` of the contract's tokens to its owner. Only the owner
    /// may ask, and the call must carry one yocto.
    pub fn owner_withdraw(&self, context: &CallContext, amount: Balance) -> (result: Result<
        TokenTransfer,
        PreconditionError,
    >)
        ensures
            match result {
                Ok(transfer) => {
                    &&& withdrawal_refusal(
                        context.attached_deposit,
                        context.predecessor_account_id@ == self@.owner_id,
                    ) is None
                    &&& transfer.sends(self@.pem_token_id, self@.owner_id, amount as int)
                },
                Err(error) => withdrawal_refusal(
                    context.attached_deposit,
                    context.predecessor_account_id@ == self@.owner_id,
                ) == Some(error),
            },
    {
        if context.attached_deposit != ONE_YOCTO {
            return Err(PreconditionError::WrongDeposit);
        }
        if context.predecessor_account_id != self.owner_id {
            return Err(PreconditionError::NotOwner);
        }
        Ok(
            TokenTransfer {
                token_id: self.pem_token_id.clone(),
                receiver_id: self.owner_id.clone(),
                amount,
                gas: GAS_FOR_FT_TRANSFER,
                deposit: ONE_YOCTO,
            },
        )
    }

    /// The rewards paid out to the account so far: zero for an account that
    /// has not claimed, registered or not.
    pub fn get_claimed_rewards(&self, account_id: &AccountId) -> (claimed: Balance)
        ensures
            claimed == recorded(self@.claimed_rewards, account_id@),
    {
        match self.claimed_rewards.get(account_id) {
            Some(claimed) => claimed,
            None => 0,
        }
    }

    /// Opens a claim for the calling account.
    ///
    /// The call must carry one yocto, must have prepaid the budget of the
    /// whole claim, and must come from a registered account; these are
    /// looked at in this order. A call that fails one of them is turned
    /// away with nothing written and nothing scheduled. Otherwise the
    /// reward protocol is to be asked for the caller's lifetime total, with
    /// the gas that the budget leaves over.
    pub fn claim(&self, context: &CallContext) -> (result: Result<OracleQuery, PreconditionError>)
        ensures
            match result {
                Ok(query) => {
                    &&& claim_refusal(
                        context.attached_deposit,
                        context.prepaid_gas,
                        self@.claimed_rewards.contains_key(context.predecessor_account_id@),
                    ) is None
                    &&& query.asks(
                        self@.pembrock_id,
                        context.predecessor_account_id@,
                        context.prepaid_gas - claim_budget(),
                    )
                },
                Err(error) => claim_refusal(
                    context.attached_deposit,
                    context.prepaid_gas,
                    self@.claimed_rewards.contains_key(context.predecessor_account_id@),
                ) == Some(error),
            },
    {
        if context.attached_deposit != ONE_YOCTO {
            return Err(PreconditionError::WrongDeposit);
        }
        let hops = [GAS_FOR_CLAIM, GAS_FOR_GET_ACCOUNT_CALLBACK];
        proof {
            lemma_claim_budget();
            assert(hops@ =~= seq![GAS_FOR_CLAIM, GAS_FOR_GET_ACCOUNT_CALLBACK]);
        }
        let budget = required(&hops);
        if context.prepaid_gas < budget {
            return Err(PreconditionError::InsufficientBudget);
        }
        let account_id = context.predecessor_account_id.clone();
        if !self.is_account_registered(&account_id) {
            return Err(PreconditionError::NotRegistered);
        }
        Ok(
            OracleQuery {
                pembrock_id: self.pembrock_id.clone(),
                account_id,
                gas: context.prepaid_gas - budget,
                callback_gas: GAS_FOR_GET_ACCOUNT_CALLBACK,
            },
        )
    }

    /// Takes the reward protocol's answer for `account_id`.
    ///
    /// Where the reported total does not exceed the account's record, or
    /// the reward protocol failed, the claim ends here: it has paid nothing
    /// and the ledger is as it was. Otherwise the record is raised to the
    /// reported total at once, and the difference is to be transferred to
    /// the account.
    pub fn get_account_callback(
        &mut self,
        account_id: AccountId,
        account_info: Result<AccountInfo, PromiseError>,
    ) -> (next: PromiseOrValue)
        ensures
            final(self)@ == (ContractView {
                claimed_rewards: ledger_after_report(
                    old(self)@.claimed_rewards,
                    account_id@,
                    reported_total(account_info),
                ),
                ..old(self)@
            }),
            match next {
                PromiseOrValue::Value(paid) => {
                    &&& paid == 0
                    &&& rewards_owed(
                        old(self)@.claimed_rewards,
                        account_id@,
                        reported_total(account_info),
                    ) == 0
                },
                PromiseOrValue::Promise(settlement) => {
                    &&& rewards_owed(
                        old(self)@.claimed_rewards,
                        account_id@,
                        reported_total(account_info),
                    ) > 0
                    &&& settlement.pays(
                        old(self)@.pem_token_id,
                        account_id@,
                        recorded(old(self)@.claimed_rewards, account_id@) as int,
                        rewards_owed(
                            old(self)@.claimed_rewards,
                            account_id@,
                            reported_total(account_info),
                        ) as int,
                    )
                },
            },
    {
        let total_rewards: Balance = match account_info {
            Ok(info) => info.total_rewards,
            Err(_) => 0,
        };
        let claimed_rewards = self.get_claimed_rewards(&account_id);
        if total_rewards <= claimed_rewards {
            return PromiseOrValue::Value(0);
        }
        let unclaimed_rewards: Balance = total_rewards - claimed_rewards;
        self.claimed_rewards.insert(&account_id, total_rewards);
        PromiseOrValue::Promise(
            Settlement {
                transfer: TokenTransfer {
                    token_id: self.pem_token_id.clone(),
                    receiver_id: account_id,
                    amount: unclaimed_rewards,
                    gas: GAS_FOR_FT_TRANSFER,
                    deposit: ONE_YOCTO,
                },
                claimed_rewards,
                unclaimed_rewards,
                callback_gas: GAS_FOR_FT_TRANSFER_CALLBACK,
            },
        )
    }

    /// Takes the result of the transfer that `get_account_callback` asked
    /// for, with the amounts that it handed on.
    ///
    /// A transfer that went through is reported as paid, and the ledger
    /// stays as it is. One that failed pays nothing, and the account's
    /// record is put back to `claimed_rewards`.
    pub fn ft_transfer_callback(
        &mut self,
        account_id: AccountId,
        claimed_rewards: Balance,
        unclaimed_rewards: Balance,
        result: Result<(), PromiseError>,
    ) -> (paid: Balance)
        ensures
            paid == payout(unclaimed_rewards, result is Ok),
            final(self)@ == (ContractView {
                claimed_rewards: ledger_after_transfer(
                    old(self)@.claimed_rewards,
                    account_id@,
                    claimed_rewards,
                    result is Ok,
                ),
                ..old(self)@
            }),
    {
        if result.is_ok() {
            return unclaimed_rewards;
        }
        self.claimed_rewards.insert(&account_id, claimed_rewards);
        0
    }

    /// Runs a whole claim against answers that are at hand: what the reward
    /// protocol says of the caller, and how a transfer would end. The three
    /// steps run in their order, each on what the one before handed on; the
    /// transfer's result is looked at only if a transfer is asked for.
    ///
    /// A call that `claim` turns away changes nothing. Otherwise the ledger
    /// and the payout are those of `claim_outcome`.
    pub fn run_claim(
        &mut self,
        context: &CallContext,
        account_info: Result<AccountInfo, PromiseError>,
        transfer_result: Result<(), PromiseError>,
    ) -> (result: Result<Balance, PreconditionError>)
        ensures
            match result {
                Ok(paid) => {
                    &&& claim_refusal(
                        context.attached_deposit,
                        context.prepaid_gas,
                        old(self)@.claimed_rewards.contains_key(context.predecessor_account_id@),
                    ) is None
                    &&& final(self)@ == (ContractView {
                        claimed_rewards: claim_outcome(
                            old(self)@.claimed_rewards,
                            context.predecessor_account_id@,
                            reported_total(account_info),
                            transfer_result is Ok,
                        ).0,
                        ..old(self)@
                    })
                    &&& paid == claim_outcome(
                        old(self)@.claimed_rewards,
                        context.predecessor_account_id@,
                        reported_total(account_info),
                        transfer_result is Ok,
                    ).1
                },
                Err(error) => {
                    &&& claim_refusal(
                        context.attached_deposit,
                        context.prepaid_gas,
                        old(self)@.claimed_rewards.contains_key(context.predecessor_account_id@),
                    ) == Some(error)
                    &&& final(self)@ == old(self)@
                },
            },
    {
        let query = match self.claim(context) {
            Ok(query) => query,
            Err(error) => {
                return Err(error);
            },
        };
        match self.get_account_callback(query.account_id, account_info) {
            PromiseOrValue::Value(paid) => Ok(paid),
            PromiseOrValue::Promise(settlement) => Ok(
                self.ft_transfer_callback(
                    settlement.transfer.receiver_id,
                    settlement.claimed_rewards,
                    settlement.unclaimed_rewards,
                    transfer_result,
                ),
            ),
        }
    }
}

} // verus!
