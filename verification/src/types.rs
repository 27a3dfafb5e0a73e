//! The plain values that the contract exchanges with its host.

use vstd::prelude::*;
use vstd::std_specs::cmp::PartialEqSpecImpl;

verus! {

/// An amount of tokens, in the smallest unit.
pub type Balance = u128;

/// Gas units, the host's measure of computation.
pub type Gas = u64;

/// A number of bytes of contract storage.
pub type StorageUsage = u64;

/// The smallest amount of the native token.
pub const ONE_YOCTO: Balance = 1;

/// `near_sdk::PromiseError`, with which the host reports that a scheduled
/// call did not deliver. Nothing is said of what is inside: the contract
/// tells a failure from an answer and never asks which failure it was.
#[verifier::external_type_specification]
#[verifier::external_body]
pub struct ExPromiseError(near_sdk::PromiseError);

/// The name of an account. The host has validated it; to the contract it is
/// a key, and two names are the same account exactly when they are spelled
/// the same.
#[derive(Debug)]
pub struct AccountId {
    id: String,
}

impl View for AccountId {
    type V = Seq<char>;

    closed spec fn view(&self) -> Seq<char> {
        self.id@
    }
}

impl AccountId {
    /// Wraps a name that the host has validated.
    pub fn new(id: String) -> (account_id: AccountId)
        ensures
            account_id@ == id@,
    {
        AccountId { id }
    }

    /// The name as text.
    pub fn as_str(&self) -> (id: &str)
        ensures
            id@ == self@,
    {
        self.id.as_str()
    }
}

impl Clone for AccountId {
    fn clone(&self) -> (copy: AccountId)
        ensures
            copy@ == self@,
    {
        AccountId { id: self.id.clone() }
    }
}

impl PartialEq for AccountId {
    fn eq(&self, other: &AccountId) -> (same: bool) {
        self.id == other.id
    }
}

impl PartialEqSpecImpl for AccountId {
    open spec fn obeys_eq_spec() -> bool {
        true
    }

    open spec fn eq_spec(&self, other: &AccountId) -> bool {
        self@ == other@
    }
}

impl Eq for AccountId {

}

/// What the reward protocol answers about one account.
#[derive(Debug, Clone, Copy, PartialEq, Eq, Structural)]
pub struct AccountInfo {
    /// Everything the account has earned since it opened, paid out or not.
    pub total_rewards: Balance,
}

/// What the host knows about the call that is being served.
#[derive(Debug)]
pub struct CallContext {
    /// The account that made the call.
    pub predecessor_account_id: AccountId,
    /// The native tokens attached to the call.
    pub attached_deposit: Balance,
    /// The gas that the caller paid for in advance.
    pub prepaid_gas: Gas,
}

} // verus!
