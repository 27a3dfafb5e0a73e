//! The record of what has been paid out to whom.

use vstd::prelude::*;
use vstd::hash_map::StringHashMap;
use crate::types::{AccountId, Balance};

verus! {

/// For each registered account, the sum of the rewards that the contract
/// has paid out to it.
///
/// An account is registered exactly when it has a record, whatever the
/// amount: a record of zero is a registered account that has not claimed
/// yet.
pub struct Ledger {
    records: StringHashMap<Balance>,
}

impl View for Ledger {
    type V = Map<Seq<char>, Balance>;

    closed spec fn view(&self) -> Map<Seq<char>, Balance> {
        self.records@
    }
}

/// The amount recorded for an account: zero where it has no record.
pub open spec fn recorded(ledger: Map<Seq<char>, Balance>, account_id: Seq<char>) -> Balance {
    if ledger.contains_key(account_id) {
        ledger[account_id]
    } else {
        0
    }
}

impl Ledger {
    /// A ledger without records.
    pub fn new() -> (ledger: Ledger)
        ensures
            ledger@ == Map::<Seq<char>, Balance>::empty(),
    {
        Ledger { records: StringHashMap::new() }
    }

    /// The record of an account, if it has one.
    pub fn get(&self, account_id: &AccountId) -> (amount: Option<Balance>)
        ensures
            amount == if self@.contains_key(account_id@) {
                Some(self@[account_id@])
            } else {
                None
            },
    {
        match self.records.get(account_id.as_str()) {
            Some(amount) => Some(*amount),
            None => None,
        }
    }

    /// Whether an account has a record.
    pub fn contains(&self, account_id: &AccountId) -> (present: bool)
        ensures
            present == self@.contains_key(account_id@),
    {
        self.records.contains_key(account_id.as_str())
    }

    /// Writes the record of an account, and returns the record it had.
    /// No other record changes.
    pub fn insert(&mut self, account_id: &AccountId, amount: Balance) -> (previous: Option<
        Balance,
    >)
        ensures
            final(self)@ == old(self)@.insert(account_id@, amount),
            previous == if old(self)@.contains_key(account_id@) {
                Some(old(self)@[account_id@])
            } else {
                None
            },
    {
        let previous = self.get(account_id);
        self.records.insert(account_id.as_str().to_owned(), amount);
        previous
    }
}

} // verus!
