//! Why a call is turned away.

use vstd::prelude::*;

verus! {

/// A call that fails one of the checks made before anything is written or
/// scheduled. The caller may try again with the fault mended.
#[derive(Debug, Clone, Copy, PartialEq, Eq, Structural)]
pub enum PreconditionError {
    /// The call does not carry exactly one yocto.
    WrongDeposit,
    /// The caller is not the owner of the contract.
    NotOwner,
    /// The caller prepaid less gas than the whole claim needs.
    InsufficientBudget,
    /// The caller has no record in the ledger.
    NotRegistered,
}

impl PreconditionError {
    /// The words in which the host reports the failure.
    pub fn message(&self) -> (text: &'static str)
        ensures
            text@ == match *self {
                PreconditionError::WrongDeposit => "Requires attached deposit of exactly 1 yoctoNEAR"@,
                PreconditionError::NotOwner => "Not an owner"@,
                PreconditionError::InsufficientBudget => "More gas is required"@,
                PreconditionError::NotRegistered => "Account is not registered"@,
            },
    {
        match self {
            PreconditionError::WrongDeposit => "Requires attached deposit of exactly 1 yoctoNEAR",
            PreconditionError::NotOwner => "Not an owner",
            PreconditionError::InsufficientBudget => "More gas is required",
            PreconditionError::NotRegistered => "Account is not registered",
        }
    }
}

/// A registration that cannot go through.
#[derive(Debug, Clone, Copy, PartialEq, Eq, Structural)]
pub enum RegistrationError {
    /// The account has a record already.
    AlreadyRegistered,
    /// The deposit does not cover the storage of one record.
    InsufficientDeposit,
}

impl RegistrationError {
    /// The words in which the host reports the failure.
    pub fn message(&self) -> (text: &'static str)
        ensures
            text@ == match *self {
                RegistrationError::AlreadyRegistered => "The account is already registered"@,
                RegistrationError::InsufficientDeposit =>
                    "The attached deposit is less than the minimum storage balance"@,
            },
    {
        match self {
            RegistrationError::AlreadyRegistered => "The account is already registered",
            RegistrationError::InsufficientDeposit =>
                "The attached deposit is less than the minimum storage balance",
        }
    }
}

} // verus!
