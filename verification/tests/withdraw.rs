use reward_claims::{
    AccountId, CallContext, Contract, PreconditionError, RegistrationError, GAS_FOR_FT_TRANSFER,
    ONE_YOCTO,
};

fn id(name: &str) -> AccountId {
    AccountId::new(name.to_string())
}

fn call(caller: &str, attached_deposit: u128) -> CallContext {
    CallContext { predecessor_account_id: id(caller), attached_deposit, prepaid_gas: 0 }
}

fn new_contract() -> Contract {
    Contract::new(id("owner.near"), id("pembrock.near"), id("token.near"), 302)
}

#[test]
fn owner_withdraws_to_itself() {
    let contract = new_contract();
    let transfer = contract.owner_withdraw(&call("owner.near", ONE_YOCTO), 12345).unwrap();
    assert_eq!(transfer.token_id, id("token.near"));
    assert_eq!(transfer.receiver_id, id("owner.near"));
    assert_eq!(transfer.amount, 12345);
    assert_eq!(transfer.gas, GAS_FOR_FT_TRANSFER);
    assert_eq!(transfer.deposit, 1);
}

#[test]
fn stranger_cannot_withdraw() {
    let contract = new_contract();
    let refusal = contract.owner_withdraw(&call("stranger.near", ONE_YOCTO), 1).unwrap_err();
    assert_eq!(refusal, PreconditionError::NotOwner);
    assert_eq!(refusal.message(), "Not an owner");
}

#[test]
fn refusals_speak_as_the_host_reports_them() {
    assert_eq!(
        PreconditionError::WrongDeposit.message(),
        "Requires attached deposit of exactly 1 yoctoNEAR"
    );
    assert_eq!(PreconditionError::NotOwner.message(), "Not an owner");
    assert_eq!(PreconditionError::InsufficientBudget.message(), "More gas is required");
    assert_eq!(PreconditionError::NotRegistered.message(), "Account is not registered");
    assert_eq!(
        RegistrationError::AlreadyRegistered.message(),
        "The account is already registered"
    );
    assert_eq!(
        RegistrationError::InsufficientDeposit.message(),
        "The attached deposit is less than the minimum storage balance"
    );
}

#[test]
fn account_ids_compare_by_spelling() {
    let a = id("a.near");
    assert_eq!(a, id("a.near"));
    assert_ne!(a, id("A.near"));
    assert_ne!(a, id("a.nea"));
    assert_eq!(a.clone(), a);
    assert_eq!(a.as_str(), "a.near");
}
