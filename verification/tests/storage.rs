use reward_claims::{
    measured_storage_usage, measuring_account_id, AccountId, CallContext, Contract, Ledger,
    RegistrationError, StorageBalance, STORAGE_PRICE_PER_BYTE,
};

const USAGE: u64 = 302;
const PRICE: u128 = 3_020_000_000_000_000_000_000;

fn id(name: &str) -> AccountId {
    AccountId::new(name.to_string())
}

fn deposit(caller: &str, attached_deposit: u128) -> CallContext {
    CallContext { predecessor_account_id: id(caller), attached_deposit, prepaid_gas: 0 }
}

fn new_contract() -> Contract {
    Contract::new(id("owner.near"), id("pembrock.near"), id("token.near"), USAGE)
}

#[test]
fn bounds_are_the_price_of_one_record() {
    assert_eq!(STORAGE_PRICE_PER_BYTE, 10_000_000_000_000_000_000);
    let bounds = new_contract().storage_balance_bounds();
    assert_eq!(bounds.min, PRICE);
    assert_eq!(bounds.max, Some(PRICE));
}

#[test]
fn bounds_of_the_extremes() {
    let none = Contract::new(id("o"), id("p"), id("t"), 0).storage_balance_bounds();
    assert_eq!(none.min, 0);
    assert_eq!(none.max, Some(0));

    let most = Contract::new(id("o"), id("p"), id("t"), u64::MAX).storage_balance_bounds();
    assert_eq!(most.min, 184_467_440_737_095_516_150_000_000_000_000_000_000);
    assert_eq!(most.max, Some(most.min));
}

#[test]
fn exact_deposit_registers_without_refund() {
    let mut contract = new_contract();
    let receipt = contract.storage_deposit(&deposit("a.near", PRICE), None, None).unwrap();
    assert_eq!(receipt.balance, StorageBalance { total: PRICE, available: 0 });
    assert!(receipt.refund.is_none());
    assert_eq!(contract.claimed_rewards().get(&id("a.near")), Some(0));
}

#[test]
fn excess_deposit_is_refunded_to_the_caller() {
    let mut contract = new_contract();
    let receipt = contract
        .storage_deposit(&deposit("payer.near", PRICE + 5), Some(id("a.near")), Some(true))
        .unwrap();
    assert_eq!(receipt.balance, StorageBalance { total: PRICE, available: 0 });
    let refund = receipt.refund.unwrap();
    assert_eq!(refund.receiver_id, id("payer.near"));
    assert_eq!(refund.amount, 5);
    assert!(contract.is_account_registered(&id("a.near")));
    assert!(!contract.is_account_registered(&id("payer.near")));
}

#[test]
fn short_deposit_registers_nobody() {
    let mut contract = new_contract();
    let refusal = contract.storage_deposit(&deposit("a.near", PRICE - 1), None, None).unwrap_err();
    assert_eq!(refusal, RegistrationError::InsufficientDeposit);
    assert!(!contract.is_account_registered(&id("a.near")));

    let refusal = contract.storage_deposit(&deposit("a.near", 0), None, None).unwrap_err();
    assert_eq!(refusal, RegistrationError::InsufficientDeposit);
}

#[test]
fn deposit_for_a_registered_account_goes_back_whole() {
    let mut ledger = Ledger::new();
    ledger.insert(&id("a.near"), 40);
    let mut contract = Contract::with_ledger(id("o"), id("p"), id("t"), ledger, USAGE);

    let receipt = contract.storage_deposit(&deposit("payer.near", 3), Some(id("a.near")), None).unwrap();
    assert_eq!(receipt.balance, StorageBalance { total: PRICE, available: 0 });
    let refund = receipt.refund.unwrap();
    assert_eq!(refund.receiver_id, id("payer.near"));
    assert_eq!(refund.amount, 3);
    assert_eq!(contract.claimed_rewards().get(&id("a.near")), Some(40));

    let receipt = contract.storage_deposit(&deposit("a.near", 0), None, None).unwrap();
    assert!(receipt.refund.is_none());
    assert_eq!(contract.claimed_rewards().get(&id("a.near")), Some(40));
}

#[test]
fn free_storage_registers_on_an_empty_deposit() {
    let mut contract = Contract::new(id("o"), id("p"), id("t"), 0);
    let receipt = contract.storage_deposit(&deposit("a.near", 0), None, None).unwrap();
    assert_eq!(receipt.balance, StorageBalance { total: 0, available: 0 });
    assert!(receipt.refund.is_none());
    assert!(contract.is_account_registered(&id("a.near")));
}

#[test]
fn balance_of_an_account() {
    let mut contract = new_contract();
    assert_eq!(contract.storage_balance_of(id("a.near")), None);
    contract.register_account(&id("a.near")).unwrap();
    assert_eq!(
        contract.storage_balance_of(id("a.near")),
        Some(StorageBalance { total: PRICE, available: 0 })
    );
}

#[test]
fn second_registration_is_refused_and_keeps_the_record() {
    let mut ledger = Ledger::new();
    ledger.insert(&id("a.near"), 40);
    let mut contract = Contract::with_ledger(id("o"), id("p"), id("t"), ledger, USAGE);

    assert_eq!(
        contract.register_account(&id("a.near")),
        Err(RegistrationError::AlreadyRegistered)
    );
    assert_eq!(contract.claimed_rewards().get(&id("a.near")), Some(40));

    assert_eq!(contract.register_account(&id("b.near")), Ok(()));
    assert_eq!(
        contract.register_account(&id("b.near")),
        Err(RegistrationError::AlreadyRegistered)
    );
}

#[test]
fn ledger_keeps_one_record_per_account() {
    let mut ledger = Ledger::new();
    assert!(!ledger.contains(&id("a.near")));
    assert_eq!(ledger.get(&id("a.near")), None);
    assert_eq!(ledger.insert(&id("a.near"), 1), None);
    assert_eq!(ledger.insert(&id("b.near"), 2), None);
    assert_eq!(ledger.insert(&id("a.near"), 3), Some(1));
    assert!(ledger.contains(&id("a.near")));
    assert_eq!(ledger.get(&id("a.near")), Some(3));
    assert_eq!(ledger.get(&id("b.near")), Some(2));
    assert_eq!(ledger.get(&id("c.near")), None);
}

#[test]
fn storage_is_measured_with_the_longest_name() {
    let account_id = measuring_account_id();
    assert_eq!(account_id.as_str().len(), 64);
    assert!(account_id.as_str().chars().all(|c| c == 'a'));
    assert_eq!(account_id, id(&"a".repeat(64)));
}

#[test]
fn measured_usage_is_the_growth_of_the_storage() {
    assert_eq!(measured_storage_usage(1_000, 1_302), 302);
    assert_eq!(measured_storage_usage(5, 5), 0);
    assert_eq!(measured_storage_usage(0, u64::MAX), u64::MAX);
}
