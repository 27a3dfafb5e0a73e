//! What a claim does, as mathematics.
//!
//! A claim passes through three steps, each an entry point of the contract:
//! the checks at the door, the handling of the reward protocol's answer,
//! and the handling of the transfer's result. The functions here say what
//! each step decides and what it does to the ledger; the entry points are
//! proved to do exactly that, and the laws at the end of this file are
//! proved from these definitions.

use vstd::prelude::*;
use near_sdk::PromiseError;
use crate::budget::{claim_budget, lemma_claim_budget};
use crate::error::PreconditionError;
use crate::ledger::recorded;
use crate::types::{AccountInfo, Balance, Gas, ONE_YOCTO};

verus! {

/// Why `claim` turns a call away, if it does. The deposit is looked at
/// first, then the prepaid gas, then the registration.
pub open spec fn claim_refusal(attached_deposit: Balance, prepaid_gas: Gas, registered: bool) -> Option<
    PreconditionError,
> {
    if attached_deposit != ONE_YOCTO {
        Some(PreconditionError::WrongDeposit)
    } else if prepaid_gas < claim_budget() {
        Some(PreconditionError::InsufficientBudget)
    } else if !registered {
        Some(PreconditionError::NotRegistered)
    } else {
        None
    }
}

/// Why `owner_withdraw` turns a call away, if it does. The deposit is
/// looked at first, then the caller.
pub open spec fn withdrawal_refusal(attached_deposit: Balance, by_owner: bool) -> Option<
    PreconditionError,
> {
    if attached_deposit != ONE_YOCTO {
        Some(PreconditionError::WrongDeposit)
    } else if !by_owner {
        Some(PreconditionError::NotOwner)
    } else {
        None
    }
}

/// The lifetime total that the contract goes by. Where the reward protocol
/// failed to answer, it goes by zero, which is never more than the ledger
/// holds, so that a failure pays nothing and writes nothing.
pub open spec fn reported_total(account_info: Result<AccountInfo, PromiseError>) -> Balance {
    match account_info {
        Ok(info) => info.total_rewards,
        Err(_) => 0,
    }
}

/// What a claim owes: the part of the reported total that the ledger does
/// not hold yet.
pub open spec fn rewards_owed(
    ledger: Map<Seq<char>, Balance>,
    account_id: Seq<char>,
    total: Balance,
) -> Balance {
    if total <= recorded(ledger, account_id) {
        0
    } else {
        (total - recorded(ledger, account_id)) as Balance
    }
}

/// The ledger once the reward protocol's answer has been handled. Where
/// something is owed, the account's record is raised to the reported total
/// before the transfer is asked for, so that a second claim that arrives
/// while the transfer is under way finds nothing left to claim.
pub open spec fn ledger_after_report(
    ledger: Map<Seq<char>, Balance>,
    account_id: Seq<char>,
    total: Balance,
) -> Map<Seq<char>, Balance> {
    if total <= recorded(ledger, account_id) {
        ledger
    } else {
        ledger.insert(account_id, total)
    }
}

/// The ledger once the transfer's result has been handled. A transfer that
/// went through leaves the ledger as it is; one that failed puts the
/// account's record back to `claimed_rewards`, what it was before the claim.
pub open spec fn ledger_after_transfer(
    ledger: Map<Seq<char>, Balance>,
    account_id: Seq<char>,
    claimed_rewards: Balance,
    transferred: bool,
) -> Map<Seq<char>, Balance> {
    if transferred {
        ledger
    } else {
        ledger.insert(account_id, claimed_rewards)
    }
}

/// What a claim reports as paid out: all of what was owed, or nothing.
pub open spec fn payout(unclaimed_rewards: Balance, transferred: bool) -> Balance {
    if transferred {
        unclaimed_rewards
    } else {
        0
    }
}

/// The ledger and the payout at the end of a claim that passed the checks
/// at the door: the reward protocol reported `total`; the transfer, if one
/// was asked for, went through or not.
pub open spec fn claim_outcome(
    ledger: Map<Seq<char>, Balance>,
    account_id: Seq<char>,
    total: Balance,
    transferred: bool,
) -> (Map<Seq<char>, Balance>, Balance) {
    let owed = rewards_owed(ledger, account_id, total);
    let written = ledger_after_report(ledger, account_id, total);
    if owed == 0 {
        (written, 0)
    } else {
        (
            ledger_after_transfer(written, account_id, recorded(ledger, account_id), transferred),
            payout(owed, transferred),
        )
    }
}

/// A freshly registered account has claimed nothing: its record is there
/// and stands at zero. Before registration it has no record at all.
pub proof fn lemma_registration_starts_at_zero(ledger: Map<Seq<char>, Balance>, account_id: Seq<char>)
    requires
        !ledger.contains_key(account_id),
    ensures
        ledger.insert(account_id, 0).contains_key(account_id),
        recorded(ledger.insert(account_id, 0), account_id) == 0,
        !Map::<Seq<char>, Balance>::empty().contains_key(account_id),
{
}

/// A claim that finds no new reward pays nothing and leaves the whole
/// ledger as it was, whatever would have become of a transfer. A reward
/// protocol that failed to answer is such a case.
pub proof fn lemma_no_new_reward_changes_nothing(
    ledger: Map<Seq<char>, Balance>,
    account_id: Seq<char>,
    total: Balance,
    transferred: bool,
)
    requires
        total <= recorded(ledger, account_id),
    ensures
        claim_outcome(ledger, account_id, total, transferred) == (ledger, 0 as Balance),
        rewards_owed(ledger, account_id, total) == 0,
        ledger_after_report(ledger, account_id, total) == ledger,
{
}

/// A reward protocol that failed to answer counts as no new reward: the
/// record is never overwritten with zero.
pub proof fn lemma_oracle_failure_changes_nothing(
    ledger: Map<Seq<char>, Balance>,
    account_id: Seq<char>,
    error: PromiseError,
    transferred: bool,
)
    ensures
        claim_outcome(ledger, account_id, reported_total(Err(error)), transferred) == (
            ledger,
            0 as Balance,
        ),
{
}

/// Conservation: where the reported total exceeds the record and the
/// transfer goes through, the record becomes the reported total and the
/// payout is the difference. No other record changes.
pub proof fn lemma_conservation(ledger: Map<Seq<char>, Balance>, account_id: Seq<char>, total: Balance)
    requires
        total > recorded(ledger, account_id),
    ensures
        recorded(claim_outcome(ledger, account_id, total, true).0, account_id) == total,
        claim_outcome(ledger, account_id, total, true).1 == total - recorded(ledger, account_id),
        claim_outcome(ledger, account_id, total, true).0 == ledger.insert(account_id, total),
{
}

/// Compensation: where the reported total exceeds the record and the
/// transfer fails, the record is what it was before the claim and the
/// payout is zero. For a registered account the whole ledger is what it
/// was.
pub proof fn lemma_compensation(ledger: Map<Seq<char>, Balance>, account_id: Seq<char>, total: Balance)
    requires
        total > recorded(ledger, account_id),
    ensures
        recorded(claim_outcome(ledger, account_id, total, false).0, account_id) == recorded(
            ledger,
            account_id,
        ),
        claim_outcome(ledger, account_id, total, false).1 == 0,
        ledger.contains_key(account_id) ==> claim_outcome(ledger, account_id, total, false).0
            == ledger,
{
    let end = claim_outcome(ledger, account_id, total, false).0;
    assert(end == ledger.insert(account_id, total).insert(
        account_id,
        recorded(ledger, account_id),
    ));
    if ledger.contains_key(account_id) {
        assert(end =~= ledger);
    }
}

/// Handling the reward protocol's answer leaves the account's record at
/// the larger of what it was and what was reported: the record never
/// exceeds what the ledger held or the protocol reported, and never falls.
pub proof fn lemma_report_raises_record(
    ledger: Map<Seq<char>, Balance>,
    account_id: Seq<char>,
    total: Balance,
)
    ensures
        recorded(ledger_after_report(ledger, account_id, total), account_id) == if total
            <= recorded(ledger, account_id) {
            recorded(ledger, account_id)
        } else {
            total
        },
        recorded(ledger_after_report(ledger, account_id, total), account_id) == recorded(
            ledger,
            account_id,
        ) + rewards_owed(ledger, account_id, total),
{
}

/// No double claim: once an answer has been handled, a second answer for
/// the same account finds owed only what it reports beyond the first and
/// beyond the record, also while the first transfer is still under way.
/// The same total a second time finds nothing.
pub proof fn lemma_second_report_finds_the_excess(
    ledger: Map<Seq<char>, Balance>,
    account_id: Seq<char>,
    first: Balance,
    second: Balance,
)
    ensures
        rewards_owed(ledger_after_report(ledger, account_id, first), account_id, first) == 0,
        second <= first ==> rewards_owed(
            ledger_after_report(ledger, account_id, first),
            account_id,
            second,
        ) == 0,
        rewards_owed(ledger, account_id, first) + rewards_owed(
            ledger_after_report(ledger, account_id, first),
            account_id,
            second,
        ) == if first <= second {
            rewards_owed(ledger, account_id, second)
        } else {
            rewards_owed(ledger, account_id, first)
        },
{
}

/// A claim never pays more than the reported total exceeds the record,
/// never lowers the account's record, and touches no other account.
pub proof fn lemma_claim_is_bounded(
    ledger: Map<Seq<char>, Balance>,
    account_id: Seq<char>,
    other_id: Seq<char>,
    total: Balance,
    transferred: bool,
)
    ensures
        claim_outcome(ledger, account_id, total, transferred).1 <= rewards_owed(
            ledger,
            account_id,
            total,
        ),
        recorded(claim_outcome(ledger, account_id, total, transferred).0, account_id) == recorded(
            ledger,
            account_id,
        ) + claim_outcome(ledger, account_id, total, transferred).1,
        other_id != account_id ==> recorded(
            claim_outcome(ledger, account_id, total, transferred).0,
            other_id,
        ) == recorded(ledger, other_id),
{
}

/// Budget fail-fast: a claim that prepaid less than the budget is turned
/// away, whatever else holds of it. The budget is 90 Tgas.
pub proof fn lemma_budget_fail_fast(attached_deposit: Balance, prepaid_gas: Gas, registered: bool)
    requires
        prepaid_gas < claim_budget(),
    ensures
        claim_refusal(attached_deposit, prepaid_gas, registered) is Some,
        attached_deposit == ONE_YOCTO ==> claim_refusal(attached_deposit, prepaid_gas, registered)
            == Some(PreconditionError::InsufficientBudget),
        claim_budget() == 90_000_000_000_000,
{
    lemma_claim_budget();
}

/// Payment guard: a claim or a withdrawal that does not carry exactly one
/// yocto fails on that account, before anything else is looked at.
pub proof fn lemma_payment_guard(
    attached_deposit: Balance,
    prepaid_gas: Gas,
    registered: bool,
    by_owner: bool,
)
    requires
        attached_deposit != ONE_YOCTO,
    ensures
        claim_refusal(attached_deposit, prepaid_gas, registered) == Some(
            PreconditionError::WrongDeposit,
        ),
        withdrawal_refusal(attached_deposit, by_owner) == Some(PreconditionError::WrongDeposit),
{
}

} // verus!
