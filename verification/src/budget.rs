//! The gas budget of a claim.
//!
//! A claim runs over several cross-contract hops, and a hop cannot ask for
//! more gas once it runs. So each hop has a fixed cost, and a claim is turned
//! away at the door unless the caller prepaid the sum of them all.

use vstd::prelude::*;
use crate::types::Gas;

verus! {

/// 10^12 gas units.
pub const ONE_TERA: Gas = 1_000_000_000_000;

/// Gas reserved for taking the token contract's answer.
pub const GAS_FOR_FT_TRANSFER_CALLBACK: Gas = 10_000_000_000_000;

/// Gas handed to the token contract for one transfer.
pub const GAS_FOR_FT_TRANSFER: Gas = 10_000_000_000_000;

/// Gas reserved for taking the reward protocol's answer: the work done on
/// it, the transfer that may follow, and the handling of that transfer's
/// result.
pub const GAS_FOR_GET_ACCOUNT_CALLBACK: Gas = 25_000_000_000_000 + GAS_FOR_FT_TRANSFER
    + GAS_FOR_FT_TRANSFER_CALLBACK;

/// Gas that `claim` itself may use before it hands over to the reward
/// protocol.
pub const GAS_FOR_CLAIM: Gas = 45_000_000_000_000;

/// The sum of the fixed costs of a sequence of hops.
pub open spec fn total_cost(hops: Seq<Gas>) -> nat
    decreases hops.len(),
{
    if hops.len() == 0 {
        0
    } else {
        total_cost(hops.drop_last()) + hops.last() as nat
    }
}

/// What a caller of `claim` must have prepaid.
pub open spec fn claim_budget() -> nat {
    total_cost(seq![GAS_FOR_CLAIM, GAS_FOR_GET_ACCOUNT_CALLBACK])
}

/// The first hops of a sequence never cost more than all of it.
pub proof fn lemma_total_cost_prefix(hops: Seq<Gas>, n: int)
    requires
        0 <= n <= hops.len(),
    ensures
        total_cost(hops.take(n)) <= total_cost(hops),
    decreases hops.len(),
{
    if n == hops.len() {
        assert(hops.take(n) =~= hops);
    } else {
        lemma_total_cost_prefix(hops.drop_last(), n);
        assert(hops.drop_last().take(n) =~= hops.take(n));
    }
}

/// A claim's budget is 90 Tgas: 45 for `claim`, 45 for everything after
/// the reward protocol has answered.
pub proof fn lemma_claim_budget()
    ensures
        claim_budget() == GAS_FOR_CLAIM + GAS_FOR_GET_ACCOUNT_CALLBACK,
        claim_budget() == 90 * ONE_TERA,
{
    let hops = seq![GAS_FOR_CLAIM, GAS_FOR_GET_ACCOUNT_CALLBACK];
    assert(hops.drop_last() =~= seq![GAS_FOR_CLAIM]);
    assert(hops.drop_last().drop_last() =~= Seq::<Gas>::empty());
    reveal_with_fuel(total_cost, 3);
}

/// Adds up the fixed costs of the hops of a pipeline.
pub fn required(hops: &[Gas]) -> (total: Gas)
    requires
        total_cost(hops@) <= u64::MAX,
    ensures
        total == total_cost(hops@),
{
    let mut total: Gas = 0;
    let mut i: usize = 0;
    while i < hops.len()
        invariant
            i <= hops@.len(),
            total == total_cost(hops@.take(i as int)),
            total_cost(hops@) <= u64::MAX,
        decreases hops@.len() - i,
    {
        proof {
            lemma_total_cost_prefix(hops@, i + 1);
            assert(hops@.take(i + 1).drop_last() =~= hops@.take(i as int));
        }
        total = total + hops[i];
        i = i + 1;
    }
    proof {
        assert(hops@.take(i as int) =~= hops@);
    }
    total
}

} // verus!
