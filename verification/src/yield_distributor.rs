use vstd::prelude::*;

use vstd::arithmetic::mul::lemma_mul_inequality;

verus! {

/// Yield per share in micro-units: the yield amount scaled to 6 decimals
/// and divided by the share supply, rounded down.
pub open spec fn per_share_yield_of(yield_amount: int, total_share_supply: int) -> int {
    yield_amount * 1000000 / total_share_supply
}

/// Computes the per-share yield rate for announcing a distribution. A pure
/// computation: no value moves here, disbursement is the host's job.
pub fn per_share_yield(yield_amount: u64, total_share_supply: u64) -> (r: u128)
    requires
        total_share_supply > 0,
    ensures
        r == per_share_yield_of(yield_amount as int, total_share_supply as int),
{
    proof {
        lemma_mul_inequality(yield_amount as int, u64::MAX as int, 1000000);
    }
    (yield_amount as u128) * 1000000 / (total_share_supply as u128)
}

} // verus!
