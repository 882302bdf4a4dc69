use vstd::prelude::*;

verus! {

/// Denormalized running totals over the fund's history. They are caches,
/// not independently authoritative: each successful subscription adds its
/// deposit to `total_deposits`, and each successful yield distribution adds
/// its amount to `total_yield_distributed`, so both always equal the sum
/// over the corresponding events and are rebuildable from them.
#[derive(Clone, Copy, Debug, PartialEq, Eq, Structural)]
pub struct FundState {
    /// Sum of all payment-asset amounts deposited through `subscribe`.
    pub total_deposits: u64,
    /// Sum of all yield amounts announced through `distribute_yield`.
    pub total_yield_distributed: u64,
}

/// The sum of a sequence of recorded amounts, as an unbounded integer.
pub open spec fn sum_amounts(s: Seq<u64>) -> int
    decreases s.len(),
{
    if s.len() == 0 {
        0
    } else {
        sum_amounts(s.drop_last()) + s.last()
    }
}

/// Recording one more amount grows the sum by exactly that amount.
pub proof fn lemma_sum_amounts_push(s: Seq<u64>, x: u64)
    ensures
        sum_amounts(s.push(x)) == sum_amounts(s) + x,
{
    assert(s.push(x).drop_last() =~= s);
}

} // verus!
