use vstd::prelude::*;

use crate::errors::RenewraError;
use crate::fees::{apply_fee, fee_of, lemma_fee_bounds, net_of};
use vstd::arithmetic::div_mod::{
    lemma_div_is_ordered, lemma_div_is_ordered_by_denominator, lemma_div_nonincreasing,
    lemma_div_pos_is_pos, lemma_hoist_over_denominator,
};
use vstd::arithmetic::mul::{
    lemma_mul_inequality, lemma_mul_is_commutative, lemma_mul_is_distributive_add_other_way,
};

verus! {

/// Shares minted for a net deposit priced at `nav_cents`: the deposit
/// (payment-asset base units, 6 decimals) is rescaled to NAV-cents
/// precision, divided by the price per share, scaled to share base units
/// (6 decimals), and rescaled back. Every division rounds down, so
/// fractional remainders always favor the fund treasury over the depositor.
pub open spec fn shares_of_net(net: int, nav_cents: int) -> int {
    net * 100 / nav_cents * 1000000 / 100
}

/// Shares minted for a gross deposit: the mint fee comes out first, then the
/// net amount is priced at `nav_cents`.
pub open spec fn shares_for_deposit_spec(deposit: int, fee_bps: int, nav_cents: int) -> int {
    shares_of_net(net_of(deposit, fee_bps), nav_cents)
}

/// Taking the fee out of a larger amount never leaves a smaller net amount.
pub proof fn lemma_net_monotonic(d1: int, d2: int, fee_bps: int)
    requires
        0 <= d1 <= d2,
        0 <= fee_bps <= 10000,
    ensures
        net_of(d1, fee_bps) <= net_of(d2, fee_bps),
{
    let delta = d2 - d1;
    lemma_mul_is_distributive_add_other_way(fee_bps, d1, delta);
    lemma_mul_inequality(fee_bps, 10000, delta);
    lemma_mul_is_commutative(fee_bps, delta);
    lemma_mul_is_commutative(10000, delta);
    assert(d2 * fee_bps <= d1 * fee_bps + delta * 10000);
    lemma_div_is_ordered(d2 * fee_bps, d1 * fee_bps + delta * 10000, 10000);
    lemma_hoist_over_denominator(d1 * fee_bps, delta, 10000nat);
    assert(fee_of(d2, fee_bps) <= fee_of(d1, fee_bps) + delta);
}

/// Pricing a larger net amount never yields fewer shares.
pub proof fn lemma_shares_of_net_monotonic(n1: int, n2: int, nav_cents: int)
    requires
        0 <= n1 <= n2,
        0 < nav_cents,
    ensures
        shares_of_net(n1, nav_cents) <= shares_of_net(n2, nav_cents),
{
    lemma_mul_inequality(n1, n2, 100);
    lemma_div_is_ordered(n1 * 100, n2 * 100, nav_cents);
    lemma_div_pos_is_pos(n1 * 100, nav_cents);
    lemma_mul_inequality(n1 * 100 / nav_cents, n2 * 100 / nav_cents, 1000000);
    lemma_div_is_ordered(
        n1 * 100 / nav_cents * 1000000,
        n2 * 100 / nav_cents * 1000000,
        100,
    );
}

/// Law: for a fixed fee rate and NAV, minting is monotone in the deposit —
/// a larger deposit never yields fewer shares.
pub proof fn lemma_shares_monotonic_in_deposit(d1: int, d2: int, fee_bps: int, nav_cents: int)
    requires
        0 < d1 <= d2,
        0 <= fee_bps <= 10000,
        0 < nav_cents,
    ensures
        shares_for_deposit_spec(d1, fee_bps, nav_cents)
            <= shares_for_deposit_spec(d2, fee_bps, nav_cents),
{
    lemma_fee_bounds(d1, fee_bps);
    lemma_net_monotonic(d1, d2, fee_bps);
    lemma_shares_of_net_monotonic(net_of(d1, fee_bps), net_of(d2, fee_bps), nav_cents);
}

/// Law: for a fixed deposit and fee rate, minting is antitone in the NAV —
/// a higher price per share never yields more shares.
pub proof fn lemma_shares_antimonotonic_in_nav(d: int, fee_bps: int, nav1: int, nav2: int)
    requires
        0 < d,
        0 <= fee_bps <= 10000,
        0 < nav1 <= nav2,
    ensures
        shares_for_deposit_spec(d, fee_bps, nav1) >= shares_for_deposit_spec(d, fee_bps, nav2),
{
    lemma_fee_bounds(d, fee_bps);
    let net = net_of(d, fee_bps);
    lemma_mul_inequality(0, net, 100);
    lemma_div_is_ordered_by_denominator(net * 100, nav1, nav2);
    lemma_div_pos_is_pos(net * 100, nav2);
    lemma_mul_inequality(net * 100 / nav2, net * 100 / nav1, 1000000);
    lemma_div_is_ordered(
        net * 100 / nav2 * 1000000,
        net * 100 / nav1 * 1000000,
        100,
    );
}

/// Converts a gross deposit into the number of shares to mint at the given
/// NAV and mint fee rate. Dust deposits whose share count rounds down to
/// zero are rejected rather than silently absorbed, and a result that does
/// not fit the share token's 64-bit amount is an overflow.
pub fn shares_for_deposit(deposit_amount: u64, fee_bps: u16, nav_cents: u64) -> (r: Result<
    u64,
    RenewraError,
>)
    requires
        deposit_amount > 0,
        nav_cents > 0,
        fee_bps <= 10000,
    ensures
        ({
            let s = shares_for_deposit_spec(
                deposit_amount as int,
                fee_bps as int,
                nav_cents as int,
            );
            &&& r is Ok <==> 0 < s <= u64::MAX
            &&& (r matches Ok(shares) ==> shares == s)
            &&& (r == Err::<u64, RenewraError>(RenewraError::InvalidAmount) <==> s == 0)
            &&& (r == Err::<u64, RenewraError>(RenewraError::ArithmeticOverflow) <==> s
                > u64::MAX)
        }),
{
    let net: u64 = match apply_fee(deposit_amount, fee_bps) {
        Ok((net, _fee)) => net,
        Err(e) => { return Err(e) },
    };
    proof {
        lemma_fee_bounds(deposit_amount as int, fee_bps as int);
        lemma_mul_inequality(net as int, u64::MAX as int, 100);
        lemma_div_nonincreasing(net as int * 100, nav_cents as int);
        lemma_div_pos_is_pos(net as int * 100, nav_cents as int);
        lemma_mul_inequality(
            net as int * 100 / (nav_cents as int),
            net as int * 100,
            1000000,
        );
        lemma_mul_inequality(
            net as int * 100,
            u64::MAX as int * 100,
            1000000,
        );
        lemma_div_pos_is_pos(net as int * 100 / (nav_cents as int) * 1000000, 100);
    }
    let scaled: u128 = (net as u128) * 100 / (nav_cents as u128);
    let shares_wide: u128 = scaled * 1000000 / 100;
    if shares_wide == 0 {
        Err(RenewraError::InvalidAmount)
    } else if shares_wide > u64::MAX as u128 {
        Err(RenewraError::ArithmeticOverflow)
    } else {
        Ok(shares_wide as u64)
    }
}

} // verus!
