use vstd::prelude::*;

use crate::errors::RenewraError;
use vstd::arithmetic::div_mod::{
    lemma_div_is_ordered, lemma_div_multiples_vanish, lemma_div_pos_is_pos,
};
use vstd::arithmetic::mul::{lemma_mul_inequality, lemma_mul_is_commutative};

verus! {

/// Basis points in one whole unit; fee rates are fractions of this.
pub const BPS_DENOMINATOR: u16 = 10000;

/// The fee taken out of `amount` at a rate of `fee_bps` basis points,
/// rounded down.
pub open spec fn fee_of(amount: int, fee_bps: int) -> int {
    amount * fee_bps / 10000
}

/// What remains of `amount` once the fee is taken out.
pub open spec fn net_of(amount: int, fee_bps: int) -> int {
    amount - fee_of(amount, fee_bps)
}

/// The fee never exceeds the amount it is taken from, as long as the rate is
/// at most 100%.
pub proof fn lemma_fee_bounds(amount: int, fee_bps: int)
    requires
        0 <= amount,
        0 <= fee_bps <= 10000,
    ensures
        0 <= fee_of(amount, fee_bps) <= amount,
{
    lemma_mul_is_commutative(amount, fee_bps);
    lemma_mul_inequality(fee_bps, 10000, amount);
    lemma_mul_is_commutative(10000, amount);
    lemma_div_is_ordered(amount * fee_bps, amount * 10000, 10000);
    lemma_mul_is_commutative(amount, 10000);
    lemma_div_multiples_vanish(amount, 10000);
    lemma_div_pos_is_pos(amount * fee_bps, 10000);
}

/// Splits `amount` into `(net, fee)`, where `fee` is `fee_bps` basis points
/// of `amount`, rounded down, and `net` is the remainder. The two always add
/// back up to `amount`. A rate above 100% is rejected.
pub fn apply_fee(amount: u64, fee_bps: u16) -> (r: Result<(u64, u64), RenewraError>)
    ensures
        r is Ok <==> fee_bps <= 10000,
        r matches Ok((net, fee)) ==> {
            &&& fee == fee_of(amount as int, fee_bps as int)
            &&& net == net_of(amount as int, fee_bps as int)
            &&& net + fee == amount
        },
        r is Err ==> r == Err::<(u64, u64), RenewraError>(RenewraError::ArithmeticOverflow),
{
    if fee_bps > BPS_DENOMINATOR {
        return Err(RenewraError::ArithmeticOverflow);
    }
    proof {
        lemma_fee_bounds(amount as int, fee_bps as int);
        lemma_mul_inequality(
            amount as int,
            u64::MAX as int,
            fee_bps as int,
        );
        lemma_mul_is_commutative(u64::MAX as int, fee_bps as int);
        lemma_mul_inequality(fee_bps as int, 10000, u64::MAX as int);
        lemma_mul_is_commutative(10000, u64::MAX as int);
    }
    let wide: u128 = (amount as u128) * (fee_bps as u128);
    let fee: u64 = (wide / 10000) as u64;
    Ok((amount - fee, fee))
}

} // verus!
