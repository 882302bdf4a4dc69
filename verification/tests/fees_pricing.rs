use renewra::errors::RenewraError;
use renewra::fees::apply_fee;
use renewra::pricing::shares_for_deposit;

#[test]
fn fee_and_net_add_back_up() {
    // net + fee == amount, fee == floor(amount * fee_bps / 10000)
    for &(amount, fee_bps) in &[
        (0u64, 0u16),
        (1, 1),
        (99, 9999),
        (100_000_000, 25),
        (u64::MAX, 10000),
        (u64::MAX, 1),
        (12345678901234567, 137),
    ] {
        let (net, fee) = apply_fee(amount, fee_bps).unwrap();
        assert_eq!(net + fee, amount);
        let expected_fee = (amount as u128) * (fee_bps as u128) / 10000;
        assert_eq!(fee as u128, expected_fee);
    }
}

#[test]
fn fee_exact_values() {
    assert_eq!(apply_fee(100_000_000, 25), Ok((99_750_000, 250_000)));
    assert_eq!(apply_fee(100_000_000, 0), Ok((100_000_000, 0)));
    assert_eq!(apply_fee(100_000_000, 10000), Ok((0, 100_000_000)));
    assert_eq!(apply_fee(9999, 1), Ok((9999, 0)));
}

#[test]
fn fee_rate_above_hundred_percent_rejected() {
    assert_eq!(apply_fee(1, 10001), Err(RenewraError::ArithmeticOverflow));
    assert_eq!(apply_fee(0, u16::MAX), Err(RenewraError::ArithmeticOverflow));
}

#[test]
fn shares_two_step_rescale_exact() {
    // 99_750_000 net after the 25 bps fee; priced at 1000 cents:
    // floor(floor(99_750_000 * 100 / 1000) * 1_000_000 / 100)
    assert_eq!(shares_for_deposit(100_000_000, 25, 1000), Ok(99_750_000_000));
    // No fee, $1.00 NAV: one share base unit for each 10^-8-dollar slice.
    assert_eq!(shares_for_deposit(1_000_000, 0, 100), Ok(10_000_000_000));
}

#[test]
fn shares_monotone_in_deposit() {
    let mut last = 0u64;
    for deposit in [1_000u64, 2_000, 50_000, 1_000_000, 100_000_000, 100_000_001] {
        let shares = shares_for_deposit(deposit, 25, 967).unwrap();
        assert!(shares >= last);
        last = shares;
    }
}

#[test]
fn shares_antitone_in_nav() {
    let mut last = u64::MAX;
    for nav_cents in [1u64, 50, 100, 967, 1000, 100_000] {
        let shares = shares_for_deposit(100_000_000, 25, nav_cents).unwrap();
        assert!(shares <= last);
        last = shares;
    }
}

#[test]
fn dust_deposit_rejected() {
    // 1 base unit at a $10.00 NAV rounds down to zero shares.
    assert_eq!(shares_for_deposit(1, 0, 1000), Err(RenewraError::InvalidAmount));
}

#[test]
fn share_result_overflow_rejected() {
    // The share count would exceed the 64-bit token amount.
    assert_eq!(
        shares_for_deposit(u64::MAX, 0, 1),
        Err(RenewraError::ArithmeticOverflow)
    );
}
