use renewra::errors::RenewraError;
use renewra::fund::{Fund, InitializeFundParams};
use renewra::identity::Identity;
use renewra::redemption_queue::{RedemptionStatus, MAX_REQUESTS};

const ADMIN: Identity = Identity { id: 1 };
const ORACLE: Identity = Identity { id: 2 };
const ALICE: Identity = Identity { id: 10 };
const BOB: Identity = Identity { id: 11 };

fn genesis(initial_nav: u64, mint_fee_bps: u16) -> Fund {
    let params = InitializeFundParams {
        oracle_signer: ORACLE,
        management_fee_bps: 50,
        mint_fee_bps,
        redemption_fee_bps: 25,
        initial_nav,
    };
    Fund::initialize_fund(params, ADMIN, 0)
}

#[test]
fn genesis_initializes_everything() {
    let f = genesis(1000, 25);
    assert_eq!(f.governance.admin_key, ADMIN);
    assert_eq!(f.governance.oracle_signer, ORACLE);
    assert_eq!(f.governance.mint_fee_bps, 25);
    assert!(!f.governance.paused);
    assert_eq!(f.nav_oracle.latest_nav, 1000);
    assert_eq!(f.nav_oracle.previous_nav, 1000);
    assert_eq!(f.redemption_queue.len(), 0);
    assert_eq!(f.fund_state.total_deposits, 0);
    assert_eq!(f.fund_state.total_yield_distributed, 0);
}

#[test]
fn subscribe_hundred_usdc_at_ten_dollar_nav() {
    // Genesis at $10.00 with a 25 bps mint fee; subscribe 100 USDC
    // (6-decimal base units): fee 250_000, net 99_750_000, and the two-step
    // rescale prices the net amount into share base units.
    let mut f = genesis(1000, 25);
    let ev = f.subscribe(100_000_000, ALICE, 5).unwrap();
    assert_eq!(ev.user, ALICE);
    assert_eq!(ev.usdc_amount, 100_000_000);
    assert_eq!(ev.tokens_minted, 99_750_000_000);
    assert_eq!(ev.nav_at_subscription, 1000);
    assert_eq!(ev.timestamp, 5);
    assert_eq!(f.fund_state.total_deposits, 100_000_000);
}

#[test]
fn subscribe_zero_fails_and_mutates_nothing() {
    let mut f = genesis(1000, 25);
    f.request_redeem(5, ALICE, 10, 1).unwrap();
    let r = f.subscribe(0, ALICE, 2);
    assert_eq!(r, Err(RenewraError::InvalidAmount));
    assert_eq!(f.nav_oracle.latest_nav, 1000);
    assert_eq!(f.nav_oracle.previous_nav, 1000);
    assert_eq!(f.redemption_queue.len(), 1);
    assert_eq!(f.fund_state.total_deposits, 0);
}

#[test]
fn subscribe_dust_rejected() {
    let mut f = genesis(1000, 0);
    assert_eq!(f.subscribe(1, ALICE, 1), Err(RenewraError::InvalidAmount));
    assert_eq!(f.fund_state.total_deposits, 0);
}

#[test]
fn subscribe_share_overflow_rejected() {
    let mut f = genesis(1, 0);
    assert_eq!(
        f.subscribe(u64::MAX, ALICE, 1),
        Err(RenewraError::ArithmeticOverflow)
    );
    assert_eq!(f.fund_state.total_deposits, 0);
}

#[test]
fn submit_nav_updates_latest_and_previous() {
    let mut f = genesis(1000, 25);
    let ev = f.submit_nav(967, ORACLE, 100).unwrap();
    assert_eq!(ev.old_nav, 1000);
    assert_eq!(ev.new_nav, 967);
    assert_eq!(ev.timestamp, 100);
    assert_eq!(ev.oracle_signer, ORACLE);
    assert_eq!(f.nav_oracle.latest_nav, 967);
    assert_eq!(f.nav_oracle.previous_nav, 1000);
    assert_eq!(f.nav_oracle.timestamp, 100);
    let ev2 = f.submit_nav(1042, ORACLE, 200).unwrap();
    assert_eq!(ev2.old_nav, 967);
    assert_eq!(f.nav_oracle.previous_nav, 967);
    assert_eq!(f.nav_oracle.latest_nav, 1042);
}

#[test]
fn submit_nav_zero_rejected_and_unchanged() {
    let mut f = genesis(1000, 25);
    f.submit_nav(967, ORACLE, 100).unwrap();
    let r = f.submit_nav(0, ORACLE, 200);
    assert_eq!(r, Err(RenewraError::InvalidNavPrice));
    assert_eq!(f.nav_oracle.latest_nav, 967);
    assert_eq!(f.nav_oracle.previous_nav, 1000);
    assert_eq!(f.nav_oracle.timestamp, 100);
}

#[test]
fn submit_nav_non_oracle_rejected() {
    let mut f = genesis(1000, 25);
    for nav in [1u64, 967, u64::MAX] {
        assert_eq!(f.submit_nav(nav, ALICE, 1), Err(RenewraError::Unauthorized));
        assert_eq!(f.submit_nav(nav, ADMIN, 1), Err(RenewraError::Unauthorized));
    }
    assert_eq!(f.nav_oracle.latest_nav, 1000);
}

#[test]
fn request_ids_are_sequential_whatever_the_contents() {
    let mut f = genesis(1000, 25);
    for n in 1..=20u64 {
        let who = if n % 2 == 0 { ALICE } else { BOB };
        let ev = f.request_redeem(n * 7, who, u64::MAX, n as i64).unwrap();
        assert_eq!(ev.request_id, n);
        assert_eq!(ev.requester, who);
        assert_eq!(ev.token_amount, n * 7);
        assert_eq!(ev.nav_at_request, 1000);
        assert_eq!(ev.requested_at, n as i64);
    }
    let reqs = &f.redemption_queue.requests;
    assert_eq!(reqs.len(), 20);
    for (i, req) in reqs.iter().enumerate() {
        assert_eq!(req.request_id, i as u64 + 1);
        assert_eq!(req.status, RedemptionStatus::Pending);
    }
}

#[test]
fn hundred_and_first_request_rejected_queue_stays_full() {
    let mut f = genesis(1000, 25);
    for n in 1..=MAX_REQUESTS as u64 {
        let ev = f.request_redeem(100, ALICE, u64::MAX, 0).unwrap();
        assert_eq!(ev.request_id, n);
    }
    assert_eq!(f.redemption_queue.len(), 100);
    let r = f.request_redeem(100, BOB, u64::MAX, 0);
    assert_eq!(r, Err(RenewraError::RedemptionQueueFull));
    assert_eq!(f.redemption_queue.len(), 100);
}

#[test]
fn request_redeem_needs_balance_and_amount() {
    let mut f = genesis(1000, 25);
    assert_eq!(
        f.request_redeem(0, ALICE, 100, 1),
        Err(RenewraError::InvalidAmount)
    );
    assert_eq!(
        f.request_redeem(101, ALICE, 100, 1),
        Err(RenewraError::InsufficientTokens)
    );
    assert_eq!(f.redemption_queue.len(), 0);
    // A balance exactly equal to the amount is enough.
    assert!(f.request_redeem(100, ALICE, 100, 1).is_ok());
}

#[test]
fn distribute_yield_per_share_rate() {
    // floor(1_000_000 * 10^6 / 500_000) micro-units per share.
    let mut f = genesis(1000, 25);
    let ev = f
        .distribute_yield(1_000_000, 500_000, u64::MAX, ADMIN, 3)
        .unwrap();
    assert_eq!(ev.per_token_yield, 2_000_000);
    assert_eq!(ev.yield_amount, 1_000_000);
    assert_eq!(ev.total_token_supply, 500_000);
    assert_eq!(ev.timestamp, 3);
    assert_eq!(f.fund_state.total_yield_distributed, 1_000_000);
}

#[test]
fn distribute_yield_checks() {
    let mut f = genesis(1000, 25);
    assert_eq!(
        f.distribute_yield(1, 1, u64::MAX, ALICE, 0),
        Err(RenewraError::Unauthorized)
    );
    assert_eq!(
        f.distribute_yield(0, 1, u64::MAX, ADMIN, 0),
        Err(RenewraError::InvalidAmount)
    );
    assert_eq!(
        f.distribute_yield(1, 0, u64::MAX, ADMIN, 0),
        Err(RenewraError::InvalidAmount)
    );
    assert_eq!(
        f.distribute_yield(100, 1, 99, ADMIN, 0),
        Err(RenewraError::InsufficientTokens)
    );
    assert_eq!(f.fund_state.total_yield_distributed, 0);
}

#[test]
fn paused_fund_rejects_subscribe_and_redeem_but_not_nav() {
    let mut f = genesis(1000, 25);
    let ev = f.set_paused(true, ADMIN, 1).unwrap();
    assert!(ev.paused);
    assert_eq!(ev.triggered_by, ADMIN);
    assert_eq!(
        f.subscribe(100_000_000, ALICE, 2),
        Err(RenewraError::FundPaused)
    );
    assert_eq!(
        f.request_redeem(100, ALICE, u64::MAX, 2),
        Err(RenewraError::FundPaused)
    );
    // Oracle updates are not gated by the pause.
    assert!(f.submit_nav(967, ORACLE, 3).is_ok());
    assert_eq!(f.nav_oracle.latest_nav, 967);
    // Resuming lets both operations through again.
    f.set_paused(false, ADMIN, 4).unwrap();
    assert!(f.subscribe(100_000_000, ALICE, 5).is_ok());
    assert!(f.request_redeem(100, ALICE, u64::MAX, 5).is_ok());
}

#[test]
fn set_paused_is_admin_gated() {
    let mut f = genesis(1000, 25);
    assert_eq!(f.set_paused(true, ALICE, 1), Err(RenewraError::Unauthorized));
    assert_eq!(f.set_paused(true, ORACLE, 1), Err(RenewraError::Unauthorized));
    assert!(!f.governance.paused);
}

#[test]
fn status_transition_order() {
    let pending = RedemptionStatus::Pending;
    let approved = RedemptionStatus::Approved;
    let settled = RedemptionStatus::Settled;
    assert!(pending.can_transition_to(approved));
    assert!(approved.can_transition_to(settled));
    assert!(!pending.can_transition_to(settled));
    assert!(!approved.can_transition_to(pending));
    assert!(!settled.can_transition_to(pending));
    assert!(!settled.can_transition_to(approved));
    assert!(!pending.can_transition_to(pending));
}

#[test]
fn totals_accumulate_across_operations() {
    let mut f = genesis(100, 0);
    f.subscribe(1_000_000, ALICE, 1).unwrap();
    f.subscribe(2_500_000, BOB, 2).unwrap();
    assert_eq!(f.fund_state.total_deposits, 3_500_000);
    f.distribute_yield(400, 1_000, u64::MAX, ADMIN, 3).unwrap();
    f.distribute_yield(600, 1_000, u64::MAX, ADMIN, 4).unwrap();
    assert_eq!(f.fund_state.total_yield_distributed, 1_000);
}
