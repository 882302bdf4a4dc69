use vstd::prelude::*;

use crate::identity::Identity;

verus! {

/// Announced when a user subscribes and shares are minted.
#[derive(Clone, Copy, Debug, PartialEq, Eq, Structural)]
pub struct SubscribeEvent {
    pub user: Identity,
    pub usdc_amount: u64,
    pub tokens_minted: u64,
    pub nav_at_subscription: u64,
    pub timestamp: i64,
}

/// Announced when the oracle updates the NAV.
#[derive(Clone, Copy, Debug, PartialEq, Eq, Structural)]
pub struct NavUpdateEvent {
    pub old_nav: u64,
    pub new_nav: u64,
    pub timestamp: i64,
    pub oracle_signer: Identity,
}

/// Announced when yield is distributed across share holders. Carries the
/// per-share rate only; physical disbursement is the host's job.
#[derive(Clone, Copy, Debug, PartialEq, Eq, Structural)]
pub struct DistributeYieldEvent {
    pub yield_amount: u64,
    pub total_token_supply: u64,
    pub per_token_yield: u128,
    pub timestamp: i64,
}

/// Announced when a user enqueues a redemption request.
#[derive(Clone, Copy, Debug, PartialEq, Eq, Structural)]
pub struct RedeemRequestEvent {
    pub requester: Identity,
    pub token_amount: u64,
    pub nav_at_request: u64,
    pub requested_at: i64,
    pub request_id: u64,
}

/// Announced when the fund is paused or unpaused.
#[derive(Clone, Copy, Debug, PartialEq, Eq, Structural)]
pub struct PauseEvent {
    pub paused: bool,
    pub triggered_by: Identity,
    pub timestamp: i64,
}

} // verus!
