use vstd::prelude::*;

use crate::identity::Identity;

verus! {

/// Fund-wide parameters and role keys, set once at fund genesis and mutated
/// only by admin-gated calls. Exactly one admin identity and one oracle
/// identity are authoritative at any time.
#[derive(Clone, Copy, Debug, PartialEq, Eq, Structural)]
pub struct Governance {
    /// Identity allowed to update fund parameters and distribute yield.
    pub admin_key: Identity,
    /// Identity allowed to submit NAV updates.
    pub oracle_signer: Identity,
    /// Management fee in basis points (e.g. 50 = 0.5%).
    pub management_fee_bps: u16,
    /// Mint fee in basis points, applied on subscription.
    pub mint_fee_bps: u16,
    /// Redemption fee in basis points, applied at settlement.
    pub redemption_fee_bps: u16,
    /// Emergency stop: while set, subscriptions and redemption requests are
    /// rejected. Oracle NAV updates stay permitted.
    pub paused: bool,
}

impl Governance {
    /// Fee rates never exceed 100%.
    pub open spec fn wf(self) -> bool {
        &&& self.management_fee_bps <= 10000
        &&& self.mint_fee_bps <= 10000
        &&& self.redemption_fee_bps <= 10000
    }
}

} // verus!
