use vstd::prelude::*;

verus! {

/// The latest externally reported Net Asset Value per share, in integer
/// cents, together with the value it replaced and when. Mutated only by the
/// oracle identity named in governance.
#[derive(Clone, Copy, Debug, PartialEq, Eq, Structural)]
pub struct NavOracle {
    /// Current NAV per share in cents (e.g. 967 = $9.67).
    pub latest_nav: u64,
    /// The value `latest_nav` held immediately before the most recent update.
    pub previous_nav: u64,
    /// Unix timestamp of the most recent update.
    pub timestamp: i64,
}

impl NavOracle {
    /// After genesis the NAV is always positive.
    pub open spec fn wf(self) -> bool {
        self.latest_nav > 0
    }
}

} // verus!
