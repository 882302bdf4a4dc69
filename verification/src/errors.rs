use vstd::prelude::*;

verus! {

/// The error kinds an operation of the fund accounting engine can raise.
/// Every error is terminal for the operation that raised it: the operation
/// returns before any of its state changes take effect.
#[derive(Clone, Copy, Debug, PartialEq, Eq, Structural)]
pub enum RenewraError {
    /// A NAV price is zero on submission, or the oracle was never initialized.
    InvalidNavPrice,
    /// The caller's identity does not match the role an operation requires
    /// (admin, oracle, or request owner).
    Unauthorized,
    /// A quantity is zero, or a computed result such as minted shares rounds
    /// down to zero.
    InvalidAmount,
    /// The caller's share or payment balance is below what the operation
    /// requires.
    InsufficientTokens,
    /// A fixed-point computation would overflow its working precision.
    ArithmeticOverflow,
    /// The fund is paused; subscriptions and redemption requests are
    /// rejected until it is resumed.
    FundPaused,
    /// The redemption queue has reached its capacity bound.
    RedemptionQueueFull,
}

} // verus!
