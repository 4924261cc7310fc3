//! Error kinds reported by the library.

use vstd::prelude::*;

verus! {

/// Why an operation was refused.
#[derive(Clone, Copy, Debug, PartialEq, Eq, Structural)]
pub enum HypeBondError {
    /// The program has already been initialized.
    AlreadyInitialized,
    /// The program has not been initialized.
    NotInitialized,
    /// The provided authority is not authorized.
    NotAuthorized,
    /// A mathematical overflow or underflow occurred.
    MathOverflow,
    /// The trade size is outside the admissible bounds.
    InvalidTradeSize,
    /// A buy would cost more SOL than the buyer allows.
    TooMuchSolRequired,
    /// The bonding curve is complete and accepts no more trades.
    BondingCurveComplete,
    /// A sell would return less SOL than the seller accepts.
    TooLittleSolReceived,
    /// The percentage allocations are invalid.
    InvalidPercentages,
    /// The milestone count or milestone number is invalid.
    InvalidMilestoneCount,
}

} // verus!
