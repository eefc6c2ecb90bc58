//! The error taxonomy of the engine.
//!
//! Every failure is an expected, caller-recoverable outcome: a rejected
//! operation changes no state, and the caller may retry after correcting the
//! input or waiting for vesting time to elapse.

use vstd::prelude::*;

verus! {

/// Why a purchase or claim was rejected.
#[derive(Clone, Copy, Debug, PartialEq, Eq, Structural)]
pub enum LaunchpadError {
    /// The contribution is below the round's minimum.
    ContributionTooLow,
    /// The contribution is above the round's maximum.
    ContributionExceeded,
    /// The contribution would push the sale past its hard cap.
    HardCapReached,
    /// The round holds fewer tokens than the contribution buys.
    InsufficientTokens,
    /// The clock reads earlier than the grant's start time.
    VestingNotStarted,
    /// No vested amount is currently releasable.
    NothingToClaim,
    /// Scaling the contribution to token units would overflow.
    ArithmeticOverflow,
    /// The round's price per token is zero.
    DivisionByZero,
}

} // verus!
