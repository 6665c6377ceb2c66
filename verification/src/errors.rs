//! The reasons for which an operation is rejected.
//!
//! Every operation either commits all of its effects or returns one of
//! these and changes nothing.

use vstd::prelude::*;

verus! {

/// Why an operation was rejected.  Each operation's contract says exactly
/// which of these it returns on which inputs.
#[derive(Clone, Copy, Debug, PartialEq, Eq, Structural)]
pub enum ErrorCode {
    /// Pool creation with a fee rate above 10% (1000 basis points).
    FeeTooHigh,
    /// Pool creation with a victory bonus above 100% (10000 basis points).
    BonusTooHigh,
    /// A stake below the minimum of 10_000_000 minor units.
    StakeTooLow,
    /// A stake above the maximum of 1_000_000_000 minor units.
    StakeTooHigh,
    /// Death or victory reported for a session that is not `Active`.
    SessionNotActive,
    /// Close attempted on a session that is still `Active`.
    SessionStillActive,
    /// A victory payout that would breach the pool's minimum reserve.
    InsufficientPoolFunds,
    /// A second stake with the same (player, session id) pair.
    SessionAlreadyExists,
    /// The (player, session id) pair names no stored session.
    SessionNotFound,
    /// The caller is not the identity the operation is reserved to.
    Unauthorized,
    /// A running total would overflow its 64-bit counter.
    ArithmeticOverflow,
}

} // verus!
