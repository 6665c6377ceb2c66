//! The singleton pool record: configuration and running totals.

use vstd::prelude::*;
use crate::errors::ErrorCode;

verus! {

/// The pool's configuration and running totals.  One instance exists;
/// the storage layer's create-once semantics keep it a singleton, and
/// the rates are immutable after creation.
#[derive(Clone, Copy, Debug, PartialEq, Eq)]
pub struct GamePool {
    /// The identity permitted to resolve sessions.
    pub authority: [u8; 32],
    /// The identity that receives stake fees.
    pub treasury: [u8; 32],
    /// Stake fee rate in basis points, at most 1000 (10%).
    pub fee_bps: u16,
    /// Victory bonus rate in basis points, at most 10000 (100%).
    pub victory_bonus_bps: u16,
    /// Sum of escrows taken in, reduced only by victory payouts.
    pub total_staked: u64,
    /// How many deaths have been recorded.
    pub total_deaths: u64,
    /// How many victories have been claimed.
    pub total_victories: u64,
}

impl GamePool {
    /// Well-formed: both rates are within their caps.  Checked at
    /// creation; every operation preserves it since no operation touches
    /// the rates.
    pub open spec fn wf(self) -> bool {
        self.fee_bps <= 1000 && self.victory_bonus_bps <= 10000
    }
}

/// Builds the pool record, with both rates validated and every counter
/// zeroed.  Keeping it the one instance is the storage layer's
/// create-once business; this factory only decides whether the record
/// may exist at all.
pub fn initialize(
    authority: [u8; 32],
    treasury: [u8; 32],
    fee_bps: u16,
    victory_bonus_bps: u16,
) -> (r: Result<GamePool, ErrorCode>)
    ensures
        fee_bps > 1000 ==> r == Err::<GamePool, ErrorCode>(ErrorCode::FeeTooHigh),
        fee_bps <= 1000 && victory_bonus_bps > 10000 ==> r == Err::<GamePool, ErrorCode>(
            ErrorCode::BonusTooHigh,
        ),
        fee_bps <= 1000 && victory_bonus_bps <= 10000 ==> r == Ok::<GamePool, ErrorCode>(
            (GamePool {
                authority,
                treasury,
                fee_bps,
                victory_bonus_bps,
                total_staked: 0,
                total_deaths: 0,
                total_victories: 0,
            }),
        ),
        r is Ok ==> r->Ok_0.wf(),
{
    if fee_bps > 1000 {
        return Err(ErrorCode::FeeTooHigh);
    }
    if victory_bonus_bps > 10000 {
        return Err(ErrorCode::BonusTooHigh);
    }
    Ok(
        GamePool {
            authority,
            treasury,
            fee_bps,
            victory_bonus_bps,
            total_staked: 0,
            total_deaths: 0,
            total_victories: 0,
        },
    )
}

} // verus!
