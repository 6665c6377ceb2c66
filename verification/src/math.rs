//! Fee and payout arithmetic.
//!
//! Rates are in basis points: one basis point is a hundredth of a percent,
//! so 10000 basis points are the whole.  Shares are rounded down.

use vstd::prelude::*;

verus! {

/// The whole, in basis points.
pub const BPS_DENOMINATOR: u64 = 10000;

/// The floored basis-point share of `amount` taken as the stake fee.
pub open spec fn fee_of(amount: int, fee_bps: int) -> int {
    amount * fee_bps / 10000
}

/// What is left of a stake once the fee is taken.
pub open spec fn escrow_of(amount: int, fee_bps: int) -> int {
    amount - fee_of(amount, fee_bps)
}

/// The floored basis-point share of the escrow paid on top of it on victory.
pub open spec fn bonus_of(escrow: int, bonus_bps: int) -> int {
    escrow * bonus_bps / 10000
}

/// The whole victory payout: the escrow back, plus the bonus.
pub open spec fn payout_of(escrow: int, bonus_bps: int) -> int {
    escrow + bonus_of(escrow, bonus_bps)
}

/// The fee share never exceeds a tenth of the amount, since the fee rate
/// is capped at 1000 basis points.
pub proof fn lemma_fee_bounds(amount: int, fee_bps: int)
    requires
        0 <= amount,
        0 <= fee_bps <= 1000,
    ensures
        0 <= fee_of(amount, fee_bps) <= amount / 10,
{
    assert(0 <= amount * fee_bps / 10000 && amount * fee_bps / 10000 <= amount / 10)
        by (nonlinear_arith)
        requires
            0 <= amount,
            0 <= fee_bps <= 1000,
    {
        assert(amount * fee_bps <= amount * 1000);
    }
}

/// Law: splitting a stake loses nothing.  The fee is the floored
/// basis-point share of the amount, fee and escrow sum back to the amount,
/// and within the accepted stake range the escrow is at least nine tenths
/// of the minimum stake, so it is never zero.
pub proof fn lemma_stake_split_conserves(amount: int, fee_bps: int)
    requires
        10_000_000 <= amount <= 1_000_000_000,
        0 <= fee_bps <= 1000,
    ensures
        fee_of(amount, fee_bps) + escrow_of(amount, fee_bps) == amount,
        fee_of(amount, fee_bps) == amount * fee_bps / 10000,
        0 <= fee_of(amount, fee_bps) <= amount / 10,
        9_000_000 <= escrow_of(amount, fee_bps) <= amount,
{
    lemma_fee_bounds(amount, fee_bps);
    assert(amount / 10 <= amount - 9_000_000) by (nonlinear_arith)
        requires
            10_000_000 <= amount,
    ;
}

/// Law: the victory payout is the escrow plus the floored basis-point
/// bonus share, and it never falls below the escrow; since the bonus rate
/// is capped at 10000 basis points it never exceeds twice the escrow.
pub proof fn lemma_payout_dominates_escrow(escrow: int, bonus_bps: int)
    requires
        0 <= escrow,
        0 <= bonus_bps <= 10000,
    ensures
        payout_of(escrow, bonus_bps) == escrow + escrow * bonus_bps / 10000,
        0 <= bonus_of(escrow, bonus_bps) <= escrow,
        escrow <= payout_of(escrow, bonus_bps) <= 2 * escrow,
{
    assert(0 <= escrow * bonus_bps / 10000 && escrow * bonus_bps / 10000 <= escrow)
        by (nonlinear_arith)
        requires
            0 <= escrow,
            0 <= bonus_bps <= 10000,
    {
        assert(escrow * bonus_bps <= escrow * 10000);
    }
}

/// The fee owed on a stake: the floored `fee_bps` share of `amount`.
pub fn compute_fee(amount: u64, fee_bps: u16) -> (fee: u64)
    requires
        amount <= 1_000_000_000,
        fee_bps <= 1000,
    ensures
        fee == fee_of(amount as int, fee_bps as int),
        fee <= amount / 10,
{
    proof {
        lemma_fee_bounds(amount as int, fee_bps as int);
        assert(amount * fee_bps <= 1_000_000_000 * 1000) by (nonlinear_arith)
            requires
                amount <= 1_000_000_000 && fee_bps <= 1000,
        ;
    }
    let scaled: u64 = amount * (fee_bps as u64);
    scaled / BPS_DENOMINATOR
}

/// The bonus owed on a victory: the floored `bonus_bps` share of `escrow`.
pub fn compute_bonus(escrow: u64, bonus_bps: u16) -> (bonus: u64)
    requires
        escrow <= 1_000_000_000,
        bonus_bps <= 10000,
    ensures
        bonus == bonus_of(escrow as int, bonus_bps as int),
        bonus <= escrow,
{
    proof {
        lemma_payout_dominates_escrow(escrow as int, bonus_bps as int);
        assert(escrow * bonus_bps <= 1_000_000_000 * 10000) by (nonlinear_arith)
            requires
                escrow <= 1_000_000_000 && bonus_bps <= 10000,
        ;
    }
    let scaled: u64 = escrow * (bonus_bps as u64);
    scaled / BPS_DENOMINATOR
}

/// The whole victory payout for an escrow at the given bonus rate.
pub fn compute_payout(escrow: u64, bonus_bps: u16) -> (payout: u64)
    requires
        escrow <= 1_000_000_000,
        bonus_bps <= 10000,
    ensures
        payout == payout_of(escrow as int, bonus_bps as int),
        escrow <= payout <= 2 * escrow,
{
    let bonus = compute_bonus(escrow, bonus_bps);
    escrow + bonus
}

} // verus!
