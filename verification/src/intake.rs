//! Stake intake: validating a stake, splitting it into fee and escrow,
//! and creating the session record.

use vstd::prelude::*;
use crate::errors::ErrorCode;
use crate::math::{compute_fee, escrow_of, fee_of, lemma_stake_split_conserves};
use crate::pool::GamePool;
use crate::session::{PlayerSession, SessionStatus};
use crate::store::SessionStore;

verus! {

/// The smallest stake accepted, in native minor units.
pub const MIN_STAKE: u64 = 10_000_000;

/// The largest stake accepted, in native minor units.
pub const MAX_STAKE: u64 = 1_000_000_000;

/// What a successful stake tells the runtime to move: the fee to the
/// treasury and the escrow into pool custody.  They sum to the staked
/// amount.
#[derive(Clone, Copy, Debug, PartialEq, Eq, Structural)]
pub struct StakeReceipt {
    pub fee: u64,
    pub escrow: u64,
}

/// The record a successful stake creates.
pub open spec fn staked_session(
    player: [u8; 32],
    session_id: [u8; 32],
    escrow: u64,
    now: i64,
) -> PlayerSession {
    PlayerSession {
        player,
        escrow_amount: escrow,
        started_at: now,
        status: SessionStatus::Active,
        session_id,
        death_hash: None,
    }
}

/// Law (idempotent creation): the store a successful stake leaves holds
/// the created record under its key.  The success condition of `stake`'s
/// contract is therefore false for any further stake with the same
/// player and session id: by that same contract the second call returns
/// `SessionAlreadyExists` and leaves pool and store — the first record
/// included — exactly as they stand.
pub proof fn lemma_stake_create_once(
    pre: SessionStore,
    post: SessionStore,
    player: [u8; 32],
    session_id: [u8; 32],
    escrow: u64,
    now: i64,
)
    requires
        post@ == pre@.insert(
            (player@, session_id@),
            staked_session(player, session_id, escrow, now),
        ),
    ensures
        post.has((player@, session_id@)),
        post.at((player@, session_id@)) == staked_session(player, session_id, escrow, now),
{
    assert(post@.contains_key((player@, session_id@)));
    assert(post@[(player@, session_id@)] == staked_session(player, session_id, escrow, now));
}

/// Accepts a player's stake of `amount` under the caller-chosen
/// `session_id`.  On success the fee and the escrow of the returned
/// receipt sum to `amount`, a fresh `Active` session holds the escrow,
/// and the pool's staked total has grown by it.  On any rejection
/// nothing changes.
///
/// `player` is the verified identity of the staking caller; `now` is the
/// runtime clock's reading.
pub fn stake(
    pool: &mut GamePool,
    sessions: &mut SessionStore,
    player: [u8; 32],
    amount: u64,
    session_id: [u8; 32],
    now: i64,
) -> (r: Result<StakeReceipt, ErrorCode>)
    requires
        old(pool).wf(),
        old(sessions).wf(),
    ensures
        final(pool).wf(),
        final(sessions).wf(),
        r is Err ==> *final(pool) == *old(pool) && *final(sessions) == *old(sessions),
        amount < MIN_STAKE ==> r == Err::<StakeReceipt, ErrorCode>(ErrorCode::StakeTooLow),
        amount > MAX_STAKE ==> r == Err::<StakeReceipt, ErrorCode>(ErrorCode::StakeTooHigh),
        MIN_STAKE <= amount <= MAX_STAKE && old(sessions).has((player@, session_id@)) ==> r
            == Err::<StakeReceipt, ErrorCode>(ErrorCode::SessionAlreadyExists),
        MIN_STAKE <= amount <= MAX_STAKE && !old(sessions).has((player@, session_id@)) && old(
            pool,
        ).total_staked + escrow_of(amount as int, old(pool).fee_bps as int) > u64::MAX ==> r
            == Err::<StakeReceipt, ErrorCode>(ErrorCode::ArithmeticOverflow),
        r is Ok <==> MIN_STAKE <= amount <= MAX_STAKE && !old(sessions).has(
            (player@, session_id@),
        ) && old(pool).total_staked + escrow_of(amount as int, old(pool).fee_bps as int)
            <= u64::MAX,
        r is Ok ==> ({
            let fee = fee_of(amount as int, old(pool).fee_bps as int);
            let escrow = escrow_of(amount as int, old(pool).fee_bps as int);
            &&& r == Ok::<StakeReceipt, ErrorCode>(
                (StakeReceipt { fee: fee as u64, escrow: escrow as u64 }),
            )
            &&& *final(pool) == (GamePool {
                total_staked: (old(pool).total_staked + escrow) as u64,
                ..*old(pool)
            })
            &&& final(sessions)@ == old(sessions)@.insert(
                (player@, session_id@),
                staked_session(player, session_id, escrow as u64, now),
            )
        }),
{
    if amount < MIN_STAKE {
        return Err(ErrorCode::StakeTooLow);
    }
    if amount > MAX_STAKE {
        return Err(ErrorCode::StakeTooHigh);
    }
    if sessions.contains(&player, &session_id) {
        return Err(ErrorCode::SessionAlreadyExists);
    }
    proof {
        lemma_stake_split_conserves(amount as int, pool.fee_bps as int);
    }
    let fee = compute_fee(amount, pool.fee_bps);
    let escrow = amount - fee;
    if escrow > u64::MAX - pool.total_staked {
        return Err(ErrorCode::ArithmeticOverflow);
    }
    let created = PlayerSession {
        player,
        escrow_amount: escrow,
        started_at: now,
        status: SessionStatus::Active,
        session_id,
        death_hash: None,
    };
    // the key was just checked absent, so the insert cannot refuse
    let _ = sessions.insert_new(created);
    pool.total_staked = pool.total_staked + escrow;
    Ok(StakeReceipt { fee, escrow })
}

} // verus!
