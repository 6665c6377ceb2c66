//! Outcome resolution: the authority reports a death or a victory for an
//! `Active` session.
//!
//! A death is pure bookkeeping: the escrow, held in pool custody since
//! stake time, is forfeited by leaving it there.  A victory pays the
//! escrow back with a bonus, but only when the pool can afford it without
//! touching its minimum reserve.

use vstd::prelude::*;
use crate::errors::ErrorCode;
use crate::math::{bonus_of, compute_payout, payout_of};
use crate::pool::GamePool;
use crate::session::{id_eq, PlayerSession, SessionStatus};
use crate::store::SessionStore;

verus! {

/// The record a death resolution writes in place of `s`.
pub open spec fn dead_session(s: PlayerSession, death_hash: [u8; 32]) -> PlayerSession {
    PlayerSession { status: SessionStatus::Dead, death_hash: Some(death_hash), ..s }
}

/// The record a victory resolution writes in place of `s`.
pub open spec fn victory_session(s: PlayerSession) -> PlayerSession {
    PlayerSession { status: SessionStatus::Victory, ..s }
}

/// What the pool can pay out: its custody balance less the minimum
/// reserve it must keep to stay allocated, never negative.
pub open spec fn available_of(pool_balance: int, min_reserve: int) -> int {
    if pool_balance >= min_reserve {
        pool_balance - min_reserve
    } else {
        0
    }
}

/// Law (no double resolution): the store a committed resolution leaves
/// holds, under the resolved key, a record that is no longer `Active`.
/// Both `record_death` and `claim_victory` commit only on an `Active`
/// record, so by their contracts a second resolution of either kind on
/// that key returns `SessionNotActive` and changes nothing.
pub proof fn lemma_no_double_resolution(
    pre: SessionStore,
    post: SessionStore,
    player: [u8; 32],
    session_id: [u8; 32],
    s: PlayerSession,
    death_hash: [u8; 32],
    died: bool,
)
    requires
        died ==> post@ == pre@.insert((player@, session_id@), dead_session(s, death_hash)),
        !died ==> post@ == pre@.insert((player@, session_id@), victory_session(s)),
    ensures
        post.has((player@, session_id@)),
        post.at((player@, session_id@)).status != SessionStatus::Active,
        post.at((player@, session_id@)).status.is_terminal(),
{
    assert(post@.contains_key((player@, session_id@)));
    if died {
        assert(post@[(player@, session_id@)] == dead_session(s, death_hash));
    } else {
        assert(post@[(player@, session_id@)] == victory_session(s));
    }
}

/// Records a death for the session keyed by (`player`, `session_id`):
/// the session becomes `Dead` with the proof stored, and the pool counts
/// one more death.  No funds move and `total_staked` stays as it is —
/// the forfeited escrow remains counted as staked.  On any rejection
/// nothing changes.
///
/// `caller` is the verified identity of the invoker; only the pool's
/// authority may resolve.
pub fn record_death(
    pool: &mut GamePool,
    sessions: &mut SessionStore,
    caller: [u8; 32],
    player: [u8; 32],
    session_id: [u8; 32],
    death_hash: [u8; 32],
) -> (r: Result<(), ErrorCode>)
    requires
        old(pool).wf(),
        old(sessions).wf(),
    ensures
        final(pool).wf(),
        final(sessions).wf(),
        r is Err ==> *final(pool) == *old(pool) && *final(sessions) == *old(sessions),
        caller@ != old(pool).authority@ ==> r == Err::<(), ErrorCode>(ErrorCode::Unauthorized),
        caller@ == old(pool).authority@ && !old(sessions).has((player@, session_id@)) ==> r
            == Err::<(), ErrorCode>(ErrorCode::SessionNotFound),
        caller@ == old(pool).authority@ && old(sessions).has((player@, session_id@)) && old(
            sessions,
        ).at((player@, session_id@)).status != SessionStatus::Active ==> r == Err::<(), ErrorCode>(
            ErrorCode::SessionNotActive,
        ),
        caller@ == old(pool).authority@ && old(sessions).has((player@, session_id@)) && old(
            sessions,
        ).at((player@, session_id@)).status == SessionStatus::Active && old(pool).total_deaths
            == u64::MAX ==> r == Err::<(), ErrorCode>(ErrorCode::ArithmeticOverflow),
        r is Ok <==> caller@ == old(pool).authority@ && old(sessions).has((player@, session_id@))
            && old(sessions).at((player@, session_id@)).status == SessionStatus::Active && old(
            pool,
        ).total_deaths < u64::MAX,
        r is Ok ==> *final(pool) == (GamePool {
            total_deaths: (old(pool).total_deaths + 1) as u64,
            ..*old(pool)
        }) && final(sessions)@ == old(sessions)@.insert(
            (player@, session_id@),
            dead_session(old(sessions).at((player@, session_id@)), death_hash),
        ),
{
    if !id_eq(&caller, &pool.authority) {
        return Err(ErrorCode::Unauthorized);
    }
    let found = sessions.lookup(&player, &session_id);
    let s = match found {
        Some(s) => s,
        None => {
            return Err(ErrorCode::SessionNotFound);
        },
    };
    if !matches!(s.status, SessionStatus::Active) {
        return Err(ErrorCode::SessionNotActive);
    }
    if pool.total_deaths == u64::MAX {
        return Err(ErrorCode::ArithmeticOverflow);
    }
    let updated = PlayerSession {
        status: SessionStatus::Dead,
        death_hash: Some(death_hash),
        ..s
    };
    sessions.replace(&player, &session_id, updated);
    pool.total_deaths = pool.total_deaths + 1;
    Ok(())
}

/// Pays out a victory for the session keyed by (`player`, `session_id`):
/// the returned payout — the escrow plus its floored bonus share — is
/// what the runtime must move from pool custody to the player, the
/// session becomes `Victory`, the pool counts one more victory, and its
/// staked total gives the escrow back up (saturating at zero).  The
/// payout is granted only when the custody balance less the minimum
/// reserve covers it.  On any rejection nothing changes.
///
/// `authority` and `player` are the two verified identities the payout
/// needs: the pool's authority attesting the outcome, and the session's
/// own player, who is also where the payout goes.
pub fn claim_victory(
    pool: &mut GamePool,
    sessions: &mut SessionStore,
    authority: [u8; 32],
    player: [u8; 32],
    session_id: [u8; 32],
    pool_balance: u64,
    min_reserve: u64,
) -> (r: Result<u64, ErrorCode>)
    requires
        old(pool).wf(),
        old(sessions).wf(),
    ensures
        final(pool).wf(),
        final(sessions).wf(),
        r is Err ==> *final(pool) == *old(pool) && *final(sessions) == *old(sessions),
        authority@ != old(pool).authority@ ==> r == Err::<u64, ErrorCode>(ErrorCode::Unauthorized),
        authority@ == old(pool).authority@ && !old(sessions).has((player@, session_id@)) ==> r
            == Err::<u64, ErrorCode>(ErrorCode::SessionNotFound),
        authority@ == old(pool).authority@ && old(sessions).has((player@, session_id@)) && old(
            sessions,
        ).at((player@, session_id@)).status != SessionStatus::Active ==> r == Err::<u64, ErrorCode>(
            ErrorCode::SessionNotActive,
        ),
        ({
            let s = old(sessions).at((player@, session_id@));
            let payout = payout_of(s.escrow_amount as int, old(pool).victory_bonus_bps as int);
            &&& authority@ == old(pool).authority@ && old(sessions).has((player@, session_id@))
                && s.status == SessionStatus::Active && available_of(
                pool_balance as int,
                min_reserve as int,
            ) < payout ==> r == Err::<u64, ErrorCode>(ErrorCode::InsufficientPoolFunds)
            &&& authority@ == old(pool).authority@ && old(sessions).has((player@, session_id@))
                && s.status == SessionStatus::Active && available_of(
                pool_balance as int,
                min_reserve as int,
            ) >= payout && old(pool).total_victories == u64::MAX ==> r == Err::<u64, ErrorCode>(
                ErrorCode::ArithmeticOverflow,
            )
            &&& r is Ok <==> authority@ == old(pool).authority@ && old(sessions).has(
                (player@, session_id@),
            ) && s.status == SessionStatus::Active && available_of(
                pool_balance as int,
                min_reserve as int,
            ) >= payout && old(pool).total_victories < u64::MAX
            &&& r is Ok ==> ({
                &&& r == Ok::<u64, ErrorCode>(payout as u64)
                &&& payout == s.escrow_amount + bonus_of(
                    s.escrow_amount as int,
                    old(pool).victory_bonus_bps as int,
                )
                &&& *final(pool) == (GamePool {
                    total_victories: (old(pool).total_victories + 1) as u64,
                    total_staked: (if old(pool).total_staked >= s.escrow_amount {
                        (old(pool).total_staked - s.escrow_amount) as u64
                    } else {
                        0u64
                    }),
                    ..*old(pool)
                })
                &&& final(sessions)@ == old(sessions)@.insert(
                    (player@, session_id@),
                    victory_session(s),
                )
            })
        }),
{
    if !id_eq(&authority, &pool.authority) {
        return Err(ErrorCode::Unauthorized);
    }
    let found = sessions.lookup(&player, &session_id);
    let s = match found {
        Some(s) => s,
        None => {
            return Err(ErrorCode::SessionNotFound);
        },
    };
    if !matches!(s.status, SessionStatus::Active) {
        return Err(ErrorCode::SessionNotActive);
    }
    let payout = compute_payout(s.escrow_amount, pool.victory_bonus_bps);
    let available = pool_balance.saturating_sub(min_reserve);
    if available < payout {
        return Err(ErrorCode::InsufficientPoolFunds);
    }
    if pool.total_victories == u64::MAX {
        return Err(ErrorCode::ArithmeticOverflow);
    }
    let updated = PlayerSession { status: SessionStatus::Victory, ..s };
    sessions.replace(&player, &session_id, updated);
    pool.total_victories = pool.total_victories + 1;
    pool.total_staked = pool.total_staked.saturating_sub(s.escrow_amount);
    Ok(payout)
}

} // verus!
