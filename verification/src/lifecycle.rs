//! Session lifecycle: closing a resolved session and releasing its
//! record.

use vstd::prelude::*;
use crate::errors::ErrorCode;
use crate::intake::staked_session;
use crate::resolution::{dead_session, victory_session};
use crate::session::{PlayerSession, SessionStatus};
use crate::store::SessionStore;

verus! {

/// Law (close gating): a freshly staked session is `Active`, so closing
/// it is refused with `SessionStillActive` by `close_session`'s
/// contract; the record either resolution writes is terminal, so the
/// same contract lets the close commit right away and delete it.
pub proof fn lemma_close_gate(
    s: PlayerSession,
    death_hash: [u8; 32],
    player: [u8; 32],
    session_id: [u8; 32],
    escrow: u64,
    now: i64,
)
    ensures
        !staked_session(player, session_id, escrow, now).status.is_terminal(),
        staked_session(player, session_id, escrow, now).status == SessionStatus::Active,
        dead_session(s, death_hash).status.is_terminal(),
        victory_session(s).status.is_terminal(),
{
}

/// Deletes the session keyed by (`player`, `session_id`) once it is
/// terminal, releasing its storage allocation back to the player.  A
/// session that is still `Active` is refused with `SessionStillActive`;
/// no ledger totals are touched either way.
///
/// `player` is the verified identity of the invoker: only the session's
/// own player can address it, since the player is half of the key.
pub fn close_session(
    sessions: &mut SessionStore,
    player: [u8; 32],
    session_id: [u8; 32],
) -> (r: Result<(), ErrorCode>)
    requires
        old(sessions).wf(),
    ensures
        final(sessions).wf(),
        r is Err ==> *final(sessions) == *old(sessions),
        !old(sessions).has((player@, session_id@)) ==> r == Err::<(), ErrorCode>(
            ErrorCode::SessionNotFound,
        ),
        old(sessions).has((player@, session_id@)) && old(sessions).at(
            (player@, session_id@),
        ).status == SessionStatus::Active ==> r == Err::<(), ErrorCode>(
            ErrorCode::SessionStillActive,
        ),
        r is Ok <==> old(sessions).has((player@, session_id@)) && old(sessions).at(
            (player@, session_id@),
        ).status.is_terminal(),
        r is Ok ==> final(sessions)@ == old(sessions)@.remove((player@, session_id@)),
{
    let found = sessions.lookup(&player, &session_id);
    let s = match found {
        Some(s) => s,
        None => {
            return Err(ErrorCode::SessionNotFound);
        },
    };
    if matches!(s.status, SessionStatus::Active) {
        return Err(ErrorCode::SessionStillActive);
    }
    // the key was just looked up, so there is a record to take out
    let _ = sessions.take_out(&player, &session_id);
    Ok(())
}

} // verus!
