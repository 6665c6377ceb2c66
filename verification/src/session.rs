//! One player's play-through: the session record and its life cycle.

use vstd::prelude::*;

verus! {

broadcast use vstd::array::group_array_axioms;

/// Where a session stands in its life.  `Active` is the initial state;
/// a resolution moves it to `Dead` or `Victory`, both terminal; a closed
/// session is deleted outright.
#[derive(Clone, Copy, Debug, PartialEq, Eq, Structural)]
pub enum SessionStatus {
    Active,
    Dead,
    Victory,
}

impl SessionStatus {
    /// `Dead` and `Victory` are terminal: a session never leaves them
    /// except by deletion.
    pub open spec fn is_terminal(self) -> bool {
        self == SessionStatus::Dead || self == SessionStatus::Victory
    }
}

/// One session record, created when the player stakes and deleted when
/// the player closes it after resolution.
#[derive(Clone, Copy, Debug, PartialEq, Eq)]
pub struct PlayerSession {
    /// The owning player's identity.
    pub player: [u8; 32],
    /// Funds held for this session, fixed at creation.
    pub escrow_amount: u64,
    /// When the session was created (seconds, as the runtime's clock gives them).
    pub started_at: i64,
    /// Where the session stands in its life.
    pub status: SessionStatus,
    /// The caller-chosen 32-byte tag that, with the player, names the session.
    pub session_id: [u8; 32],
    /// Opaque proof of death, present exactly when a death was recorded.
    pub death_hash: Option<[u8; 32]>,
}

impl PlayerSession {
    /// The key under which the record is stored: its player and its tag.
    pub open spec fn key(self) -> (Seq<u8>, Seq<u8>) {
        (self.player@, self.session_id@)
    }

    /// Well-formed: the escrow is positive and no larger than any stake
    /// can leave behind, and a death proof sits only on a dead session.
    pub open spec fn wf(self) -> bool {
        &&& 0 < self.escrow_amount <= 1_000_000_000
        &&& self.death_hash is Some ==> self.status == SessionStatus::Dead
    }
}

/// Byte-for-byte equality of two 32-byte identifiers.
pub fn id_eq(a: &[u8; 32], b: &[u8; 32]) -> (r: bool)
    ensures
        r <==> a@ == b@,
{
    let mut i: usize = 0;
    while i < 32
        invariant
            i <= 32,
            forall|j: int| 0 <= j < i ==> a@[j] == b@[j],
        decreases 32 - i,
    {
        if a[i] != b[i] {
            assert(a@[i as int] != b@[i as int]);
            return false;
        }
        i += 1;
    }
    proof {
        assert(a@ =~= b@);
    }
    true
}

} // verus!
