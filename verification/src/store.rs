//! The session records, kept as a content-addressed store keyed by
//! (player, session id).
//!
//! The store's insert-if-absent primitive is what makes a second stake
//! with the same key fail outright, so duplicate stakes are refused for
//! free.  Its view is the map from keys to records; every operation's
//! contract says what it does to that map.

use vstd::prelude::*;
use crate::errors::ErrorCode;
use crate::session::{id_eq, PlayerSession};

verus! {

/// What names a session: the player's identity and the 32-byte tag.
pub type SessionKey = (Seq<u8>, Seq<u8>);

/// The session records.  Linear under the hood; a map from keys to
/// records to every caller.
pub struct SessionStore {
    pub sessions: Vec<PlayerSession>,
}

impl SessionStore {
    /// Well-formed: no two records share a key, and every record is
    /// itself well-formed.
    pub open spec fn wf(self) -> bool {
        &&& forall|i: int, j: int|
            #![trigger self.sessions@[i].key(), self.sessions@[j].key()]
            0 <= i < j < self.sessions@.len() ==> self.sessions@[i].key()
                != self.sessions@[j].key()
        &&& forall|i: int| 0 <= i < self.sessions@.len() ==> (#[trigger] self.sessions@[i]).wf()
    }

    /// Whether some record carries this key.
    pub open spec fn has(self, key: SessionKey) -> bool {
        exists|i: int| 0 <= i < self.sessions@.len() && (#[trigger] self.sessions@[i]).key() == key
    }

    /// The position of the record with this key, where one exists.
    pub open spec fn index_of(self, key: SessionKey) -> int {
        choose|i: int| 0 <= i < self.sessions@.len() && (#[trigger] self.sessions@[i]).key() == key
    }

    /// The record with this key, where one exists.
    pub open spec fn at(self, key: SessionKey) -> PlayerSession {
        self.sessions@[self.index_of(key)]
    }

    /// In a well-formed store, a record's position pins everything down:
    /// the key is present, `index_of` names that position and `at` that
    /// record.
    pub proof fn lemma_at_position(self, key: SessionKey, i: int)
        requires
            self.wf(),
            0 <= i < self.sessions@.len(),
            self.sessions@[i].key() == key,
        ensures
            self.has(key),
            self.index_of(key) == i,
            self.at(key) == self.sessions@[i],
            self.at(key).wf(),
    {
        assert(self.has(key));
        let j = self.index_of(key);
        assert(0 <= j < self.sessions@.len() && self.sessions@[j].key() == key);
        if i != j {
            assert(self.sessions@[i].key() != self.sessions@[j].key());
        }
    }

    /// An empty store.
    pub fn new() -> (r: SessionStore)
        ensures
            r.wf(),
            r@ == Map::<SessionKey, PlayerSession>::empty(),
    {
        let r = SessionStore { sessions: Vec::new() };
        proof {
            assert(r@ =~= Map::<SessionKey, PlayerSession>::empty());
        }
        r
    }

    /// The position of the record with this key, if any.
    fn find(&self, player: &[u8; 32], session_id: &[u8; 32]) -> (r: Option<usize>)
        ensures
            match r {
                Some(i) => i < self.sessions@.len() && self.sessions@[i as int].key() == (
                    player@,
                    session_id@,
                ),
                None => !self.has((player@, session_id@)),
            },
    {
        let n = self.sessions.len();
        let mut i: usize = 0;
        while i < n
            invariant
                n == self.sessions@.len(),
                i <= n,
                forall|j: int|
                    0 <= j < i ==> (#[trigger] self.sessions@[j]).key() != (player@, session_id@),
            decreases n - i,
        {
            let s = &self.sessions[i];
            if id_eq(&s.player, player) && id_eq(&s.session_id, session_id) {
                return Some(i);
            }
            i += 1;
        }
        None
    }

    /// Whether a session with this key is stored.
    pub fn contains(&self, player: &[u8; 32], session_id: &[u8; 32]) -> (r: bool)
        requires
            self.wf(),
        ensures
            r == self.has((player@, session_id@)),
    {
        match self.find(player, session_id) {
            Some(i) => {
                proof {
                    self.lemma_at_position((player@, session_id@), i as int);
                }
                true
            },
            None => false,
        }
    }

    /// The session with this key, if any.
    pub fn lookup(&self, player: &[u8; 32], session_id: &[u8; 32]) -> (r: Option<PlayerSession>)
        requires
            self.wf(),
        ensures
            match r {
                Some(s) => self.has((player@, session_id@)) && s == self.at((player@, session_id@))
                    && s.wf(),
                None => !self.has((player@, session_id@)),
            },
    {
        match self.find(player, session_id) {
            Some(i) => {
                proof {
                    self.lemma_at_position((player@, session_id@), i as int);
                }
                Some(self.sessions[i])
            },
            None => None,
        }
    }

    /// Insert-if-absent: stores the record unless its key is taken, and
    /// refuses without touching anything where it is.
    pub fn insert_new(&mut self, s: PlayerSession) -> (r: Result<(), ErrorCode>)
        requires
            old(self).wf(),
            s.wf(),
        ensures
            final(self).wf(),
            old(self).has(s.key()) ==> r == Err::<(), ErrorCode>(ErrorCode::SessionAlreadyExists)
                && *final(self) == *old(self),
            !old(self).has(s.key()) ==> r == Ok::<(), ErrorCode>(()) && final(self)@ == old(
                self,
            )@.insert(s.key(), s),
    {
        match self.find(&s.player, &s.session_id) {
            Some(i) => {
                proof {
                    self.lemma_at_position(s.key(), i as int);
                }
                Err(ErrorCode::SessionAlreadyExists)
            },
            None => {
                let ghost pre = *self;
                self.sessions.push(s);
                proof {
                    lemma_push_view(pre, *self, s);
                }
                Ok(())
            },
        }
    }

    /// Replaces the record under a key that is present with one carrying
    /// the same key.
    pub fn replace(&mut self, player: &[u8; 32], session_id: &[u8; 32], s: PlayerSession)
        requires
            old(self).wf(),
            old(self).has((player@, session_id@)),
            s.wf(),
            s.key() == (player@, session_id@),
        ensures
            final(self).wf(),
            final(self)@ == old(self)@.insert(s.key(), s),
    {
        let i = match self.find(player, session_id) {
            Some(i) => i,
            None => {
                proof {
                    assert(false);
                }
                0
            },
        };
        let ghost pre = *self;
        self.sessions[i] = s;
        proof {
            lemma_update_view(pre, *self, i as int, s);
        }
    }

    /// Removes and returns the record under this key, if any.
    pub fn take_out(&mut self, player: &[u8; 32], session_id: &[u8; 32]) -> (r: Option<
        PlayerSession,
    >)
        requires
            old(self).wf(),
        ensures
            final(self).wf(),
            old(self).has((player@, session_id@)) ==> r == Some(
                old(self).at((player@, session_id@)),
            ) && final(self)@ == old(self)@.remove((player@, session_id@)),
            !old(self).has((player@, session_id@)) ==> r == None::<PlayerSession> && *final(self)
                == *old(self),
    {
        match self.find(player, session_id) {
            Some(i) => {
                proof {
                    self.lemma_at_position((player@, session_id@), i as int);
                }
                let ghost pre = *self;
                let s = self.sessions.remove(i);
                proof {
                    lemma_remove_view(pre, *self, i as int);
                }
                Some(s)
            },
            None => None,
        }
    }
}

impl View for SessionStore {
    type V = Map<SessionKey, PlayerSession>;

    open spec fn view(&self) -> Map<SessionKey, PlayerSession> {
        Map::new(|k: SessionKey| self.has(k), |k: SessionKey| self.at(k))
    }
}

/// What pushing a record with a fresh key does to the store's map.
proof fn lemma_push_view(pre: SessionStore, post: SessionStore, s: PlayerSession)
    requires
        pre.wf(),
        s.wf(),
        !pre.has(s.key()),
        post.sessions@ == pre.sessions@.push(s),
    ensures
        post.wf(),
        post@ == pre@.insert(s.key(), s),
{
    let n = pre.sessions@.len();
    assert forall|i: int| 0 <= i < n implies pre.sessions@[i].key() != s.key() by {
        if pre.sessions@[i].key() == s.key() {
            assert(pre.has(s.key()));
        }
    }
    assert(post.wf());
    assert forall|k: SessionKey| post.has(k) == pre@.insert(s.key(), s).contains_key(k) by {
        if k == s.key() {
            post.lemma_at_position(k, n as int);
        } else {
            if post.has(k) {
                let i = post.index_of(k);
                assert(0 <= i < post.sessions@.len() && post.sessions@[i].key() == k);
                assert(i < n);
                assert(pre.sessions@[i].key() == k);
                assert(pre.has(k));
            }
            if pre.has(k) {
                let i = pre.index_of(k);
                assert(0 <= i < n && pre.sessions@[i].key() == k);
                assert(post.sessions@[i].key() == k);
                assert(post.has(k));
            }
        }
    }
    assert forall|k: SessionKey| post.has(k) implies post.at(k) == pre@.insert(s.key(), s)[k] by {
        if k == s.key() {
            post.lemma_at_position(k, n as int);
        } else {
            let i = pre.index_of(k);
            assert(0 <= i < n && pre.sessions@[i].key() == k);
            pre.lemma_at_position(k, i);
            post.lemma_at_position(k, i);
        }
    }
    assert(post@ =~= pre@.insert(s.key(), s));
}

/// What overwriting the record at one position with one of the same key
/// does to the store's map.
proof fn lemma_update_view(pre: SessionStore, post: SessionStore, i: int, s: PlayerSession)
    requires
        pre.wf(),
        s.wf(),
        0 <= i < pre.sessions@.len(),
        s.key() == pre.sessions@[i].key(),
        post.sessions@ == pre.sessions@.update(i, s),
    ensures
        post.wf(),
        post@ == pre@.insert(s.key(), s),
{
    let n = pre.sessions@.len();
    assert forall|a: int, b: int|
        #![trigger post.sessions@[a].key(), post.sessions@[b].key()]
        0 <= a < b < n implies post.sessions@[a].key() != post.sessions@[b].key() by {
        assert(pre.sessions@[a].key() != pre.sessions@[b].key());
    }
    assert(post.wf());
    assert forall|k: SessionKey| post.has(k) == pre@.insert(s.key(), s).contains_key(k) by {
        if k == s.key() {
            post.lemma_at_position(k, i);
            pre.lemma_at_position(k, i);
        } else {
            if post.has(k) {
                let a = post.index_of(k);
                assert(0 <= a < n && post.sessions@[a].key() == k);
                assert(a != i);
                assert(pre.sessions@[a].key() == k);
                assert(pre.has(k));
            }
            if pre.has(k) {
                let a = pre.index_of(k);
                assert(0 <= a < n && pre.sessions@[a].key() == k);
                assert(a != i);
                assert(post.sessions@[a].key() == k);
                assert(post.has(k));
            }
        }
    }
    assert forall|k: SessionKey| post.has(k) implies post.at(k) == pre@.insert(s.key(), s)[k] by {
        if k == s.key() {
            post.lemma_at_position(k, i);
        } else {
            let a = pre.index_of(k);
            assert(0 <= a < n && pre.sessions@[a].key() == k);
            assert(a != i);
            pre.lemma_at_position(k, a);
            post.lemma_at_position(k, a);
        }
    }
    assert(post@ =~= pre@.insert(s.key(), s));
}

/// What removing the record at one position does to the store's map.
proof fn lemma_remove_view(pre: SessionStore, post: SessionStore, i: int)
    requires
        pre.wf(),
        0 <= i < pre.sessions@.len(),
        post.sessions@ == pre.sessions@.remove(i),
    ensures
        post.wf(),
        post@ == pre@.remove(pre.sessions@[i].key()),
{
    let n = pre.sessions@.len();
    let key = pre.sessions@[i].key();
    assert forall|a: int, b: int|
        #![trigger post.sessions@[a].key(), post.sessions@[b].key()]
        0 <= a < b < n - 1 implies post.sessions@[a].key() != post.sessions@[b].key() by {
        let pa: int = if a < i { a } else { a + 1 };
        let pb: int = if b < i { b } else { b + 1 };
        assert(post.sessions@[a] == pre.sessions@[pa]);
        assert(post.sessions@[b] == pre.sessions@[pb]);
        assert(pre.sessions@[pa].key() != pre.sessions@[pb].key());
    }
    assert forall|a: int| 0 <= a < n - 1 implies (#[trigger] post.sessions@[a]).wf() by {
        let pa: int = if a < i { a } else { a + 1 };
        assert(post.sessions@[a] == pre.sessions@[pa]);
    }
    assert(post.wf());
    assert forall|k: SessionKey| post.has(k) == pre@.remove(key).contains_key(k) by {
        if post.has(k) {
            let a = post.index_of(k);
            assert(0 <= a < n - 1 && post.sessions@[a].key() == k);
            let pa: int = if a < i { a } else { a + 1 };
            assert(post.sessions@[a] == pre.sessions@[pa]);
            assert(pre.has(k));
            if k == key {
                assert(pre.sessions@[pa].key() == pre.sessions@[i].key());
                assert(pa != i);
                if pa < i {
                    assert(pre.sessions@[pa].key() != pre.sessions@[i].key());
                } else {
                    assert(pre.sessions@[i].key() != pre.sessions@[pa].key());
                }
            }
        }
        if pre.has(k) && k != key {
            let a = pre.index_of(k);
            assert(0 <= a < n && pre.sessions@[a].key() == k);
            assert(a != i);
            let qa: int = if a < i { a } else { a - 1 };
            assert(post.sessions@[qa] == pre.sessions@[a]);
            assert(post.has(k));
        }
    }
    assert forall|k: SessionKey| post.has(k) implies post.at(k) == pre@.remove(key)[k] by {
        let a = pre.index_of(k);
        assert(pre.has(k));
        assert(0 <= a < n && pre.sessions@[a].key() == k);
        pre.lemma_at_position(k, a);
        assert(a != i);
        let qa: int = if a < i { a } else { a - 1 };
        assert(post.sessions@[qa] == pre.sessions@[a]);
        post.lemma_at_position(k, qa);
    }
    assert(post@ =~= pre@.remove(key));
}

} // verus!
