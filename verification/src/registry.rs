//! The connection registry: the process-wide table of live sessions, keyed
//! by player identity, with one live session per player at a time.
//!
//! The registry holds only plain session data — connection identity, match
//! identity, player identity, seat — never the outbound transport itself.
//! The surrounding application keys its message sinks by connection identity
//! and consults this table, under its own lock, to decide where to deliver.

use vstd::prelude::*;

use crate::game::PlayerColor;

verus! {

/// The live binding between one connected player and one match.
pub struct PlayerConnection {
    /// Identity of the underlying connection; a newer connection for the
    /// same player replaces the older session.
    pub id: String,
    /// Identifier of the match the player is bound to.
    pub game_id: String,
    /// Player identity; the registry key.
    pub username: String,
    /// The seat the player holds.
    pub color: PlayerColor,
}

/// Mathematical model of a [`PlayerConnection`].
#[verifier::ext_equal]
pub struct ConnView {
    pub id: Seq<char>,
    pub game_id: Seq<char>,
    pub username: Seq<char>,
    pub color: PlayerColor,
}

impl View for PlayerConnection {
    type V = ConnView;

    open spec fn view(&self) -> ConnView {
        ConnView {
            id: self.id@,
            game_id: self.game_id@,
            username: self.username@,
            color: self.color,
        }
    }
}

impl Clone for PlayerConnection {
    fn clone(&self) -> (r: Self)
        ensures
            r@ == self@,
    {
        PlayerConnection {
            id: self.id.clone(),
            game_id: self.game_id.clone(),
            username: self.username.clone(),
            color: self.color,
        }
    }
}

/// No two sessions belong to the same player.
pub open spec fn distinct_players(s: Seq<ConnView>) -> bool {
    forall|i: int, j: int|
        0 <= i < j < s.len() ==> #[trigger] s[i].username != #[trigger] s[j].username
}

/// The process-wide session table.
pub struct ConnectionRegistry {
    sessions: Vec<PlayerConnection>,
}

impl View for ConnectionRegistry {
    type V = Seq<ConnView>;

    closed spec fn view(&self) -> Seq<ConnView> {
        self.sessions@.map_values(|c: PlayerConnection| c@)
    }
}

impl ConnectionRegistry {
    /// One session per player.
    pub open spec fn wf(&self) -> bool {
        distinct_players(self@)
    }

    /// An empty registry.
    pub fn new() -> (r: Self)
        ensures
            r.wf(),
            r@ == Seq::<ConnView>::empty(),
    {
        let r = ConnectionRegistry { sessions: Vec::new() };
        proof {
            assert(r@ =~= Seq::<ConnView>::empty());
        }
        r
    }

    /// Number of live sessions.
    pub fn len(&self) -> (n: usize)
        ensures
            n == self@.len(),
    {
        self.sessions.len()
    }

    /// Registers a session; an existing session of the same player is
    /// replaced, so a reconnection from a new connection supersedes the old
    /// one.
    pub fn register(&mut self, conn: PlayerConnection)
        requires
            old(self).wf(),
        ensures
            final(self).wf(),
            final(self)@.contains(conn@),
            forall|x: ConnView|
                #[trigger] old(self)@.contains(x) && x.username != conn@.username ==> final(
                    self)@.contains(x),
            forall|k: int|
                0 <= k < final(self)@.len() ==> final(self)@[k] == conn@ || (old(self)@.contains(
                    #[trigger] final(self)@[k],
                ) && final(self)@[k].username != conn@.username),
    {
        let n = self.sessions.len();
        let mut i: usize = 0;
        while i < n
            invariant
                0 <= i <= n,
                n == self.sessions@.len(),
                self.wf(),
                self@ == old(self)@,
                forall|k: int| 0 <= k < i ==> #[trigger] self@[k].username != conn@.username,
            decreases n - i,
        {
            if crate::text::str_eq(self.sessions[i].username.as_str(), conn.username.as_str()) {
                self.sessions.set(i, conn);
                proof {
                    assert(self@ =~= old(self)@.update(i as int, conn@));
                    assert(self@.contains(conn@)) by {
                        assert(self@[i as int] == conn@);
                    }
                    assert forall|x: ConnView|
                        #[trigger] old(self)@.contains(x) && x.username != conn@.username implies self@.contains(
                        x,
                    ) by {
                        let j = choose|j: int| 0 <= j < old(self)@.len() && old(self)@[j] == x;
                        assert(j != i);
                        assert(self@[j] == x);
                    }
                    assert(old(self)@[i as int].username == conn@.username);
                    assert forall|k: int| 0 <= k < self@.len() implies self@[k] == conn@ || (
                    old(self)@.contains(#[trigger] self@[k]) && self@[k].username != conn@.username) by {
                        if k != i {
                            assert(self@[k] == old(self)@[k]);
                            assert(old(self)@.contains(self@[k]));
                            assert(old(self)@[k].username != old(self)@[i as int].username);
                        }
                    }
                    assert forall|a: int, b: int| 0 <= a < b < self@.len() implies self@[a].username
                        != self@[b].username by {
                        assert(old(self)@[a].username != old(self)@[b].username);
                    }
                }
                return ;
            }
            i = i + 1;
        }
        self.sessions.push(conn);
        proof {
            assert(self@ =~= old(self)@.push(conn@));
            assert(self@.contains(conn@)) by {
                assert(self@[old(self)@.len() as int] == conn@);
            }
            assert forall|x: ConnView|
                #[trigger] old(self)@.contains(x) && x.username != conn@.username implies self@.contains(
                x,
            ) by {
                let j = choose|j: int| 0 <= j < old(self)@.len() && old(self)@[j] == x;
                assert(self@[j] == x);
            }
            assert forall|k: int| 0 <= k < self@.len() implies self@[k] == conn@ || (old(self)@.contains(
            #[trigger] self@[k]) && self@[k].username != conn@.username) by {
                if k < old(self)@.len() {
                    assert(self@[k] == old(self)@[k]);
                    assert(old(self)@.contains(self@[k]));
                }
            }
            assert forall|a: int, b: int| 0 <= a < b < self@.len() implies self@[a].username
                != self@[b].username by {
                if b < old(self)@.len() {
                    assert(old(self)@[a].username != old(self)@[b].username);
                } else {
                    assert(self@[b] == conn@);
                    assert(old(self)@[a].username != conn@.username);
                }
            }
        }
    }

    /// Removes every session bound to the given connection identity, and no
    /// other: a newer connection for the same player, registered under a
    /// different identity, survives.
    pub fn remove_connection(&mut self, connection_id: &str)
        requires
            old(self).wf(),
        ensures
            final(self).wf(),
            forall|k: int| 0 <= k < final(self)@.len() ==> #[trigger] final(self)@[k].id != connection_id@,
            forall|k: int|
                0 <= k < final(self)@.len() ==> old(self)@.contains(#[trigger] final(self)@[k]),
            forall|x: ConnView|
                #[trigger] old(self)@.contains(x) && x.id != connection_id@ ==> final(
                    self)@.contains(x),
    {
        let ghost orig = self@;
        let mut i: usize = 0;
        while i < self.sessions.len()
            invariant
                0 <= i <= self.sessions@.len(),
                self.wf(),
                forall|k: int| 0 <= k < i ==> #[trigger] self@[k].id != connection_id@,
                forall|k: int| 0 <= k < self@.len() ==> orig.contains(#[trigger] self@[k]),
                forall|x: ConnView|
                    orig.contains(x) && x.id != connection_id@ ==> #[trigger] self@.contains(x),
            decreases self.sessions@.len() - i,
        {
            if crate::text::str_eq(self.sessions[i].id.as_str(), connection_id) {
                let ghost pre = self@;
                self.sessions.remove(i);
                proof {
                    assert(self@ =~= pre.remove(i as int));
                    assert forall|k: int| 0 <= k < self@.len() implies orig.contains(
                        #[trigger] self@[k],
                    ) by {
                        if k < i {
                            assert(self@[k] == pre[k]);
                        } else {
                            assert(self@[k] == pre[k + 1]);
                        }
                    }
                    assert forall|x: ConnView|
                        orig.contains(x) && x.id != connection_id@ implies #[trigger] self@.contains(
                        x,
                    ) by {
                        assert(pre.contains(x));
                        let j = choose|j: int| 0 <= j < pre.len() && pre[j] == x;
                        assert(j != i);
                        if j < i {
                            assert(self@[j] == x);
                        } else {
                            assert(self@[j - 1] == x);
                        }
                    }
                    assert forall|a: int, b: int| 0 <= a < b < self@.len() implies self@[a].username
                        != self@[b].username by {
                        let a2 = if a < i { a } else { a + 1 };
                        let b2 = if b < i { b } else { b + 1 };
                        assert(self@[a] == pre[a2]);
                        assert(self@[b] == pre[b2]);
                        assert(pre[a2].username != pre[b2].username);
                    }
                }
            } else {
                i = i + 1;
            }
        }
    }

    /// The session of the given player, if one is live; used for direct
    /// delivery of join and draw notifications.
    pub fn session_for_player(&self, username: &str) -> (r: Option<PlayerConnection>)
        requires
            self.wf(),
        ensures
            match r {
                Some(c) => self@.contains(c@) && c@.username == username@,
                None => forall|k: int| 0 <= k < self@.len() ==> #[trigger] self@[k].username != username@,
            },
    {
        let mut i: usize = 0;
        while i < self.sessions.len()
            invariant
                0 <= i <= self.sessions@.len(),
                forall|k: int| 0 <= k < i ==> #[trigger] self@[k].username != username@,
            decreases self.sessions@.len() - i,
        {
            if crate::text::str_eq(self.sessions[i].username.as_str(), username) {
                let c = self.sessions[i].clone();
                proof {
                    assert(self@[i as int] == c@);
                }
                return Some(c);
            }
            i = i + 1;
        }
        None
    }

    /// Every session bound to the given match except the named player's own;
    /// the fan-out for notices that go to the opponent only, such as a join
    /// or a declined draw.
    pub fn sessions_for_game_except(&self, game_id: &str, username: &str) -> (r: Vec<
        PlayerConnection,
    >)
        requires
            self.wf(),
        ensures
            forall|k: int|
                0 <= k < r@.len() ==> (#[trigger] r@[k]@).game_id == game_id@ && r@[k]@.username
                    != username@ && self@.contains(r@[k]@),
            forall|x: ConnView|
                self@.contains(x) && x.game_id == game_id@ && x.username != username@ ==> exists|
                    k: int,
                |
                    0 <= k < r@.len() && (#[trigger] r@[k]@) == x,
    {
        let mut out: Vec<PlayerConnection> = Vec::new();
        let mut i: usize = 0;
        while i < self.sessions.len()
            invariant
                0 <= i <= self.sessions@.len(),
                forall|k: int|
                    0 <= k < out@.len() ==> (#[trigger] out@[k]@).game_id == game_id@
                        && out@[k]@.username != username@ && self@.contains(out@[k]@),
                forall|j: int|
                    0 <= j < i && (#[trigger] self@[j]).game_id == game_id@ && self@[j].username
                        != username@ ==> exists|k: int| 0 <= k < out@.len() && out@[k]@ == self@[j],
            decreases self.sessions@.len() - i,
        {
            if crate::text::str_eq(self.sessions[i].game_id.as_str(), game_id)
                && !crate::text::str_eq(self.sessions[i].username.as_str(), username) {
                let c = self.sessions[i].clone();
                proof {
                    assert(self@[i as int] == c@);
                }
                let ghost out0 = out@;
                out.push(c);
                proof {
                    assert forall|j: int|
                        0 <= j < i + 1 && (#[trigger] self@[j]).game_id == game_id@
                            && self@[j].username != username@ implies exists|k: int|
                        0 <= k < out@.len() && out@[k]@ == self@[j] by {
                        if j < i {
                            let k = choose|k: int| 0 <= k < out0.len() && out0[k]@ == self@[j];
                            assert(out@[k] == out0[k]);
                            assert(out@[k]@ == self@[j]);
                        } else {
                            assert(out@[out@.len() - 1]@ == self@[j]);
                        }
                    }
                }
            }
            i = i + 1;
        }
        proof {
            assert forall|x: ConnView|
                self@.contains(x) && x.game_id == game_id@ && x.username != username@ implies exists|
                k: int,
            | 0 <= k < out@.len() && (#[trigger] out@[k]@) == x by {
                let j = choose|j: int| 0 <= j < self@.len() && self@[j] == x;
                assert(exists|k: int| 0 <= k < out@.len() && out@[k]@ == self@[j]);
            }
        }
        out
    }

    /// Every session bound to the given match; the broadcast fan-out. The
    /// order across recipients carries no meaning.
    pub fn sessions_for_game(&self, game_id: &str) -> (r: Vec<PlayerConnection>)
        requires
            self.wf(),
        ensures
            forall|k: int|
                0 <= k < r@.len() ==> (#[trigger] r@[k]@).game_id == game_id@ && self@.contains(
                    r@[k]@,
                ),
            forall|x: ConnView|
                self@.contains(x) && x.game_id == game_id@ ==> exists|k: int|
                    0 <= k < r@.len() && (#[trigger] r@[k]@) == x,
    {
        let mut out: Vec<PlayerConnection> = Vec::new();
        let mut i: usize = 0;
        while i < self.sessions.len()
            invariant
                0 <= i <= self.sessions@.len(),
                forall|k: int|
                    0 <= k < out@.len() ==> (#[trigger] out@[k]@).game_id == game_id@
                        && self@.contains(out@[k]@),
                forall|j: int|
                    0 <= j < i && (#[trigger] self@[j]).game_id == game_id@ ==> exists|k: int|
                        0 <= k < out@.len() && out@[k]@ == self@[j],
            decreases self.sessions@.len() - i,
        {
            if crate::text::str_eq(self.sessions[i].game_id.as_str(), game_id) {
                let c = self.sessions[i].clone();
                proof {
                    assert(self@[i as int] == c@);
                }
                let ghost out0 = out@;
                out.push(c);
                proof {
                    assert forall|j: int|
                        0 <= j < i + 1 && (#[trigger] self@[j]).game_id == game_id@ implies exists|
                        k: int,
                    |
                        0 <= k < out@.len() && out@[k]@ == self@[j] by {
                        if j < i {
                            let k = choose|k: int| 0 <= k < out0.len() && out0[k]@ == self@[j];
                            assert(out@[k] == out0[k]);
                            assert(out@[k]@ == self@[j]);
                        } else {
                            assert(out@[out@.len() - 1]@ == self@[j]);
                        }
                    }
                }
            }
            i = i + 1;
        }
        proof {
            assert forall|x: ConnView| self@.contains(x) && x.game_id == game_id@ implies exists|
                k: int,
            | 0 <= k < out@.len() && (#[trigger] out@[k]@) == x by {
                let j = choose|j: int| 0 <= j < self@.len() && self@[j] == x;
                assert(exists|k: int| 0 <= k < out@.len() && out@[k]@ == self@[j]);
            }
        }
        out
    }
}

} // verus!
