//! The disconnection supervisor: the table of players currently inside their
//! grace window after a connection drop.
//!
//! A record is created when a session for an in-progress match closes and no
//! record exists for that player; it is removed when the same player rejoins
//! the same match before expiry; and it is consumed by the abandonment
//! resolver when the window elapses. The resolver re-checks the record's
//! presence before acting, so a timer that fires after a reconnection
//! abandons nothing.

use vstd::prelude::*;

verus! {

/// Grace window after a disconnect, in milliseconds.
pub const RECONNECT_WINDOW_MS: i64 = 15000;

/// One player currently outside a live connection.
pub struct DisconnectionInfo {
    /// Identity of the disconnected player; the table key.
    pub username: String,
    /// Identifier of the match the player dropped from.
    pub game_id: String,
    /// Epoch milliseconds at which the drop was observed.
    pub disconnect_time: i64,
    /// Length of the grace window, in milliseconds.
    pub reconnect_window: i64,
}

/// Mathematical model of a [`DisconnectionInfo`].
#[verifier::ext_equal]
pub struct DisconnectView {
    pub username: Seq<char>,
    pub game_id: Seq<char>,
    pub disconnect_time: int,
    pub reconnect_window: int,
}

impl View for DisconnectionInfo {
    type V = DisconnectView;

    open spec fn view(&self) -> DisconnectView {
        DisconnectView {
            username: self.username@,
            game_id: self.game_id@,
            disconnect_time: self.disconnect_time as int,
            reconnect_window: self.reconnect_window as int,
        }
    }
}

/// At most one record per player.
pub open spec fn distinct_records(t: Seq<DisconnectView>) -> bool {
    forall|i: int, j: int|
        0 <= i < j < t.len() ==> #[trigger] t[i].username != #[trigger] t[j].username
}

/// A record for this player is present.
pub open spec fn has_record(t: Seq<DisconnectView>, user: Seq<char>) -> bool {
    exists|i: int| 0 <= i < t.len() && (#[trigger] t[i]).username == user
}

/// The index of this player's record; meaningful only when one is present.
pub open spec fn record_index(t: Seq<DisconnectView>, user: Seq<char>) -> int {
    choose|i: int| 0 <= i < t.len() && (#[trigger] t[i]).username == user
}

/// The table after a drop is observed: a new record is armed unless one for
/// the player already exists, in which case nothing changes.
pub open spec fn disconnect_spec(
    t: Seq<DisconnectView>,
    user: Seq<char>,
    game_id: Seq<char>,
    now_ms: int,
) -> Seq<DisconnectView> {
    if has_record(t, user) {
        t
    } else {
        t.push(
            DisconnectView {
                username: user,
                game_id: game_id,
                disconnect_time: now_ms,
                reconnect_window: RECONNECT_WINDOW_MS as int,
            },
        )
    }
}

/// The table after the player's record for this match is taken, and whether
/// one was taken: the record leaves only when it is present and references
/// the same match.
pub open spec fn take_record_spec(
    t: Seq<DisconnectView>,
    user: Seq<char>,
    game_id: Seq<char>,
) -> (Seq<DisconnectView>, bool) {
    if has_record(t, user) {
        let i = record_index(t, user);
        if t[i].game_id == game_id {
            (t.remove(i), true)
        } else {
            (t, false)
        }
    } else {
        (t, false)
    }
}

/// The table of players inside their grace window.
pub struct DisconnectionTable {
    records: Vec<DisconnectionInfo>,
}

impl View for DisconnectionTable {
    type V = Seq<DisconnectView>;

    closed spec fn view(&self) -> Seq<DisconnectView> {
        self.records@.map_values(|r: DisconnectionInfo| r@)
    }
}

impl DisconnectionTable {
    /// At most one record per player.
    pub open spec fn wf(&self) -> bool {
        distinct_records(self@)
    }

    /// An empty table.
    pub fn new() -> (r: Self)
        ensures
            r.wf(),
            r@ == Seq::<DisconnectView>::empty(),
    {
        let r = DisconnectionTable { records: Vec::new() };
        proof {
            assert(r@ =~= Seq::<DisconnectView>::empty());
        }
        r
    }

    /// Records a drop. Returns whether a fresh record was armed — the caller
    /// then schedules one expiry check after the grace window — or `false`
    /// when the player was already inside a window.
    pub fn note_disconnect(&mut self, username: &str, game_id: &str, now_ms: i64) -> (armed: bool)
        requires
            old(self).wf(),
        ensures
            final(self).wf(),
            armed == !has_record(old(self)@, username@),
            final(self)@ == disconnect_spec(old(self)@, username@, game_id@, now_ms as int),
    {
        let n = self.records.len();
        let mut i: usize = 0;
        while i < n
            invariant
                0 <= i <= n,
                n == self@.len(),
                self@ == old(self)@,
                self.wf(),
                forall|k: int| 0 <= k < i ==> (#[trigger] self@[k]).username != username@,
            decreases n - i,
        {
            if crate::text::str_eq(self.records[i].username.as_str(), username) {
                proof {
                    assert(self@[i as int].username == username@);
                }
                return false;
            }
            i = i + 1;
        }
        let rec = DisconnectionInfo {
            username: String::from_str(username),
            game_id: String::from_str(game_id),
            disconnect_time: now_ms,
            reconnect_window: RECONNECT_WINDOW_MS,
        };
        proof {
            assert(!has_record(old(self)@, username@));
        }
        self.records.push(rec);
        proof {
            assert(self@ =~= disconnect_spec(old(self)@, username@, game_id@, now_ms as int));
            assert forall|a: int, b: int| 0 <= a < b < self@.len() implies self@[a].username
                != self@[b].username by {
                if b < old(self)@.len() {
                    assert(old(self)@[a].username != old(self)@[b].username);
                } else {
                    assert(self@[b].username == username@);
                    assert(old(self)@[a].username != username@);
                }
            }
        }
        true
    }

    /// Takes the player's record for this match, if one is present. Shared by
    /// the reconnection path and the expiry path, which differ only in what
    /// the caller does with the answer.
    fn take_record(&mut self, username: &str, game_id: &str) -> (taken: bool)
        requires
            old(self).wf(),
        ensures
            final(self).wf(),
            taken == take_record_spec(old(self)@, username@, game_id@).1,
            final(self)@ == take_record_spec(old(self)@, username@, game_id@).0,
    {
        let n = self.records.len();
        let mut i: usize = 0;
        while i < n
            invariant
                0 <= i <= n,
                n == self@.len(),
                self@ == old(self)@,
                self.wf(),
                forall|k: int| 0 <= k < i ==> (#[trigger] self@[k]).username != username@,
            decreases n - i,
        {
            if crate::text::str_eq(self.records[i].username.as_str(), username) {
                proof {
                    assert(self@[i as int].username == username@);
                    assert(has_record(self@, username@));
                    let w = record_index(self@, username@);
                    assert(0 <= w < self@.len() && self@[w].username == username@);
                    if w != i as int {
                        assert(self@[w].username != self@[i as int].username);
                        assert(false);
                    }
                }
                if crate::text::str_eq(self.records[i].game_id.as_str(), game_id) {
                    let ghost pre = self@;
                    self.records.remove(i);
                    proof {
                        assert(self@ =~= pre.remove(i as int));
                        assert forall|a: int, b: int| 0 <= a < b < self@.len() implies self@[a].username
                            != self@[b].username by {
                            let a2 = if a < i { a } else { a + 1 };
                            let b2 = if b < i { b } else { b + 1 };
                            assert(self@[a] == pre[a2]);
                            assert(self@[b] == pre[b2]);
                            assert(pre[a2].username != pre[b2].username);
                        }
                    }
                    return true;
                } else {
                    return false;
                }
            }
            i = i + 1;
        }
        proof {
            assert(!has_record(self@, username@));
        }
        false
    }

    /// Cancels the pending abandonment when the same player rejoins the same
    /// match inside the grace window. Returns whether a record was removed.
    pub fn note_reconnect(&mut self, username: &str, game_id: &str) -> (removed: bool)
        requires
            old(self).wf(),
        ensures
            final(self).wf(),
            removed == take_record_spec(old(self)@, username@, game_id@).1,
            final(self)@ == take_record_spec(old(self)@, username@, game_id@).0,
    {
        self.take_record(username, game_id)
    }

    /// Decides an expiry check fired after the grace window: abandon exactly
    /// when the record is still present and still references the same match;
    /// a reconnection or a drop into another match abandons nothing. The
    /// consumed record never fires twice.
    pub fn resolve_expiry(&mut self, username: &str, game_id: &str) -> (abandon: bool)
        requires
            old(self).wf(),
        ensures
            final(self).wf(),
            abandon == take_record_spec(old(self)@, username@, game_id@).1,
            final(self)@ == take_record_spec(old(self)@, username@, game_id@).0,
    {
        self.take_record(username, game_id)
    }
}

} // verus!
