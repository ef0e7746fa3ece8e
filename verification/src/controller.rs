//! The match state machine: one transition function per protocol event.
//!
//! Every transition takes the current match record and returns the new record
//! together with what happened; nothing here performs I/O. The surrounding
//! application loads the record from the store, calls the transition, and
//! persists the result. Transitions that complete a match apply only to an
//! active record; the caller persists them with a conditional update guarded
//! by the expected prior status, so that two racing completions resolve to
//! exactly one terminal write. A join request for an unknown match identifier
//! is answered by the caller with a not-found event; matches are created only
//! by the explicit creation call.

use vstd::prelude::*;

use crate::clock::{
    add_saturating,
    elapsed_since,
    remaining_spec,
    saturating_add_ms,
    sub_floor,
    timed_out_spec,
};
use crate::game::{seat_of, Game, GameStatus, GameView, PlayerColor};

verus! {

/// What a join request did.
#[derive(Clone, Copy, PartialEq, Eq, Structural, Debug)]
pub enum JoinOutcome {
    /// The match is already completed; the caller sends the terminal summary
    /// and mutates nothing.
    AlreadyCompleted,
    /// Both seats are taken by other players; the join is rejected.
    Full,
    /// The player already holds a seat; the seats are left untouched.
    Reconnected { color: PlayerColor },
    /// The player took the open seat; `activated` says whether this filled
    /// the second seat and started the match.
    Joined { color: PlayerColor, activated: bool },
}

/// Outcome of a join request against the current record.
pub open spec fn join_outcome(g: GameView, user: Seq<char>) -> JoinOutcome {
    if g.status == GameStatus::Completed {
        JoinOutcome::AlreadyCompleted
    } else if seat_of(g, user) is Some {
        JoinOutcome::Reconnected { color: seat_of(g, user)->Some_0 }
    } else if g.status == GameStatus::Active {
        JoinOutcome::Full
    } else if g.white_player is None {
        JoinOutcome::Joined {
            color: PlayerColor::White,
            activated: g.black_player is Some,
        }
    } else if g.black_player is None {
        JoinOutcome::Joined { color: PlayerColor::Black, activated: true }
    } else {
        JoinOutcome::Full
    }
}

/// The record after a seat is assigned; meaningful only when [`join_outcome`]
/// is `Joined`. Filling the second seat advances the status to active.
pub open spec fn join_view(g: GameView, user: Seq<char>, now_iso: Seq<char>) -> GameView {
    if g.white_player is None {
        GameView {
            white_player: Some(user),
            status: if g.black_player is Some {
                GameStatus::Active
            } else {
                GameStatus::Waiting
            },
            updated_at: now_iso,
            ..g
        }
    } else {
        GameView { black_player: Some(user), status: GameStatus::Active, updated_at: now_iso, ..g }
    }
}

/// Admits a player into a match: a reconnection when the player already holds
/// a seat, a seat assignment while the match waits, and a rejection when the
/// match is full or already completed. Returns the (possibly unchanged)
/// record and what happened.
pub fn apply_join(g: Game, username: &str, now_iso: String) -> (r: (Game, JoinOutcome))
    requires
        g.wf(),
    ensures
        r.0.wf(),
        r.1 == join_outcome(g@, username@),
        r.1 matches JoinOutcome::Joined { .. } ==> r.0@ == join_view(g@, username@, now_iso@),
        !(r.1 matches JoinOutcome::Joined { .. }) ==> r.0@ == g@,
{
    if matches!(g.status, GameStatus::Completed) {
        return (g, JoinOutcome::AlreadyCompleted);
    }
    match crate::game::seat_of_player(&g, username) {
        Some(color) => {
            return (g, JoinOutcome::Reconnected { color });
        },
        None => {},
    }
    if matches!(g.status, GameStatus::Active) {
        return (g, JoinOutcome::Full);
    }
    let ghost g0 = g@;
    let mut g = g;
    if g.white_player.is_none() {
        let activated = g.black_player.is_some();
        g.white_player = Some(String::from_str(username));
        if activated {
            g.status = GameStatus::Active;
        }
        g.updated_at = now_iso;
        proof {
            assert(g@ =~= join_view(g0, username@, now_iso@));
        }
        (g, JoinOutcome::Joined { color: PlayerColor::White, activated })
    } else if g.black_player.is_none() {
        g.black_player = Some(String::from_str(username));
        g.status = GameStatus::Active;
        g.updated_at = now_iso;
        proof {
            assert(g@ =~= join_view(g0, username@, now_iso@));
        }
        (g, JoinOutcome::Joined { color: PlayerColor::Black, activated: true })
    } else {
        (g, JoinOutcome::Full)
    }
}

/// A move is accepted only while the match is active, from the player who
/// holds the seat of the side on turn.
pub open spec fn move_allowed(g: GameView, user: Seq<char>) -> bool {
    &&& g.status == GameStatus::Active
    &&& ((g.turn == PlayerColor::White && g.white_player == Some(user)) || (g.turn
        == PlayerColor::Black && g.black_player == Some(user)))
}

/// The record after an accepted move: the move is appended, position and
/// transcript replaced, the turn flipped, and the mover's clock charged for
/// the elapsed time and credited the increment once at least two moves have
/// been recorded — never on the very first move.
pub open spec fn move_view(
    g: GameView,
    from: Seq<char>,
    to: Seq<char>,
    fen: Seq<char>,
    pgn: Seq<char>,
    now_ms: int,
    now_iso: Seq<char>,
) -> GameView {
    let moves2 = g.moves.push(from + to);
    let e = elapsed_since(g.last_move_timestamp, now_ms);
    let credit = if moves2.len() >= 2 {
        g.increment_ms
    } else {
        0
    };
    GameView {
        moves: moves2,
        fen: fen,
        pgn: pgn,
        turn: crate::game::other_color(g.turn),
        white_time_ms: if g.turn == PlayerColor::White {
            add_saturating(sub_floor(g.white_time_ms, e), credit)
        } else {
            g.white_time_ms
        },
        black_time_ms: if g.turn == PlayerColor::Black {
            add_saturating(sub_floor(g.black_time_ms, e), credit)
        } else {
            g.black_time_ms
        },
        last_move_timestamp: now_ms,
        updated_at: now_iso,
        ..g
    }
}

/// Applies a move event. A request on a non-active match, out of turn, or
/// from outside the mover's seat changes nothing and reports `false`.
pub fn apply_move(
    g: Game,
    username: &str,
    from: &str,
    to: &str,
    fen: String,
    pgn: String,
    now_ms: i64,
    now_iso: String,
) -> (r: (Game, bool))
    requires
        g.wf(),
        now_ms >= 0,
    ensures
        r.0.wf(),
        r.1 == move_allowed(g@, username@),
        r.1 ==> r.0@ == move_view(g@, from@, to@, fen@, pgn@, now_ms as int, now_iso@),
        !r.1 ==> r.0@ == g@,
{
    if !matches!(g.status, GameStatus::Active) {
        return (g, false);
    }
    let on_turn = match g.turn {
        PlayerColor::White => match &g.white_player {
            Some(w) => crate::text::str_eq(w.as_str(), username),
            None => false,
        },
        PlayerColor::Black => match &g.black_player {
            Some(b) => crate::text::str_eq(b.as_str(), username),
            None => false,
        },
    };
    if !on_turn {
        return (g, false);
    }
    let ghost g0 = g@;
    let mut g = g;
    let mut mv = String::from_str(from);
    mv.append(to);
    g.moves.push(mv);
    g.fen = fen;
    g.pgn = pgn;
    let mover = g.turn;
    g.turn = crate::game::flip_color(mover);
    let e: i64 = if now_ms >= g.last_move_timestamp {
        now_ms - g.last_move_timestamp
    } else {
        0
    };
    let credit: i64 = if g.moves.len() >= 2 {
        g.increment_ms
    } else {
        0
    };
    match mover {
        PlayerColor::White => {
            let base = if g.white_time_ms >= e {
                g.white_time_ms - e
            } else {
                0
            };
            g.white_time_ms = saturating_add_ms(base, credit);
        },
        PlayerColor::Black => {
            let base = if g.black_time_ms >= e {
                g.black_time_ms - e
            } else {
                0
            };
            g.black_time_ms = saturating_add_ms(base, credit);
        },
    }
    g.last_move_timestamp = now_ms;
    g.updated_at = now_iso;
    proof {
        assert(g@.moves =~= g0.moves.push(from@ + to@));
        assert(g@ =~= move_view(g0, from@, to@, fen@, pgn@, now_ms as int, now_iso@));
    }
    (g, true)
}

/// A resignation completes the match only while it is still active.
pub open spec fn resign_allowed(g: GameView) -> bool {
    g.status == GameStatus::Active
}

/// The record after a resignation: completed, with the result text derived
/// from the resigning player's identity.
pub open spec fn resign_view(g: GameView, user: Seq<char>, now_iso: Seq<char>) -> GameView {
    GameView {
        status: GameStatus::Completed,
        result: user + " resigned"@,
        updated_at: now_iso,
        ..g
    }
}

/// Applies a resignation; a no-op on a match that is not active, so that a
/// racing completion is applied exactly once.
pub fn apply_resign(g: Game, username: &str, now_iso: String) -> (r: (Game, bool))
    requires
        g.wf(),
    ensures
        r.0.wf(),
        r.1 == resign_allowed(g@),
        r.1 ==> r.0@ == resign_view(g@, username@, now_iso@),
        !r.1 ==> r.0@ == g@,
{
    if !matches!(g.status, GameStatus::Active) {
        return (g, false);
    }
    let ghost g0 = g@;
    let mut g = g;
    g.status = GameStatus::Completed;
    let mut result = String::from_str(username);
    result.append(" resigned");
    g.result = result;
    g.updated_at = now_iso;
    proof {
        assert(g@ =~= resign_view(g0, username@, now_iso@));
    }
    (g, true)
}

/// An externally reported game-over completes the match only while it is
/// still active.
pub open spec fn game_over_allowed(g: GameView) -> bool {
    g.status == GameStatus::Active
}

/// The record after a reported game over: completed, with the reported
/// result text stored as given.
pub open spec fn game_over_view(g: GameView, result: Seq<char>, now_iso: Seq<char>) -> GameView {
    GameView { status: GameStatus::Completed, result: result, updated_at: now_iso, ..g }
}

/// Marks the match completed with the given result text; a no-op unless the
/// match is still active.
pub fn apply_game_over(g: Game, result: String, now_iso: String) -> (r: (Game, bool))
    requires
        g.wf(),
    ensures
        r.0.wf(),
        r.1 == game_over_allowed(g@),
        r.1 ==> r.0@ == game_over_view(g@, result@, now_iso@),
        !r.1 ==> r.0@ == g@,
{
    if !matches!(g.status, GameStatus::Active) {
        return (g, false);
    }
    let ghost g0 = g@;
    let mut g = g;
    g.status = GameStatus::Completed;
    g.result = result;
    g.updated_at = now_iso;
    proof {
        assert(g@ =~= game_over_view(g0, result@, now_iso@));
    }
    (g, true)
}

/// A draw may be offered only while the match is active.
pub open spec fn offer_draw_allowed(g: GameView) -> bool {
    g.status == GameStatus::Active
}

/// The record after a draw offer: the offering identity is stored.
pub open spec fn offer_draw_view(g: GameView, user: Seq<char>, now_iso: Seq<char>) -> GameView {
    GameView { draw_offered_by: Some(user), updated_at: now_iso, ..g }
}

/// Stores a draw offer; a no-op on a non-active match.
pub fn apply_draw_offer(g: Game, username: &str, now_iso: String) -> (r: (Game, bool))
    requires
        g.wf(),
    ensures
        r.0.wf(),
        r.1 == offer_draw_allowed(g@),
        r.1 ==> r.0@ == offer_draw_view(g@, username@, now_iso@),
        !r.1 ==> r.0@ == g@,
{
    if !matches!(g.status, GameStatus::Active) {
        return (g, false);
    }
    let ghost g0 = g@;
    let mut g = g;
    g.draw_offered_by = Some(String::from_str(username));
    g.updated_at = now_iso;
    proof {
        assert(g@ =~= offer_draw_view(g0, username@, now_iso@));
    }
    (g, true)
}

/// A draw is accepted only while the match is active and a pending offer
/// from someone other than the accepting player exists.
pub open spec fn accept_draw_allowed(g: GameView, user: Seq<char>) -> bool {
    &&& g.status == GameStatus::Active
    &&& g.draw_offered_by is Some
    &&& g.draw_offered_by != Some(user)
}

/// The record after an accepted draw: completed by agreement, the offer
/// cleared.
pub open spec fn accept_draw_view(g: GameView, now_iso: Seq<char>) -> GameView {
    GameView {
        status: GameStatus::Completed,
        result: "Draw by agreement"@,
        draw_offered_by: None,
        updated_at: now_iso,
        ..g
    }
}

/// Completes the match by agreement when a pending offer from the opponent
/// exists; otherwise a no-op.
pub fn apply_draw_accept(g: Game, username: &str, now_iso: String) -> (r: (Game, bool))
    requires
        g.wf(),
    ensures
        r.0.wf(),
        r.1 == accept_draw_allowed(g@, username@),
        r.1 ==> r.0@ == accept_draw_view(g@, now_iso@),
        !r.1 ==> r.0@ == g@,
{
    if !matches!(g.status, GameStatus::Active) {
        return (g, false);
    }
    let offered_by_other = match &g.draw_offered_by {
        Some(o) => !crate::text::str_eq(o.as_str(), username),
        None => false,
    };
    if !offered_by_other {
        return (g, false);
    }
    let ghost g0 = g@;
    let mut g = g;
    g.status = GameStatus::Completed;
    g.result = String::from_str("Draw by agreement");
    g.draw_offered_by = None;
    g.updated_at = now_iso;
    proof {
        assert(g@ =~= accept_draw_view(g0, now_iso@));
    }
    (g, true)
}

/// A decline applies only while the match is active and an offer is pending.
pub open spec fn decline_draw_allowed(g: GameView) -> bool {
    g.status == GameStatus::Active && g.draw_offered_by is Some
}

/// The record after a declined draw: the offer is cleared, nothing else
/// changes.
pub open spec fn decline_draw_view(g: GameView, now_iso: Seq<char>) -> GameView {
    GameView { draw_offered_by: None, updated_at: now_iso, ..g }
}

/// Clears a pending draw offer; a no-op when none is pending.
pub fn apply_draw_decline(g: Game, now_iso: String) -> (r: (Game, bool))
    requires
        g.wf(),
    ensures
        r.0.wf(),
        r.1 == decline_draw_allowed(g@),
        r.1 ==> r.0@ == decline_draw_view(g@, now_iso@),
        !r.1 ==> r.0@ == g@,
{
    if !matches!(g.status, GameStatus::Active) {
        return (g, false);
    }
    if g.draw_offered_by.is_none() {
        return (g, false);
    }
    let ghost g0 = g@;
    let mut g = g;
    g.draw_offered_by = None;
    g.updated_at = now_iso;
    proof {
        assert(g@ =~= decline_draw_view(g0, now_iso@));
    }
    (g, true)
}

/// A timeout completes the match only while it is active and a side's
/// remaining time has reached zero at the given instant.
pub open spec fn timeout_allowed(g: GameView, now_ms: int) -> bool {
    g.status == GameStatus::Active && timed_out_spec(g, now_ms)
}

/// The record after a detected timeout: completed, the flag fall recorded
/// against the side whose clock reached zero (white checked first), both
/// clocks stored at their floored values, and the reason tagged.
pub open spec fn timeout_view(g: GameView, now_ms: int, now_iso: Seq<char>) -> GameView {
    let rem = remaining_spec(g, now_ms);
    GameView {
        status: GameStatus::Completed,
        result: if rem.0 <= 0 {
            "Black wins on time"@
        } else {
            "White wins on time"@
        },
        reason: Some("timeout"@),
        white_time_ms: rem.0,
        black_time_ms: rem.1,
        updated_at: now_iso,
        ..g
    }
}

/// Completes the match on a flag fall. A no-op when the match is no longer
/// active — a racing move or resignation has then already resolved it — or
/// when neither clock has reached zero.
pub fn apply_timeout(g: Game, now_ms: i64, now_iso: String) -> (r: (Game, bool))
    requires
        g.wf(),
    ensures
        r.0.wf(),
        r.1 == timeout_allowed(g@, now_ms as int),
        r.1 ==> r.0@ == timeout_view(g@, now_ms as int, now_iso@),
        !r.1 ==> r.0@ == g@,
{
    if !matches!(g.status, GameStatus::Active) {
        return (g, false);
    }
    let (w, b) = crate::clock::remaining_times(&g, now_ms);
    if w > 0 && b > 0 {
        return (g, false);
    }
    let ghost g0 = g@;
    let mut g = g;
    g.status = GameStatus::Completed;
    g.result = if w <= 0 {
        String::from_str("Black wins on time")
    } else {
        String::from_str("White wins on time")
    };
    g.reason = Some(String::from_str("timeout"));
    g.white_time_ms = w;
    g.black_time_ms = b;
    g.updated_at = now_iso;
    proof {
        assert(g@ =~= timeout_view(g0, now_ms as int, now_iso@));
    }
    (g, true)
}

/// An abandonment completes the match only while it is still active.
pub open spec fn abandon_allowed(g: GameView) -> bool {
    g.status == GameStatus::Active
}

/// The record after an abandonment: completed, the result text derived from
/// the abandoning player's identity, and the reason tagged.
pub open spec fn abandon_view(g: GameView, user: Seq<char>, now_iso: Seq<char>) -> GameView {
    GameView {
        status: GameStatus::Completed,
        result: user + " abandoned"@,
        reason: Some("abandonment"@),
        updated_at: now_iso,
        ..g
    }
}

/// Completes the match against a player who abandoned it; a no-op unless the
/// match is still active.
pub fn apply_abandonment(g: Game, username: &str, now_iso: String) -> (r: (Game, bool))
    requires
        g.wf(),
    ensures
        r.0.wf(),
        r.1 == abandon_allowed(g@),
        r.1 ==> r.0@ == abandon_view(g@, username@, now_iso@),
        !r.1 ==> r.0@ == g@,
{
    if !matches!(g.status, GameStatus::Active) {
        return (g, false);
    }
    let ghost g0 = g@;
    let mut g = g;
    g.status = GameStatus::Completed;
    let mut result = String::from_str(username);
    result.append(" abandoned");
    g.result = result;
    g.reason = Some(String::from_str("abandonment"));
    g.updated_at = now_iso;
    proof {
        assert(g@ =~= abandon_view(g0, username@, now_iso@));
    }
    (g, true)
}

/// What the background poller does with one tick's reading.
pub enum PollDecision {
    /// The match is gone or no longer active: the poller exits without
    /// touching anything.
    Stop,
    /// The match runs and no clock has fallen: poll again after the next
    /// tick.
    Wait,
    /// A clock fell: the completed record, to be persisted with a
    /// conditional update guarded by the active status; the poller exits
    /// after it.
    Complete { game: Game },
}

/// Decides one tick of the timeout poller from the freshly loaded record.
/// The poller self-terminates on a missing or non-active match, so a
/// completion that raced it needs no cancellation signal.
pub fn poll_tick(g: Option<Game>, now_ms: i64, now_iso: String) -> (r: PollDecision)
    requires
        g matches Some(gm) ==> gm.wf(),
    ensures
        g is None ==> r is Stop,
        g matches Some(gm) ==> {
            &&& !(gm@.status == GameStatus::Active) ==> r is Stop
            &&& timeout_allowed(gm@, now_ms as int) ==> (r matches PollDecision::Complete { game }
                && game@ == timeout_view(gm@, now_ms as int, now_iso@) && game.wf())
            &&& (gm@.status == GameStatus::Active && !timeout_allowed(gm@, now_ms as int))
                ==> r is Wait
        },
{
    match g {
        None => PollDecision::Stop,
        Some(gm) => {
            if !matches!(gm.status, GameStatus::Active) {
                return PollDecision::Stop;
            }
            let (done, fired) = apply_timeout(gm, now_ms, now_iso);
            if fired {
                PollDecision::Complete { game: done }
            } else {
                PollDecision::Wait
            }
        },
    }
}

/// The record after the clock start is stamped: the reference instant for
/// elapsed-time accounting is set to `now_ms`.
pub open spec fn stamp_view(g: GameView, now_ms: int, now_iso: Seq<char>) -> GameView {
    GameView { last_move_timestamp: now_ms, updated_at: now_iso, ..g }
}

/// Stamps the clock-start instant, used when the match becomes active so
/// that the first move is charged from the actual start of play.
pub fn stamp_clock_start(g: Game, now_ms: i64, now_iso: String) -> (r: Game)
    requires
        g.wf(),
        now_ms >= 0,
    ensures
        r.wf(),
        r@ == stamp_view(g@, now_ms as int, now_iso@),
{
    let ghost g0 = g@;
    let mut g = g;
    g.last_move_timestamp = now_ms;
    g.updated_at = now_iso;
    proof {
        assert(g@ =~= stamp_view(g0, now_ms as int, now_iso@));
    }
    g
}

} // verus!
