//! Laws of the match state machine, proved once over the transition
//! relations that the executable functions are specified against.

use vstd::prelude::*;

use crate::clock::{elapsed_since, remaining_spec, sub_floor, add_saturating};
use crate::controller::{
    abandon_allowed,
    abandon_view,
    accept_draw_allowed,
    accept_draw_view,
    decline_draw_allowed,
    decline_draw_view,
    game_over_allowed,
    game_over_view,
    join_outcome,
    join_view,
    move_allowed,
    move_view,
    offer_draw_allowed,
    offer_draw_view,
    resign_allowed,
    resign_view,
    timeout_allowed,
    timeout_view,
    JoinOutcome,
};
use crate::game::{
    opponent_of,
    other_color,
    status_rank,
    wf_game,
    GameStatus,
    GameView,
    PlayerColor,
};
use crate::results::result_info_spec;
use crate::supervisor::{
    disconnect_spec,
    distinct_records,
    has_record,
    record_index,
    take_record_spec,
};
use crate::text::{contains_seq, first_token, is_ascii_space, skip_spaces, token_end};

verus! {

/// Law: the lifecycle only advances. Every transition leaves the status rank
/// the same or higher, and a completed match admits no mutation at all.
pub proof fn lemma_status_monotone(
    g: GameView,
    user: Seq<char>,
    from: Seq<char>,
    to: Seq<char>,
    fen: Seq<char>,
    pgn: Seq<char>,
    result: Seq<char>,
    now_ms: int,
    now_iso: Seq<char>,
)
    ensures
        join_outcome(g, user) matches JoinOutcome::Joined { .. } ==> status_rank(g.status)
            <= status_rank(join_view(g, user, now_iso).status),
        move_allowed(g, user) ==> status_rank(g.status) <= status_rank(
            move_view(g, from, to, fen, pgn, now_ms, now_iso).status,
        ),
        resign_allowed(g) ==> status_rank(g.status) <= status_rank(
            resign_view(g, user, now_iso).status,
        ),
        game_over_allowed(g) ==> status_rank(g.status) <= status_rank(
            game_over_view(g, result, now_iso).status,
        ),
        offer_draw_allowed(g) ==> status_rank(g.status) <= status_rank(
            offer_draw_view(g, user, now_iso).status,
        ),
        accept_draw_allowed(g, user) ==> status_rank(g.status) <= status_rank(
            accept_draw_view(g, now_iso).status,
        ),
        decline_draw_allowed(g) ==> status_rank(g.status) <= status_rank(
            decline_draw_view(g, now_iso).status,
        ),
        timeout_allowed(g, now_ms) ==> status_rank(g.status) <= status_rank(
            timeout_view(g, now_ms, now_iso).status,
        ),
        abandon_allowed(g) ==> status_rank(g.status) <= status_rank(
            abandon_view(g, user, now_iso).status,
        ),
        g.status == GameStatus::Completed ==> {
            &&& !(join_outcome(g, user) matches JoinOutcome::Joined { .. })
            &&& !move_allowed(g, user)
            &&& !resign_allowed(g)
            &&& !game_over_allowed(g)
            &&& !offer_draw_allowed(g)
            &&& !accept_draw_allowed(g, user)
            &&& !decline_draw_allowed(g)
            &&& !timeout_allowed(g, now_ms)
            &&& !abandon_allowed(g)
        },
{
}

/// Law: an accepted move flips the turn, lengthens the move list by exactly
/// one, and leaves neither clock negative.
pub proof fn lemma_move_effects(
    g: GameView,
    user: Seq<char>,
    from: Seq<char>,
    to: Seq<char>,
    fen: Seq<char>,
    pgn: Seq<char>,
    now_ms: int,
    now_iso: Seq<char>,
)
    requires
        wf_game(g),
        move_allowed(g, user),
        0 <= now_ms <= i64::MAX,
    ensures
        move_view(g, from, to, fen, pgn, now_ms, now_iso).turn == other_color(g.turn),
        move_view(g, from, to, fen, pgn, now_ms, now_iso).moves.len() == g.moves.len() + 1,
        move_view(g, from, to, fen, pgn, now_ms, now_iso).white_time_ms >= 0,
        move_view(g, from, to, fen, pgn, now_ms, now_iso).black_time_ms >= 0,
        wf_game(move_view(g, from, to, fen, pgn, now_ms, now_iso)),
{
}

/// Law: the increment is credited to the mover from the second recorded move
/// onward, and never on the first recorded move.
pub proof fn lemma_increment_rule(
    g: GameView,
    user: Seq<char>,
    from: Seq<char>,
    to: Seq<char>,
    fen: Seq<char>,
    pgn: Seq<char>,
    now_ms: int,
    now_iso: Seq<char>,
)
    requires
        wf_game(g),
        move_allowed(g, user),
    ensures
        ({
            let done = move_view(g, from, to, fen, pgn, now_ms, now_iso);
            let charged = sub_floor(
                if g.turn == PlayerColor::White {
                    g.white_time_ms
                } else {
                    g.black_time_ms
                },
                elapsed_since(g.last_move_timestamp, now_ms),
            );
            let mover_after = if g.turn == PlayerColor::White {
                done.white_time_ms
            } else {
                done.black_time_ms
            };
            &&& (g.moves.len() == 0 ==> mover_after == charged)
            &&& (g.moves.len() >= 1 ==> mover_after == add_saturating(charged, g.increment_ms))
        }),
{
}

/// Law: of two racing completions, exactly one applies. Every completing
/// transition yields a completed record, and on a completed record every
/// completing transition — a resignation, a reported game over, a timeout
/// poll, a draw acceptance, an abandonment — is refused, so the loser of the
/// race observes a no-op.
pub proof fn lemma_exactly_once_completion(
    g: GameView,
    done: GameView,
    user: Seq<char>,
    user2: Seq<char>,
    result: Seq<char>,
    now_ms: int,
    now_iso: Seq<char>,
    later_ms: int,
)
    requires
        done == resign_view(g, user, now_iso) || done == game_over_view(g, result, now_iso) || done
            == timeout_view(g, now_ms, now_iso) || done == accept_draw_view(g, now_iso) || done
            == abandon_view(g, user, now_iso),
    ensures
        done.status == GameStatus::Completed,
        !resign_allowed(done),
        !game_over_allowed(done),
        !timeout_allowed(done, later_ms),
        !accept_draw_allowed(done, user2),
        !abandon_allowed(done),
        !move_allowed(done, user2),
{
}

/// Law: a disconnect followed by a reconnect of the same player to the same
/// match inside the grace window never resolves as abandonment — the expiry
/// check that later fires takes nothing and reports nothing to resolve.
pub proof fn lemma_reconnect_cancels_abandonment(
    t: Seq<crate::supervisor::DisconnectView>,
    user: Seq<char>,
    game_id: Seq<char>,
    now_ms: int,
)
    requires
        distinct_records(t),
    ensures
        ({
            let armed = disconnect_spec(t, user, game_id, now_ms);
            let rejoined = take_record_spec(armed, user, game_id).0;
            take_record_spec(rejoined, user, game_id).1 == false
        }),
{
    let armed = disconnect_spec(t, user, game_id, now_ms);
    assert(distinct_records(armed)) by {
        if !has_record(t, user) {
            assert forall|a: int, b: int| 0 <= a < b < armed.len() implies armed[a].username
                != armed[b].username by {
                if b < t.len() {
                    assert(t[a].username != t[b].username);
                } else {
                    assert(armed[b].username == user);
                    assert(armed[a] == t[a]);
                }
            }
        }
    }
    if has_record(armed, user) {
        let i = record_index(armed, user);
        assert(0 <= i < armed.len() && armed[i].username == user);
        if armed[i].game_id == game_id {
            let rejoined = armed.remove(i);
            assert(!has_record(rejoined, user)) by {
                assert forall|k: int| 0 <= k < rejoined.len() implies (
                #[trigger] rejoined[k]).username != user by {
                    if k < i {
                        assert(rejoined[k] == armed[k]);
                        assert(armed[k].username != armed[i].username);
                    } else {
                        assert(rejoined[k] == armed[k + 1]);
                        assert(armed[k + 1].username != armed[i].username);
                    }
                }
            }
        }
    }
}

/// Law: a disconnect with no reconnect before the window elapses always
/// resolves as abandonment, and consumes the record, so it resolves exactly
/// once.
pub proof fn lemma_unanswered_disconnect_abandons(
    t: Seq<crate::supervisor::DisconnectView>,
    user: Seq<char>,
    game_id: Seq<char>,
    now_ms: int,
)
    requires
        distinct_records(t),
        !has_record(t, user),
    ensures
        take_record_spec(disconnect_spec(t, user, game_id, now_ms), user, game_id).1 == true,
        !has_record(take_record_spec(disconnect_spec(t, user, game_id, now_ms), user, game_id).0, user),
{
    let armed = disconnect_spec(t, user, game_id, now_ms);
    assert(armed[t.len() as int].username == user);
    assert(has_record(armed, user));
    let i = record_index(armed, user);
    assert(0 <= i < armed.len() && armed[i].username == user);
    assert(i == t.len() as int) by {
        if i < t.len() {
            assert(t[i] == armed[i]);
            assert(has_record(t, user));
        }
    }
    assert(armed[i].game_id == game_id);
    let after = armed.remove(i);
    assert(after =~= t);
}

proof fn lemma_token_end_range(s: Seq<char>, k: int, upto: int)
    requires
        0 <= k <= upto < s.len(),
        forall|j: int| k <= j < upto ==> !is_ascii_space(#[trigger] s[j]),
        is_ascii_space(s[upto]),
    ensures
        token_end(s, k) == upto,
    decreases upto - k,
{
    if k < upto {
        lemma_token_end_range(s, k + 1, upto);
    }
}

/// For a player name without whitespace, a recorded text of the shape
/// `<name> <word>` has the name as its first token.
proof fn lemma_first_token_of_charge(user: Seq<char>, rest: Seq<char>)
    requires
        user.len() > 0,
        forall|i: int| 0 <= i < user.len() ==> !is_ascii_space(#[trigger] user[i]),
        rest.len() > 0,
        is_ascii_space(rest[0]),
    ensures
        first_token(user + rest) == Some(user),
{
    let s = user + rest;
    assert(s[0] == user[0]);
    assert(skip_spaces(s, 0) == 0);
    lemma_token_end_range(s, 0, user.len() as int);
    assert(s.subrange(0, user.len() as int) =~= user);
}

proof fn lemma_contains_at(hay: Seq<char>, needle: Seq<char>, at: int)
    requires
        0 <= at,
        at + needle.len() <= hay.len(),
        forall|j: int| 0 <= j < needle.len() ==> hay[at + j] == #[trigger] needle[j],
    ensures
        contains_seq(hay, needle),
{
    assert(hay.subrange(at, at + needle.len() as int) =~= needle);
}

/// Law: an abandonment charges the named player and records the opponent as
/// winner in the normalized summary, for every player name free of
/// whitespace.
pub proof fn lemma_abandonment_winner(g: GameView, user: Seq<char>, now_iso: Seq<char>)
    requires
        abandon_allowed(g),
        user.len() > 0,
        forall|i: int| 0 <= i < user.len() ==> !is_ascii_space(#[trigger] user[i]),
        g.white_player == Some(user) || g.black_player == Some(user),
    ensures
        ({
            let done = abandon_view(g, user, now_iso);
            &&& done.status == GameStatus::Completed
            &&& result_info_spec(done.result, done.white_player, done.black_player).1
                == opponent_of(g, user)
            &&& result_info_spec(done.result, done.white_player, done.black_player).0 == (
            if g.white_player == Some(user) {
                "0-1"@
            } else {
                "1-0"@
            })
        }),
{
    let suffix = " abandoned"@;
    let keyword = "abandoned"@;
    let txt = user + suffix;
    reveal_strlit(" abandoned");
    reveal_strlit("abandoned");
    assert(suffix.len() == 10 && keyword.len() == 9);
    assert(is_ascii_space(suffix[0]));
    lemma_first_token_of_charge(user, suffix);
    assert forall|j: int| 0 <= j < keyword.len() implies txt[user.len() + 1 + j]
        == #[trigger] keyword[j] by {
        assert(txt[user.len() as int + 1 + j] == suffix[1 + j]);
        assert(suffix[1 + j] == keyword[j]);
    }
    lemma_contains_at(txt, keyword, user.len() as int + 1);
}

/// Law: a resignation charges the named player and records the opponent as
/// winner in the normalized summary, for every player name free of
/// whitespace. The attribution holds even for a name that smuggles the
/// abandonment keyword, since both chargeable branches attribute by the
/// leading token.
pub proof fn lemma_resignation_winner(g: GameView, user: Seq<char>, now_iso: Seq<char>)
    requires
        resign_allowed(g),
        user.len() > 0,
        forall|i: int| 0 <= i < user.len() ==> !is_ascii_space(#[trigger] user[i]),
        g.white_player == Some(user) || g.black_player == Some(user),
    ensures
        ({
            let done = resign_view(g, user, now_iso);
            &&& done.status == GameStatus::Completed
            &&& result_info_spec(done.result, done.white_player, done.black_player).1
                == opponent_of(g, user)
            &&& result_info_spec(done.result, done.white_player, done.black_player).0 == (
            if g.white_player == Some(user) {
                "0-1"@
            } else {
                "1-0"@
            })
        }),
{
    let suffix = " resigned"@;
    let keyword = "resigned"@;
    let txt = user + suffix;
    reveal_strlit(" resigned");
    reveal_strlit("resigned");
    assert(suffix.len() == 9 && keyword.len() == 8);
    assert(is_ascii_space(suffix[0]));
    lemma_first_token_of_charge(user, suffix);
    assert forall|j: int| 0 <= j < keyword.len() implies txt[user.len() + 1 + j]
        == #[trigger] keyword[j] by {
        assert(txt[user.len() as int + 1 + j] == suffix[1 + j]);
        assert(suffix[1 + j] == keyword[j]);
    }
    lemma_contains_at(txt, keyword, user.len() as int + 1);
}

/// Law: a detected flag fall completes the match with the timeout reason,
/// records the fallen side's loss, floors both stored clocks at zero, and no
/// move is accepted afterwards — a late move event is a no-op.
pub proof fn lemma_timeout_outcome(
    g: GameView,
    user: Seq<char>,
    now_ms: int,
    now_iso: Seq<char>,
)
    requires
        wf_game(g),
        timeout_allowed(g, now_ms),
    ensures
        ({
            let done = timeout_view(g, now_ms, now_iso);
            &&& done.status == GameStatus::Completed
            &&& crate::results::classify_reason_spec(done.result, done.reason) == "timeout"@
            &&& (remaining_spec(g, now_ms).0 <= 0 ==> done.result == "Black wins on time"@)
            &&& (remaining_spec(g, now_ms).0 > 0 ==> done.result == "White wins on time"@)
            &&& done.white_time_ms >= 0
            &&& done.black_time_ms >= 0
            &&& !move_allowed(done, user)
        }),
{
}

} // verus!
