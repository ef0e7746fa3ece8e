//! Unit tests of the match state machine: joins, moves, completions, and
//! the exactly-once behaviour of racing completions.

use chesslive::clock::time_sync;
use chesslive::controller::{
    apply_abandonment, apply_draw_accept, apply_draw_offer, apply_game_over, apply_join,
    apply_move, apply_resign, apply_timeout, poll_tick, stamp_clock_start, JoinOutcome,
    PollDecision,
};
use chesslive::game::{
    is_valid_time_control, new_game, validate_username, Game, GameConfig, GameStatus, PlayerColor,
};

fn fresh(now_ms: i64) -> Game {
    new_game(
        "abc1234567".to_string(),
        GameConfig {
            time_control: 300,
            increment: 5,
        },
        now_ms,
        "iso0".to_string(),
    )
}

fn active(now_ms: i64) -> Game {
    let (g, _) = apply_join(fresh(now_ms), "alice", "iso1".to_string());
    let (g, _) = apply_join(g, "bob", "iso2".to_string());
    stamp_clock_start(g, now_ms, "iso3".to_string())
}

#[test]
fn time_control_bounds() {
    assert!(is_valid_time_control(30, 0));
    assert!(is_valid_time_control(7200, 60));
    assert!(!is_valid_time_control(29, 0));
    assert!(!is_valid_time_control(7201, 0));
    assert!(!is_valid_time_control(300, -1));
    assert!(!is_valid_time_control(300, 61));
}

#[test]
fn username_validation() {
    assert!(validate_username("bob"));
    assert!(validate_username("a-b-c"));
    assert!(!validate_username("ab"));
    assert!(!validate_username("has space"));
    assert!(!validate_username(
        "aaaaaaaaaaaaaaaaaaaaaaaaaaaaaaa" // thirty-one characters
    ));
}

#[test]
fn join_is_full_for_a_third_player() {
    let (g, _) = apply_join(fresh(0), "alice", "i".to_string());
    let (g, _) = apply_join(g, "bob", "i".to_string());
    let (g, outcome) = apply_join(g, "carol", "i".to_string());
    assert!(matches!(outcome, JoinOutcome::Full));
    assert_eq!(g.white_player, Some("alice".to_string()));
    assert_eq!(g.black_player, Some("bob".to_string()));
}

#[test]
fn join_of_a_seated_player_is_a_reconnection() {
    let (g, _) = apply_join(fresh(0), "alice", "i".to_string());
    let (g, outcome) = apply_join(g, "alice", "i".to_string());
    assert!(matches!(
        outcome,
        JoinOutcome::Reconnected {
            color: PlayerColor::White
        }
    ));
    // The seats are untouched: black is still open.
    assert_eq!(g.black_player, None);
    assert!(matches!(g.status, GameStatus::Waiting));
}

#[test]
fn join_of_a_completed_match_reports_the_summary_only() {
    let g = active(0);
    let (g, _) = apply_resign(g, "alice", "i".to_string());
    let (g, outcome) = apply_join(g, "carol", "i".to_string());
    assert!(matches!(outcome, JoinOutcome::AlreadyCompleted));
    assert!(matches!(g.status, GameStatus::Completed));
}

#[test]
fn moves_alternate_turns_and_append() {
    let g = active(0);
    assert!(matches!(g.turn, PlayerColor::White));
    let (g, ok) = apply_move(
        g,
        "alice",
        "e2",
        "e4",
        "f1".to_string(),
        "1. e4".to_string(),
        1_000,
        "i".to_string(),
    );
    assert!(ok);
    assert!(matches!(g.turn, PlayerColor::Black));
    let (g, ok) = apply_move(
        g,
        "bob",
        "e7",
        "e5",
        "f2".to_string(),
        "1. e4 e5".to_string(),
        2_000,
        "i".to_string(),
    );
    assert!(ok);
    assert!(matches!(g.turn, PlayerColor::White));
    assert_eq!(g.moves, vec!["e2e4".to_string(), "e7e5".to_string()]);
    assert!(g.white_time_ms >= 0 && g.black_time_ms >= 0);
}

#[test]
fn out_of_turn_and_outsider_moves_are_rejected() {
    let g = active(0);
    let (g, ok) = apply_move(
        g,
        "bob",
        "e7",
        "e5",
        "f".to_string(),
        "p".to_string(),
        1_000,
        "i".to_string(),
    );
    assert!(!ok);
    let (g, ok) = apply_move(
        g,
        "mallory",
        "e2",
        "e4",
        "f".to_string(),
        "p".to_string(),
        1_000,
        "i".to_string(),
    );
    assert!(!ok);
    assert!(g.moves.is_empty());
}

#[test]
fn increment_credited_from_second_move_onward() {
    let g = active(0);
    // First recorded move: ten seconds used, no increment.
    let (g, _) = apply_move(
        g,
        "alice",
        "e2",
        "e4",
        "f".to_string(),
        "p".to_string(),
        10_000,
        "i".to_string(),
    );
    assert_eq!(g.white_time_ms, 290_000);
    // Second recorded move: five seconds used, five seconds credited.
    let (g, _) = apply_move(
        g,
        "bob",
        "e7",
        "e5",
        "f".to_string(),
        "p".to_string(),
        15_000,
        "i".to_string(),
    );
    assert_eq!(g.black_time_ms, 300_000);
    // Third move: white used five more seconds, now credited.
    let (g, _) = apply_move(
        g,
        "alice",
        "g1",
        "f3",
        "f".to_string(),
        "p".to_string(),
        20_000,
        "i".to_string(),
    );
    assert_eq!(g.white_time_ms, 290_000);
}

#[test]
fn clock_floors_at_zero_on_overlong_think() {
    let g = active(0);
    let (g, ok) = apply_move(
        g,
        "alice",
        "e2",
        "e4",
        "f".to_string(),
        "p".to_string(),
        400_000,
        "i".to_string(),
    );
    assert!(ok);
    assert_eq!(g.white_time_ms, 0);
}

#[test]
fn racing_completions_apply_exactly_once() {
    let g = active(0);
    let (g, first) = apply_resign(g, "alice", "i".to_string());
    assert!(first);
    // The timeout poll that raced the resignation observes a no-op.
    let result_before = g.result.clone();
    let (g, second) = apply_timeout(g, 1_000_000, "i2".to_string());
    assert!(!second);
    assert_eq!(g.result, result_before);
    assert_eq!(g.updated_at, "i");
    // So do a second resignation, a game over, an abandonment, an accept.
    let (g, r) = apply_resign(g, "bob", "i3".to_string());
    assert!(!r);
    let (g, r) = apply_game_over(g, "1-0".to_string(), "i4".to_string());
    assert!(!r);
    let (g, r) = apply_abandonment(g, "bob", "i5".to_string());
    assert!(!r);
    let (g, r) = apply_draw_accept(g, "bob", "i6".to_string());
    assert!(!r);
    assert_eq!(g.result, "alice resigned");
}

#[test]
fn status_never_moves_backward() {
    let g = active(0);
    assert!(matches!(g.status, GameStatus::Active));
    // No transition returns a waiting record from an active one.
    let (g, _) = apply_draw_offer(g, "alice", "i".to_string());
    assert!(matches!(g.status, GameStatus::Active));
    let (g, _) = apply_game_over(g, "0-1".to_string(), "i".to_string());
    assert!(matches!(g.status, GameStatus::Completed));
    // Completed stays completed under every further event.
    let (g, _) = apply_join(g, "alice", "i".to_string());
    assert!(matches!(g.status, GameStatus::Completed));
    let (g, _) = apply_draw_offer(g, "alice", "i".to_string());
    assert!(matches!(g.status, GameStatus::Completed));
    assert_eq!(g.result, "0-1");
}

#[test]
fn game_over_applies_only_to_active_matches() {
    let waiting = fresh(0);
    let (g, applied) = apply_game_over(waiting, "1-0".to_string(), "i".to_string());
    assert!(!applied);
    assert!(matches!(g.status, GameStatus::Waiting));

    let (g2, applied2) = apply_game_over(active(0), "1-0".to_string(), "i".to_string());
    assert!(applied2);
    assert!(matches!(g2.status, GameStatus::Completed));
    assert_eq!(g2.result, "1-0");
}

#[test]
fn abandonment_completes_with_reason() {
    let g = active(0);
    let (g, applied) = apply_abandonment(g, "bob", "i".to_string());
    assert!(applied);
    assert!(matches!(g.status, GameStatus::Completed));
    assert_eq!(g.result, "bob abandoned");
    assert_eq!(g.reason, Some("abandonment".to_string()));
}

#[test]
fn draw_accept_requires_opposing_offer() {
    let g = active(0);
    // No offer pending.
    let (g, r) = apply_draw_accept(g, "bob", "i".to_string());
    assert!(!r);
    // One's own offer cannot be accepted.
    let (g, _) = apply_draw_offer(g, "alice", "i".to_string());
    let (g, r) = apply_draw_accept(g, "alice", "i".to_string());
    assert!(!r);
    // The opponent's acceptance completes the match by agreement.
    let (g, r) = apply_draw_accept(g, "bob", "i".to_string());
    assert!(r);
    assert!(matches!(g.status, GameStatus::Completed));
    assert_eq!(g.result, "Draw by agreement");
    assert_eq!(g.draw_offered_by, None);
}

#[test]
fn timeout_charges_the_side_on_turn() {
    let mut g = active(0);
    g.turn = PlayerColor::Black;
    g.black_time_ms = 500;
    let (done, fired) = apply_timeout(g, 600, "i".to_string());
    assert!(fired);
    assert_eq!(done.result, "White wins on time");
    assert_eq!(done.black_time_ms, 0);
    assert_eq!(done.white_time_ms, 300_000);
}

#[test]
fn no_timeout_while_time_remains() {
    let g = active(0);
    let (g, fired) = apply_timeout(g, 100_000, "i".to_string());
    assert!(!fired);
    assert!(matches!(g.status, GameStatus::Active));
}

#[test]
fn moves_are_rejected_before_the_match_starts() {
    let (g, _) = apply_join(fresh(0), "alice", "i".to_string());
    let (g, ok) = apply_move(
        g,
        "alice",
        "e2",
        "e4",
        "f".to_string(),
        "p".to_string(),
        1_000,
        "i".to_string(),
    );
    assert!(!ok);
    assert!(g.moves.is_empty());
    assert!(matches!(g.status, GameStatus::Waiting));
}

#[test]
fn time_sync_reports_only_running_matches() {
    // A waiting match with one seat open has no clocks to report.
    let (g, _) = apply_join(fresh(0), "alice", "i".to_string());
    assert_eq!(time_sync(&g, 1_000), None);
    // An active match reports the side on turn charged for the elapsed time.
    let g = active(0);
    assert_eq!(time_sync(&g, 10_000), Some((290_000, 300_000)));
    // A completed match reports nothing.
    let (g, _) = apply_resign(g, "alice", "i".to_string());
    assert_eq!(time_sync(&g, 20_000), None);
}

#[test]
fn clock_stamp_resets_the_reference_instant() {
    let g = active(1_000);
    let g = stamp_clock_start(g, 50_000, "i9".to_string());
    assert_eq!(g.last_move_timestamp, 50_000);
    assert_eq!(g.updated_at, "i9");
    // A move right after the stamp is charged from the stamp, not earlier.
    let (g, ok) = apply_move(
        g,
        "alice",
        "e2",
        "e4",
        "f".to_string(),
        "p".to_string(),
        51_000,
        "i".to_string(),
    );
    assert!(ok);
    assert_eq!(g.white_time_ms, 299_000);
}

#[test]
fn poller_stops_without_a_running_match() {
    assert!(matches!(
        poll_tick(None, 1_000, "i".to_string()),
        PollDecision::Stop
    ));
    assert!(matches!(
        poll_tick(Some(fresh(0)), 1_000, "i".to_string()),
        PollDecision::Stop
    ));
    assert!(matches!(
        poll_tick(Some(active(0)), 1_000, "i".to_string()),
        PollDecision::Wait
    ));
}

#[test]
fn new_game_starts_waiting_with_white_to_move() {
    let g = fresh(7);
    assert!(matches!(g.status, GameStatus::Waiting));
    assert!(matches!(g.turn, PlayerColor::White));
    assert_eq!(g.white_player, None);
    assert_eq!(g.black_player, None);
    assert_eq!(
        g.fen,
        "rnbqkbnr/pppppppp/8/8/8/8/PPPPPPPP/RNBQKBNR w KQkq - 0 1"
    );
    assert_eq!(g.moves.len(), 0);
    assert_eq!(g.last_move_timestamp, 7);
    assert_eq!(g.result, "");
    assert_eq!(g.draw_offered_by, None);
    assert_eq!(g.reason, None);
}
