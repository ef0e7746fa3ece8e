//! End-to-end scenarios: two players play a match through the transition
//! functions, exactly as the surrounding application drives them.

use chesslive::controller::{
    apply_draw_accept, apply_draw_decline, apply_draw_offer, apply_join, apply_move, apply_resign,
    poll_tick, stamp_clock_start, JoinOutcome, PollDecision,
};
use chesslive::game::{new_game, Game, GameConfig, GameStatus, PlayerColor};
use chesslive::messages::{completed_game_message, game_joined_message, ServerMessage};
use chesslive::registry::{ConnectionRegistry, PlayerConnection};
use chesslive::results::get_game_result_info;

fn fresh_game(now_ms: i64) -> Game {
    new_game(
        "abc1234567".to_string(),
        GameConfig {
            time_control: 300,
            increment: 5,
        },
        now_ms,
        "2024-01-01T00:00:00Z".to_string(),
    )
}

fn active_game(now_ms: i64) -> Game {
    let g = fresh_game(now_ms);
    let (g, o1) = apply_join(g, "alice", "iso1".to_string());
    assert!(matches!(
        o1,
        JoinOutcome::Joined {
            color: PlayerColor::White,
            activated: false
        }
    ));
    let (g, o2) = apply_join(g, "bob", "iso2".to_string());
    assert!(matches!(
        o2,
        JoinOutcome::Joined {
            color: PlayerColor::Black,
            activated: true
        }
    ));
    stamp_clock_start(g, now_ms, "iso3".to_string())
}

#[test]
fn scenario_two_players_join_and_white_moves() {
    let g = fresh_game(1_000);
    assert!(matches!(g.status, GameStatus::Waiting));
    assert_eq!(g.white_time_ms, 300_000);
    assert_eq!(g.black_time_ms, 300_000);
    assert_eq!(g.increment_ms, 5_000);

    let (g, o1) = apply_join(g, "alice", "iso1".to_string());
    match o1 {
        JoinOutcome::Joined { color, activated } => {
            assert!(matches!(color, PlayerColor::White));
            assert!(!activated);
            match game_joined_message(color, &g) {
                ServerMessage::GameJoined {
                    color, opponent, ..
                } => {
                    assert!(matches!(color, PlayerColor::White));
                    assert_eq!(opponent, None);
                }
                _ => panic!("expected GameJoined"),
            }
        }
        _ => panic!("expected a seat assignment"),
    }

    let (g, o2) = apply_join(g, "bob", "iso2".to_string());
    match o2 {
        JoinOutcome::Joined { color, activated } => {
            assert!(matches!(color, PlayerColor::Black));
            assert!(activated);
            match game_joined_message(color, &g) {
                ServerMessage::GameJoined {
                    color, opponent, ..
                } => {
                    assert!(matches!(color, PlayerColor::Black));
                    assert_eq!(opponent, Some("alice".to_string()));
                }
                _ => panic!("expected GameJoined"),
            }
        }
        _ => panic!("expected a seat assignment"),
    }
    assert!(matches!(g.status, GameStatus::Active));

    // Clock starts at 1_000; white answers after ten seconds.
    let g = stamp_clock_start(g, 1_000, "iso3".to_string());
    let (g, accepted) = apply_move(
        g,
        "alice",
        "e2",
        "e4",
        "rnbqkbnr/pppppppp/8/8/4P3/8/PPPP1PPP/RNBQKBNR b KQkq - 0 1".to_string(),
        "1. e4".to_string(),
        11_000,
        "iso4".to_string(),
    );
    assert!(accepted);
    assert_eq!(g.white_time_ms, 290_000); // charged ten seconds, no increment on move one
    assert_eq!(g.black_time_ms, 300_000);
    assert!(matches!(g.turn, PlayerColor::Black));
    assert_eq!(g.moves, vec!["e2e4".to_string()]);
}

#[test]
fn scenario_resignation_names_opponent_as_winner() {
    let g = active_game(1_000);
    let (g, applied) = apply_resign(g, "alice", "iso4".to_string());
    assert!(applied);
    assert!(matches!(g.status, GameStatus::Completed));
    assert_eq!(g.result, "alice resigned");

    let (result, winner) =
        get_game_result_info(&g.result, &g.white_player, &g.black_player);
    assert_eq!(result, "0-1");
    assert_eq!(winner, Some("bob".to_string()));

    match completed_game_message(&g, "2024.01.01") {
        ServerMessage::GameCompleted {
            result,
            winner,
            reason,
            status,
            ..
        } => {
            assert_eq!(result, "0-1");
            assert_eq!(winner, Some("bob".to_string()));
            assert_eq!(reason, "resignation");
            assert!(matches!(status, GameStatus::Completed));
        }
        _ => panic!("expected GameCompleted"),
    }
}

#[test]
fn scenario_flag_fall_is_detected_within_one_poll() {
    let mut g = active_game(0);
    g.white_time_ms = 1_000; // white has one second left
    let decision = poll_tick(Some(g), 2_000, "iso4".to_string());
    let done = match decision {
        PollDecision::Complete { game } => game,
        _ => panic!("expected a completion"),
    };
    assert!(matches!(done.status, GameStatus::Completed));
    assert_eq!(done.result, "Black wins on time");
    assert_eq!(done.reason, Some("timeout".to_string()));
    assert_eq!(done.white_time_ms, 0);
    assert_eq!(done.black_time_ms, 300_000);

    let (result, winner) =
        get_game_result_info(&done.result, &done.white_player, &done.black_player);
    assert_eq!(result, "0-1");
    assert_eq!(winner, Some("bob".to_string()));

    // A late move event after completion is a no-op.
    let moves_before = done.moves.clone();
    let (after, accepted) = apply_move(
        done,
        "alice",
        "e2",
        "e4",
        "x".to_string(),
        "1. e4".to_string(),
        3_000,
        "iso5".to_string(),
    );
    assert!(!accepted);
    assert!(matches!(after.status, GameStatus::Completed));
    assert_eq!(after.moves, moves_before);

    // The poller itself stops on the now-completed match.
    assert!(matches!(
        poll_tick(Some(after), 4_000, "iso6".to_string()),
        PollDecision::Stop
    ));
}

#[test]
fn scenario_declined_draw_clears_offer_and_blocks_accept() {
    let g = active_game(1_000);
    let (g, offered) = apply_draw_offer(g, "alice", "iso4".to_string());
    assert!(offered);
    assert_eq!(g.draw_offered_by, Some("alice".to_string()));

    // Only the offering player is notified of the decline.
    let mut registry = ConnectionRegistry::new();
    registry.register(PlayerConnection {
        id: "c1".to_string(),
        game_id: "abc1234567".to_string(),
        username: "alice".to_string(),
        color: PlayerColor::White,
    });
    registry.register(PlayerConnection {
        id: "c2".to_string(),
        game_id: "abc1234567".to_string(),
        username: "bob".to_string(),
        color: PlayerColor::Black,
    });
    let targets = registry.sessions_for_game_except("abc1234567", "bob");
    assert_eq!(targets.len(), 1);
    assert_eq!(targets[0].username, "alice");

    let (g, declined) = apply_draw_decline(g, "iso5".to_string());
    assert!(declined);
    assert_eq!(g.draw_offered_by, None);

    // A later accept without a fresh offer is a no-op.
    let (g, accepted) = apply_draw_accept(g, "bob", "iso6".to_string());
    assert!(!accepted);
    assert!(matches!(g.status, GameStatus::Active));
    assert_eq!(g.result, "");
}
