//! Tests of result normalization, reason classification, transcript
//! construction, and the rules-engine adapter.

use chesslive::game::PlayerColor;
use chesslive::results::{
    classify_reason, construct_complete_pgn, get_game_result_info, GameEndReason,
};
use chesslive::rules::{evaluate_terminal, terminal_text, TerminalFlags};

fn seats() -> (Option<String>, Option<String>) {
    (Some("alice".to_string()), Some("bob".to_string()))
}

#[test]
fn result_info_abandonment_and_resignation() {
    let (w, b) = seats();
    assert_eq!(
        get_game_result_info("alice abandoned", &w, &b),
        ("0-1".to_string(), Some("bob".to_string()))
    );
    assert_eq!(
        get_game_result_info("bob abandoned", &w, &b),
        ("1-0".to_string(), Some("alice".to_string()))
    );
    assert_eq!(
        get_game_result_info("alice resigned", &w, &b),
        ("0-1".to_string(), Some("bob".to_string()))
    );
    assert_eq!(
        get_game_result_info("bob resigned", &w, &b),
        ("1-0".to_string(), Some("alice".to_string()))
    );
}

#[test]
fn result_info_time_and_checkmate() {
    let (w, b) = seats();
    assert_eq!(
        get_game_result_info("White wins on time", &w, &b),
        ("1-0".to_string(), Some("alice".to_string()))
    );
    assert_eq!(
        get_game_result_info("Black wins on time", &w, &b),
        ("0-1".to_string(), Some("bob".to_string()))
    );
    assert_eq!(
        get_game_result_info("White wins by checkmate", &w, &b),
        ("1-0".to_string(), Some("alice".to_string()))
    );
    assert_eq!(
        get_game_result_info("Black wins by checkmate", &w, &b),
        ("0-1".to_string(), Some("bob".to_string()))
    );
}

#[test]
fn result_info_draws_tokens_and_default() {
    let (w, b) = seats();
    assert_eq!(
        get_game_result_info("Draw by stalemate", &w, &b),
        ("1/2-1/2".to_string(), None)
    );
    assert_eq!(
        get_game_result_info("1-0", &w, &b),
        ("1-0".to_string(), Some("alice".to_string()))
    );
    assert_eq!(
        get_game_result_info("0-1", &w, &b),
        ("0-1".to_string(), Some("bob".to_string()))
    );
    assert_eq!(
        get_game_result_info("something else entirely", &w, &b),
        ("*".to_string(), None)
    );
    assert_eq!(get_game_result_info("", &w, &b), ("*".to_string(), None));
}

#[test]
fn reason_classification() {
    assert_eq!(classify_reason("Black wins on time", &None), "timeout");
    assert_eq!(classify_reason("0-1", &Some("timeout".to_string())), "timeout");
    assert_eq!(classify_reason("alice resigned", &None), "resignation");
    assert_eq!(classify_reason("White wins by checkmate", &None), "checkmate");
    assert_eq!(classify_reason("Draw by stalemate", &None), "stalemate");
    assert_eq!(classify_reason("Draw by agreement", &None), "draw");
    assert_eq!(classify_reason("bob abandoned", &None), "abandonment");
    assert_eq!(classify_reason("???", &None), "unknown");
    // The folding is case-insensitive on the result text.
    assert_eq!(classify_reason("ALICE RESIGNED", &None), "resignation");
}

#[test]
fn end_reason_tags() {
    assert_eq!(GameEndReason::Abandonment("a".to_string()).tag(), "abandonment");
    assert_eq!(GameEndReason::Timeout("a".to_string()).tag(), "timeout");
    assert_eq!(GameEndReason::Resignation("a".to_string()).tag(), "resignation");
    assert_eq!(GameEndReason::Checkmate.tag(), "checkmate");
    assert_eq!(GameEndReason::Stalemate.tag(), "stalemate");
    assert_eq!(GameEndReason::Draw.tag(), "draw");
}

#[test]
fn complete_pgn_layout() {
    let (w, b) = seats();
    let pgn = construct_complete_pgn(&w, &b, "1-0", "1. e4 e5", 300, 5, "2024.01.02");
    let expected = "[Event \"Casual Game\"]\n[Site \"chessdream.vercel.app\"]\n[Date \"2024.01.02\"]\n[White \"alice\"]\n[Black \"bob\"]\n[Result \"1-0\"]\n[WhiteElo \"1200\"]\n[BlackElo \"1200\"]\n[TimeControl \"300+5\"]\n[Variant \"Standard\"]\n\n1. e4 e5 1-0";
    assert_eq!(pgn, expected);
}

#[test]
fn complete_pgn_open_seats_show_placeholders() {
    let pgn = construct_complete_pgn(&None, &None, "*", "", 30, 0, "2024.01.02");
    assert!(pgn.contains("[White \"?\"]\n"));
    assert!(pgn.contains("[Black \"?\"]\n"));
    assert!(pgn.contains("[TimeControl \"30+0\"]\n"));
}

#[test]
fn rules_engine_reports_checkmate() {
    // Scholar's mate delivered: black is checkmated, black to move.
    let mated = "r1bqkb1r/pppp1Qpp/2n2n2/4p3/2B1P3/8/PPPP1PPP/RNB1K1NR b KQkq - 0 4";
    assert_eq!(
        evaluate_terminal(mated, PlayerColor::Black),
        Some("White wins by checkmate".to_string())
    );
}

#[test]
fn rules_engine_reports_stalemate_and_bare_kings() {
    // A classic stalemate: black king cornered, black to move, no check.
    let stalemate = "7k/5Q2/6K1/8/8/8/8/8 b - - 0 1";
    assert_eq!(
        evaluate_terminal(stalemate, PlayerColor::Black),
        Some("Draw by stalemate".to_string())
    );
    let bare_kings = "8/8/4k3/8/8/3K4/8/8 w - - 0 1";
    assert_eq!(
        evaluate_terminal(bare_kings, PlayerColor::White),
        Some("Draw by insufficient material".to_string())
    );
}

#[test]
fn rules_engine_tolerates_ongoing_and_malformed_positions() {
    let start = "rnbqkbnr/pppppppp/8/8/8/8/PPPPPPPP/RNBQKBNR w KQkq - 0 1";
    assert_eq!(evaluate_terminal(start, PlayerColor::White), None);
    assert_eq!(evaluate_terminal("not a position at all", PlayerColor::White), None);
    assert_eq!(evaluate_terminal("", PlayerColor::Black), None);
}

#[test]
fn terminal_text_is_exact_per_report() {
    let quiet = TerminalFlags {
        valid: true,
        checkmate: false,
        stalemate: false,
        insufficient_material: false,
    };
    assert_eq!(terminal_text(quiet, PlayerColor::White), None);
    let mate = TerminalFlags {
        valid: true,
        checkmate: true,
        stalemate: false,
        insufficient_material: false,
    };
    assert_eq!(
        terminal_text(mate, PlayerColor::Black),
        Some("White wins by checkmate".to_string())
    );
    assert_eq!(
        terminal_text(mate, PlayerColor::White),
        Some("Black wins by checkmate".to_string())
    );
    let invalid = TerminalFlags {
        valid: false,
        checkmate: true,
        stalemate: true,
        insufficient_material: true,
    };
    assert_eq!(terminal_text(invalid, PlayerColor::White), None);
}
