//! Normalization of terminal results.
//!
//! A completed match stores a free-form result text recorded at the moment of
//! completion. These functions derive from it, deterministically and totally,
//! the standardized outcome token (`1-0`, `0-1`, `1/2-1/2`, or `*` when
//! unrecognized), the winner's identity (absent for draws and unrecognized
//! results), and a reason tag from a fixed enumeration, defaulting to
//! `unknown`.

use vstd::prelude::*;

use crate::text::{contains_seq, first_token, leading_token, lower_seq, str_contains, str_eq};

verus! {

/// The standardized outcome token and winner derived from a result text and
/// the two seats. Texts naming an abandoning or resigning player attribute
/// the win to the opponent of the named player; timed and checkmate texts
/// name the winning side; stalemate texts are draws.
pub open spec fn result_info_spec(
    s: Seq<char>,
    white: Option<Seq<char>>,
    black: Option<Seq<char>>,
) -> (Seq<char>, Option<Seq<char>>) {
    if contains_seq(s, "abandoned"@) {
        match first_token(s) {
            Some(tok) => if white == Some(tok) {
                ("0-1"@, black)
            } else {
                ("1-0"@, white)
            },
            None => ("*"@, None),
        }
    } else if contains_seq(s, "resigned"@) {
        match first_token(s) {
            Some(tok) => if white == Some(tok) {
                ("0-1"@, black)
            } else {
                ("1-0"@, white)
            },
            None => ("*"@, None),
        }
    } else if contains_seq(s, "time"@) {
        if contains_seq(s, "White wins"@) {
            ("1-0"@, white)
        } else if contains_seq(s, "Black wins"@) {
            ("0-1"@, black)
        } else {
            ("*"@, None)
        }
    } else if contains_seq(s, "checkmate"@) {
        if contains_seq(s, "White wins"@) {
            ("1-0"@, white)
        } else if contains_seq(s, "Black wins"@) {
            ("0-1"@, black)
        } else {
            ("*"@, None)
        }
    } else if contains_seq(s, "stalemate"@) || contains_seq(s, "draw"@) {
        ("1/2-1/2"@, None)
    } else if s == "1-0"@ {
        ("1-0"@, white)
    } else if s == "0-1"@ {
        ("0-1"@, black)
    } else {
        ("*"@, None)
    }
}

/// The ways a match ends; the chargeable endings carry the identity of the
/// player they are charged to.
#[derive(Debug)]
pub enum GameEndReason {
    /// The named player left and never returned inside the grace window.
    Abandonment(String),
    /// The named player's clock reached zero.
    Timeout(String),
    /// The named player resigned.
    Resignation(String),
    Checkmate,
    Stalemate,
    Draw,
}

/// The reason tag a terminal summary carries for each ending.
pub open spec fn reason_tag_spec(r: GameEndReason) -> Seq<char> {
    match r {
        GameEndReason::Abandonment(_) => "abandonment"@,
        GameEndReason::Timeout(_) => "timeout"@,
        GameEndReason::Resignation(_) => "resignation"@,
        GameEndReason::Checkmate => "checkmate"@,
        GameEndReason::Stalemate => "stalemate"@,
        GameEndReason::Draw => "draw"@,
    }
}

impl GameEndReason {
    /// The reason tag recorded in a terminal summary for this ending.
    pub fn tag(&self) -> (r: String)
        ensures
            r@ == reason_tag_spec(*self),
    {
        match self {
            GameEndReason::Abandonment(_) => String::from_str("abandonment"),
            GameEndReason::Timeout(_) => String::from_str("timeout"),
            GameEndReason::Resignation(_) => String::from_str("resignation"),
            GameEndReason::Checkmate => String::from_str("checkmate"),
            GameEndReason::Stalemate => String::from_str("stalemate"),
            GameEndReason::Draw => String::from_str("draw"),
        }
    }
}

fn clone_seat(o: &Option<String>) -> (r: Option<String>)
    ensures
        r.deep_view() == o.deep_view(),
{
    match o {
        Some(s) => Some(s.clone()),
        None => None,
    }
}

fn seat_is(o: &Option<String>, name: &str) -> (r: bool)
    ensures
        r == (o.deep_view() == Some(name@)),
{
    match o {
        Some(s) => str_eq(s.as_str(), name),
        None => false,
    }
}

/// Derives the standardized outcome token and the winner's identity from a
/// free-form result text; total over all inputs.
pub fn get_game_result_info(
    result_str: &str,
    white_player: &Option<String>,
    black_player: &Option<String>,
) -> (r: (String, Option<String>))
    ensures
        r.0@ == result_info_spec(result_str@, white_player.deep_view(), black_player.deep_view()).0,
        r.1.deep_view() == result_info_spec(
            result_str@,
            white_player.deep_view(),
            black_player.deep_view(),
        ).1,
{
    if str_contains(result_str, "abandoned") || str_contains(result_str, "resigned") {
        match leading_token(result_str) {
            Some(tok) => {
                if seat_is(white_player, tok.as_str()) {
                    return (String::from_str("0-1"), clone_seat(black_player));
                } else {
                    return (String::from_str("1-0"), clone_seat(white_player));
                }
            },
            None => {
                return (String::from_str("*"), None);
            },
        }
    }
    if str_contains(result_str, "time") || str_contains(result_str, "checkmate") {
        if str_contains(result_str, "White wins") {
            return (String::from_str("1-0"), clone_seat(white_player));
        } else if str_contains(result_str, "Black wins") {
            return (String::from_str("0-1"), clone_seat(black_player));
        } else {
            return (String::from_str("*"), None);
        }
    }
    if str_contains(result_str, "stalemate") || str_contains(result_str, "draw") {
        return (String::from_str("1/2-1/2"), None);
    }
    if str_eq(result_str, "1-0") {
        return (String::from_str("1-0"), clone_seat(white_player));
    }
    if str_eq(result_str, "0-1") {
        return (String::from_str("0-1"), clone_seat(black_player));
    }
    (String::from_str("*"), None)
}

/// The reason tag derived from the result text (compared after ASCII case
/// folding) and the stored reason field: one of `timeout`, `resignation`,
/// `checkmate`, `stalemate`, `draw`, `abandonment`, or `unknown`.
pub open spec fn classify_reason_spec(result: Seq<char>, stored: Option<Seq<char>>) -> Seq<char> {
    let low = lower_seq(result);
    if contains_seq(low, "time"@) || stored == Some("timeout"@) {
        "timeout"@
    } else if contains_seq(low, "resigned"@) {
        "resignation"@
    } else if contains_seq(low, "checkmate"@) {
        "checkmate"@
    } else if contains_seq(low, "stalemate"@) {
        "stalemate"@
    } else if contains_seq(low, "draw"@) || stored == Some("Draw"@) {
        "draw"@
    } else if contains_seq(low, "abandonment"@) || contains_seq(low, "abandoned"@) {
        "abandonment"@
    } else {
        "unknown"@
    }
}

/// Derives the reason tag for a terminal summary; total over all inputs.
pub fn classify_reason(result: &str, stored_reason: &Option<String>) -> (r: String)
    ensures
        r@ == classify_reason_spec(result@, stored_reason.deep_view()),
{
    let stored_timeout = match stored_reason {
        Some(s) => str_eq(s.as_str(), "timeout"),
        None => false,
    };
    let stored_draw = match stored_reason {
        Some(s) => str_eq(s.as_str(), "Draw"),
        None => false,
    };
    if crate::text::contains_lowered(result, "time") || stored_timeout {
        String::from_str("timeout")
    } else if crate::text::contains_lowered(result, "resigned") {
        String::from_str("resignation")
    } else if crate::text::contains_lowered(result, "checkmate") {
        String::from_str("checkmate")
    } else if crate::text::contains_lowered(result, "stalemate") {
        String::from_str("stalemate")
    } else if crate::text::contains_lowered(result, "draw") || stored_draw {
        String::from_str("draw")
    } else if crate::text::contains_lowered(result, "abandonment") || crate::text::contains_lowered(
        result,
        "abandoned",
    ) {
        String::from_str("abandonment")
    } else {
        String::from_str("unknown")
    }
}

/// The full tagged transcript of a completed match: the standard tag roster,
/// the moves, and the result token appended at the end.
pub open spec fn complete_pgn_spec(
    white: Option<Seq<char>>,
    black: Option<Seq<char>>,
    result: Seq<char>,
    base_pgn: Seq<char>,
    time_control: int,
    increment: int,
    date: Seq<char>,
) -> Seq<char> {
    "[Event \"Casual Game\"]\n"@ + "[Site \"chessdream.vercel.app\"]\n"@ + "[Date \""@ + date
        + "\"]\n"@ + "[White \""@ + (match white {
        Some(w) => w,
        None => "?"@,
    }) + "\"]\n"@ + "[Black \""@ + (match black {
        Some(b) => b,
        None => "?"@,
    }) + "\"]\n"@ + "[Result \""@ + result + "\"]\n"@ + "[WhiteElo \"1200\"]\n"@
        + "[BlackElo \"1200\"]\n"@ + "[TimeControl \""@ + crate::text::dec_str_i32(time_control)
        + "+"@ + crate::text::dec_str_i32(increment) + "\"]\n"@ + "[Variant \"Standard\"]\n"@
        + "\n"@ + base_pgn + " "@ + result
}

/// Builds the complete tagged transcript of a completed match. The date text
/// is supplied by the caller, which reads it from a calendar source.
pub fn construct_complete_pgn(
    white_player: &Option<String>,
    black_player: &Option<String>,
    result: &str,
    base_pgn: &str,
    time_control: i32,
    increment: i32,
    date: &str,
) -> (r: String)
    ensures
        r@ == complete_pgn_spec(
            white_player.deep_view(),
            black_player.deep_view(),
            result@,
            base_pgn@,
            time_control as int,
            increment as int,
            date@,
        ),
{
    let mut pgn = String::new();
    pgn.append("[Event \"Casual Game\"]\n");
    pgn.append("[Site \"chessdream.vercel.app\"]\n");
    pgn.append("[Date \"");
    pgn.append(date);
    pgn.append("\"]\n");
    pgn.append("[White \"");
    match white_player {
        Some(w) => pgn.append(w.as_str()),
        None => pgn.append("?"),
    }
    pgn.append("\"]\n");
    pgn.append("[Black \"");
    match black_player {
        Some(b) => pgn.append(b.as_str()),
        None => pgn.append("?"),
    }
    pgn.append("\"]\n");
    pgn.append("[Result \"");
    pgn.append(result);
    pgn.append("\"]\n");
    pgn.append("[WhiteElo \"1200\"]\n");
    pgn.append("[BlackElo \"1200\"]\n");
    pgn.append("[TimeControl \"");
    crate::text::push_i32(&mut pgn, time_control);
    pgn.append("+");
    crate::text::push_i32(&mut pgn, increment);
    pgn.append("\"]\n");
    pgn.append("[Variant \"Standard\"]\n");
    pgn.append("\n");
    pgn.append(base_pgn);
    pgn.append(" ");
    pgn.append(result);
    proof {
        assert(pgn@ =~= complete_pgn_spec(
            white_player.deep_view(),
            black_player.deep_view(),
            result@,
            base_pgn@,
            time_control as int,
            increment as int,
            date@,
        ));
    }
    pgn
}

} // verus!
