//! The rules-engine adapter: terminal-condition evaluation of a position
//! encoding, and the result text the match controller records for it.
//!
//! The evaluation itself is the work of an external rules engine; this crate
//! names its report and proves everything downstream of it. A malformed
//! encoding is reported as no terminal condition detected, so the move path
//! never fails on it.

use vstd::prelude::*;

use crate::game::PlayerColor;
use shakmaty::Position;

verus! {

/// Terminal-condition report for one position encoding.
#[derive(Clone, Copy, PartialEq, Eq, Structural, Debug)]
pub struct TerminalFlags {
    /// The encoding parsed into a playable position.
    pub valid: bool,
    /// The side to move is checkmated.
    pub checkmate: bool,
    /// The side to move is stalemated.
    pub stalemate: bool,
    /// Neither side retains mating material.
    pub insufficient_material: bool,
}

/// The rules engine's report for a position encoding; a function of the
/// encoding alone.
pub uninterp spec fn position_flags(fen: Seq<char>) -> TerminalFlags;

/// Relies on shakmaty: `fen::Fen::from_ascii` parses the encoding,
/// `Fen::into_position::<Chess>` builds the position (tolerating extra
/// material and impossible checks through `PositionError`'s
/// `ignore_too_much_material` and `ignore_impossible_check`), and the
/// `Position` queries `is_checkmate`, `is_stalemate` and
/// `is_insufficient_material` report the terminal conditions. The report is
/// a function of the encoding alone.
#[verifier::external_body]
fn evaluate_fen(fen: &str) -> (r: TerminalFlags)
    ensures
        r == position_flags(fen@),
{
    let rejected = TerminalFlags { valid: false, checkmate: false, stalemate: false, insufficient_material: false };
    let parsed = match shakmaty::fen::Fen::from_ascii(fen.as_bytes()) {
        Ok(f) => f,
        Err(_) => return rejected,
    };
    let built = parsed.into_position::<shakmaty::Chess>(shakmaty::CastlingMode::Standard)
        .or_else(shakmaty::PositionError::ignore_too_much_material)
        .or_else(shakmaty::PositionError::ignore_impossible_check);
    match built {
        Ok(pos) => TerminalFlags { valid: true, checkmate: pos.is_checkmate(), stalemate: pos.is_stalemate(), insufficient_material: pos.is_insufficient_material() },
        Err(_) => rejected,
    }
}

/// The result text recorded for a terminal report, written from the side now
/// off turn — the side that has just moved and delivered the position. An
/// invalid encoding, like a quiet position, yields no terminal text.
pub open spec fn terminal_text_spec(flags: TerminalFlags, new_turn: PlayerColor) -> Option<
    Seq<char>,
> {
    if !flags.valid {
        None
    } else if flags.checkmate {
        Some(
            if new_turn == PlayerColor::White {
                "Black wins by checkmate"@
            } else {
                "White wins by checkmate"@
            },
        )
    } else if flags.stalemate {
        Some("Draw by stalemate"@)
    } else if flags.insufficient_material {
        Some("Draw by insufficient material"@)
    } else {
        None
    }
}

/// The result text for a given terminal report; exact for every report
/// value.
pub fn terminal_text(flags: TerminalFlags, new_turn: PlayerColor) -> (r: Option<String>)
    ensures
        r.deep_view() == terminal_text_spec(flags, new_turn),
{
    if !flags.valid {
        None
    } else if flags.checkmate {
        match new_turn {
            PlayerColor::White => Some(String::from_str("Black wins by checkmate")),
            PlayerColor::Black => Some(String::from_str("White wins by checkmate")),
        }
    } else if flags.stalemate {
        Some(String::from_str("Draw by stalemate"))
    } else if flags.insufficient_material {
        Some(String::from_str("Draw by insufficient material"))
    } else {
        None
    }
}

/// Evaluates a position encoding and returns the result text to record, or
/// `None` when the game goes on — also for an encoding the rules engine
/// rejects.
pub fn evaluate_terminal(fen: &str, new_turn: PlayerColor) -> (r: Option<String>)
    ensures
        r.deep_view() == terminal_text_spec(position_flags(fen@), new_turn),
{
    let flags = evaluate_fen(fen);
    terminal_text(flags, new_turn)
}

} // verus!
