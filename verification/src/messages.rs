//! The protocol vocabulary: inbound events, outbound events, and the
//! builders that derive outbound events from a match record.
//!
//! The transport serializes these as tagged self-describing messages; here
//! they are plain values, and the builders' contracts pin every derived
//! field to the record it came from.

use vstd::prelude::*;

use crate::chat::ChatMessage;
use crate::game::{Game, GameStatus, PlayerColor};

verus! {

/// Inbound protocol events, one per client request.
pub enum ClientMessage {
    JoinGame { game_id: String, username: String, time_control: i32, increment: i32 },
    Move {
        game_id: String,
        username: String,
        from: String,
        to: String,
        pgn: String,
        fen: String,
        timestamp: i64,
    },
    RequestTimeSync { game_id: String },
    GameOver { game_id: String, result: String },
    Resign { game_id: String, username: String },
    OfferDraw { game_id: String, username: String },
    AcceptDraw { game_id: String, username: String },
    DeclineDraw { game_id: String, username: String },
    ChatMessage { game_id: String, username: String, content: String, recipient: Option<String> },
}

/// Outbound protocol events, delivered by the transport to the sessions the
/// caller selects.
pub enum ServerMessage {
    GameNotFound { message: String },
    GameJoined {
        game_id: String,
        color: PlayerColor,
        opponent: Option<String>,
        fen: String,
        pgn: String,
        turn: PlayerColor,
        moves: Vec<String>,
        white_time: i32,
        black_time: i32,
        increment: i32,
    },
    GameFull { message: String },
    OpponentJoined { username: String },
    GameResigned { username: String, winner: String },
    MoveMade {
        from: String,
        to: String,
        fen: String,
        pgn: String,
        by_username: String,
        turn: PlayerColor,
        white_time_ms: i64,
        black_time_ms: i64,
    },
    Error { message: String },
    TimeUpdate { white_time_ms: i64, black_time_ms: i64 },
    GameOver { result: String },
    GameCompleted {
        game_id: String,
        white_player: Option<String>,
        black_player: Option<String>,
        fen: String,
        pgn: String,
        moves: Vec<String>,
        result: String,
        status: GameStatus,
        winner: Option<String>,
        reason: String,
        time_control: i32,
        increment: i32,
        white_time_left: i64,
        black_time_left: i64,
    },
    DrawOffered { by_username: String },
    DrawDeclined { by_username: String },
    ChatMessageReceived {
        id: String,
        game_id: String,
        sender: String,
        content: String,
        timestamp: i64,
        is_private: bool,
        recipient: Option<String>,
    },
    ChatHistory { messages: Vec<ChatMessage> },
}

fn clone_seat(o: &Option<String>) -> (r: Option<String>)
    ensures
        r.deep_view() == o.deep_view(),
{
    match o {
        Some(s) => Some(s.clone()),
        None => None,
    }
}

fn clone_moves(v: &Vec<String>) -> (r: Vec<String>)
    ensures
        r.deep_view() == v.deep_view(),
{
    let mut out: Vec<String> = Vec::new();
    let mut i: usize = 0;
    while i < v.len()
        invariant
            0 <= i <= v@.len(),
            out@.len() == i,
            forall|k: int| 0 <= k < i ==> #[trigger] out@[k]@ == v@[k]@,
        decreases v@.len() - i,
    {
        out.push(v[i].clone());
        i = i + 1;
    }
    proof {
        assert(out.deep_view() =~= v.deep_view());
    }
    out
}

/// The state message sent to a player who has just joined or rejoined: the
/// full current record, their seat, and the opposing seat's identity.
pub fn game_joined_message(color: PlayerColor, g: &Game) -> (r: ServerMessage)
    ensures
        (r matches ServerMessage::GameJoined {
            game_id,
            color: c,
            opponent,
            fen,
            pgn,
            turn,
            moves,
            white_time,
            black_time,
            increment,
        } && game_id@ == g@.id && c == color && opponent.deep_view() == (match color {
            PlayerColor::White => g@.black_player,
            PlayerColor::Black => g@.white_player,
        }) && fen@ == g@.fen && pgn@ == g@.pgn && turn == g@.turn && moves.deep_view() == g@.moves
            && white_time as int == g@.white_time && black_time as int == g@.black_time
            && increment as int == g@.increment),
{
    let opponent = match color {
        PlayerColor::White => clone_seat(&g.black_player),
        PlayerColor::Black => clone_seat(&g.white_player),
    };
    ServerMessage::GameJoined {
        game_id: g.id.clone(),
        color,
        opponent,
        fen: g.fen.clone(),
        pgn: g.pgn.clone(),
        turn: g.turn,
        moves: clone_moves(&g.moves),
        white_time: g.white_time,
        black_time: g.black_time,
        increment: g.increment,
    }
}

/// The broadcast sent after an accepted move: the move, the new position and
/// transcript, the mover, the new turn, and both clocks as stored.
pub fn move_made_message(g: &Game, from: &str, to: &str, by_username: &str) -> (r: ServerMessage)
    ensures
        (r matches ServerMessage::MoveMade {
            from: f,
            to: t,
            fen,
            pgn,
            by_username: by,
            turn,
            white_time_ms,
            black_time_ms,
        } && f@ == from@ && t@ == to@ && fen@ == g@.fen && pgn@ == g@.pgn && by@ == by_username@
            && turn == g@.turn && white_time_ms as int == g@.white_time_ms && black_time_ms as int
            == g@.black_time_ms),
{
    ServerMessage::MoveMade {
        from: String::from_str(from),
        to: String::from_str(to),
        fen: g.fen.clone(),
        pgn: g.pgn.clone(),
        by_username: String::from_str(by_username),
        turn: g.turn,
        white_time_ms: g.white_time_ms,
        black_time_ms: g.black_time_ms,
    }
}

/// The resignation notice: who resigned, and the opposing seat as winner —
/// an empty name when that seat was never taken.
pub fn game_resigned_message(g: &Game, username: &str) -> (r: ServerMessage)
    ensures
        (r matches ServerMessage::GameResigned { username: u, winner } && u@ == username@
            && winner@ == (match crate::game::opponent_of(g@, username@) {
            Some(w) => w,
            None => Seq::<char>::empty(),
        })),
{
    let winner = match crate::game::opponent_of_player(g, username) {
        Some(w) => w,
        None => String::new(),
    };
    ServerMessage::GameResigned { username: String::from_str(username), winner }
}

/// The terminal summary of a completed match: the stored record with the
/// standardized result, the winner it names, the reason tag, and the full
/// tagged transcript. The configured base time doubles as the time-control
/// field, as the record keeps it there.
pub fn completed_game_message(g: &Game, date: &str) -> (r: ServerMessage)
    ensures
        (r matches ServerMessage::GameCompleted {
            game_id,
            white_player,
            black_player,
            fen,
            pgn,
            moves,
            result,
            status,
            winner,
            reason,
            time_control,
            increment,
            white_time_left,
            black_time_left,
        } && game_id@ == g@.id && white_player.deep_view() == g@.white_player
            && black_player.deep_view() == g@.black_player && fen@ == g@.fen && moves.deep_view()
            == g@.moves && result@ == crate::results::result_info_spec(
            g@.result,
            g@.white_player,
            g@.black_player,
        ).0 && winner.deep_view() == crate::results::result_info_spec(
            g@.result,
            g@.white_player,
            g@.black_player,
        ).1 && reason@ == crate::results::classify_reason_spec(g@.result, g@.reason) && pgn@
            == crate::results::complete_pgn_spec(
            g@.white_player,
            g@.black_player,
            crate::results::result_info_spec(g@.result, g@.white_player, g@.black_player).0,
            g@.pgn,
            g@.white_time,
            g@.increment,
            date@,
        ) && status == g@.status && time_control as int == g@.white_time && increment as int
            == g@.increment && white_time_left as int == g@.white_time_ms && black_time_left as int
            == g@.black_time_ms),
{
    let (standardized_result, winner) = crate::results::get_game_result_info(
        g.result.as_str(),
        &g.white_player,
        &g.black_player,
    );
    let reason = crate::results::classify_reason(g.result.as_str(), &g.reason);
    let full_pgn = crate::results::construct_complete_pgn(
        &g.white_player,
        &g.black_player,
        standardized_result.as_str(),
        g.pgn.as_str(),
        g.white_time,
        g.increment,
        date,
    );
    ServerMessage::GameCompleted {
        game_id: g.id.clone(),
        white_player: clone_seat(&g.white_player),
        black_player: clone_seat(&g.black_player),
        fen: g.fen.clone(),
        pgn: full_pgn,
        moves: clone_moves(&g.moves),
        result: standardized_result,
        status: g.status,
        winner,
        reason,
        time_control: g.white_time,
        increment: g.increment,
        white_time_left: g.white_time_ms,
        black_time_left: g.black_time_ms,
    }
}

/// The broadcast for a freshly persisted chat record.
pub fn chat_received_message(m: &ChatMessage) -> (r: ServerMessage)
    ensures
        (r matches ServerMessage::ChatMessageReceived {
            id,
            game_id,
            sender,
            content,
            timestamp,
            is_private,
            recipient,
        } && id@ == m@.id && game_id@ == m@.game_id && sender@ == m@.sender && content@
            == m@.content && timestamp as int == m@.timestamp && is_private == !m@.visible_to_all
            && recipient.deep_view() == m@.recipient),
{
    ServerMessage::ChatMessageReceived {
        id: m.id.clone(),
        game_id: m.game_id.clone(),
        sender: m.sender.clone(),
        content: m.content.clone(),
        timestamp: m.timestamp,
        is_private: !m.visible_to_all,
        recipient: clone_seat(&m.recipient),
    }
}

} // verus!
