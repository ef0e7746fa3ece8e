//! The match record and its mathematical model.
//!
//! A [`Game`] is one instance of a two-player timed game: the players, the
//! position encoding, the transcript, the clocks, and the lifecycle status.
//! Every mutation of a match goes through the transition functions of
//! [`crate::controller`], which keep the record well formed.

use vstd::prelude::*;

verus! {

/// Lifecycle of a match. The status only ever advances in the order
/// waiting, active, completed.
#[derive(Clone, Copy, PartialEq, Eq, Structural, Debug)]
pub enum GameStatus {
    Waiting,
    Active,
    Completed,
}

/// The two sides of the board.
#[derive(Clone, Copy, PartialEq, Eq, Structural, Debug)]
pub enum PlayerColor {
    White,
    Black,
}

/// Position of a status in the lifecycle order.
pub open spec fn status_rank(s: GameStatus) -> int {
    match s {
        GameStatus::Waiting => 0,
        GameStatus::Active => 1,
        GameStatus::Completed => 2,
    }
}

/// The side that moves after `c` has moved.
pub open spec fn other_color(c: PlayerColor) -> PlayerColor {
    match c {
        PlayerColor::White => PlayerColor::Black,
        PlayerColor::Black => PlayerColor::White,
    }
}

/// The side that moves after `c` has moved.
pub fn flip_color(c: PlayerColor) -> (r: PlayerColor)
    ensures
        r == other_color(c),
{
    match c {
        PlayerColor::White => PlayerColor::Black,
        PlayerColor::Black => PlayerColor::White,
    }
}

/// Requested clock settings for a new match, in seconds.
#[derive(Clone, Copy, Debug)]
pub struct GameConfig {
    pub time_control: i32,
    pub increment: i32,
}

/// Smallest accepted time control, in seconds.
pub const MIN_TIME_CONTROL: i32 = 30;

/// Largest accepted time control, in seconds.
pub const MAX_TIME_CONTROL: i32 = 7200;

/// Smallest accepted increment, in seconds.
pub const MIN_INCREMENT: i32 = 0;

/// Largest accepted increment, in seconds.
pub const MAX_INCREMENT: i32 = 60;

/// Both the base time and the increment fall inside the configured bounds.
pub open spec fn valid_time_control(time_control: int, increment: int) -> bool {
    MIN_TIME_CONTROL <= time_control <= MAX_TIME_CONTROL && MIN_INCREMENT <= increment
        <= MAX_INCREMENT
}

/// A time control is acceptable when both the base time and the increment
/// fall inside the configured bounds.
pub fn is_valid_time_control(time_control: i32, increment: i32) -> (ok: bool)
    ensures
        ok == valid_time_control(time_control as int, increment as int),
{
    time_control >= MIN_TIME_CONTROL && time_control <= MAX_TIME_CONTROL && increment
        >= MIN_INCREMENT && increment <= MAX_INCREMENT
}

/// One match: identity, players, position, transcript, clocks and outcome.
/// Times are held both in whole seconds (the configured control) and in
/// milliseconds (the live clocks).
pub struct Game {
    /// Short public identifier of the match.
    pub id: String,
    /// Identity of the player holding the white pieces, once taken.
    pub white_player: Option<String>,
    /// Identity of the player holding the black pieces, once taken.
    pub black_player: Option<String>,
    /// Current position encoding.
    pub fen: String,
    /// Move-notation transcript.
    pub pgn: String,
    /// Lifecycle status.
    pub status: GameStatus,
    /// Timestamp text recorded when the match was created.
    pub created_at: String,
    /// Timestamp text recorded on the latest mutation.
    pub updated_at: String,
    /// The side to move.
    pub turn: PlayerColor,
    /// Accepted moves in compact origin-destination notation.
    pub moves: Vec<String>,
    /// Configured base time, in seconds.
    pub white_time: i32,
    /// Configured base time, in seconds.
    pub black_time: i32,
    /// Timestamp text of the latest move or clock start.
    pub last_move_time: String,
    /// Configured increment, in seconds.
    pub increment: i32,
    /// White's remaining time, in milliseconds.
    pub white_time_ms: i64,
    /// Black's remaining time, in milliseconds.
    pub black_time_ms: i64,
    /// Epoch milliseconds of the latest move or clock start.
    pub last_move_timestamp: i64,
    /// Configured increment, in milliseconds.
    pub increment_ms: i64,
    /// Free-form terminal result text; empty while the match runs.
    pub result: String,
    /// Identity of the player with a pending draw offer, if any.
    pub draw_offered_by: Option<String>,
    /// Terminal reason tag recorded by some completion paths.
    pub reason: Option<String>,
}

/// Mathematical model of a [`Game`].
#[verifier::ext_equal]
pub struct GameView {
    pub id: Seq<char>,
    pub white_player: Option<Seq<char>>,
    pub black_player: Option<Seq<char>>,
    pub fen: Seq<char>,
    pub pgn: Seq<char>,
    pub status: GameStatus,
    pub created_at: Seq<char>,
    pub updated_at: Seq<char>,
    pub turn: PlayerColor,
    pub moves: Seq<Seq<char>>,
    pub white_time: int,
    pub black_time: int,
    pub last_move_time: Seq<char>,
    pub increment: int,
    pub white_time_ms: int,
    pub black_time_ms: int,
    pub last_move_timestamp: int,
    pub increment_ms: int,
    pub result: Seq<char>,
    pub draw_offered_by: Option<Seq<char>>,
    pub reason: Option<Seq<char>>,
}

impl View for Game {
    type V = GameView;

    open spec fn view(&self) -> GameView {
        GameView {
            id: self.id@,
            white_player: self.white_player.deep_view(),
            black_player: self.black_player.deep_view(),
            fen: self.fen@,
            pgn: self.pgn@,
            status: self.status,
            created_at: self.created_at@,
            updated_at: self.updated_at@,
            turn: self.turn,
            moves: self.moves.deep_view(),
            white_time: self.white_time as int,
            black_time: self.black_time as int,
            last_move_time: self.last_move_time@,
            increment: self.increment as int,
            white_time_ms: self.white_time_ms as int,
            black_time_ms: self.black_time_ms as int,
            last_move_timestamp: self.last_move_timestamp as int,
            increment_ms: self.increment_ms as int,
            result: self.result@,
            draw_offered_by: self.draw_offered_by.deep_view(),
            reason: self.reason.deep_view(),
        }
    }
}

/// Well-formedness of a match record: clocks and timestamps are never
/// negative. Every constructor establishes it and every transition keeps it.
pub open spec fn wf_game(g: GameView) -> bool {
    &&& 0 <= g.white_time_ms <= i64::MAX
    &&& 0 <= g.black_time_ms <= i64::MAX
    &&& 0 <= g.increment_ms <= i64::MAX
    &&& 0 <= g.last_move_timestamp <= i64::MAX
}

impl Game {
    /// Well-formedness of this record; see [`wf_game`].
    pub open spec fn wf(&self) -> bool {
        wf_game(self@)
    }
}

/// The color whose slot `user` occupies, if any. When a corrupt record names
/// the same identity on both sides, the white slot takes precedence.
pub open spec fn seat_of(g: GameView, user: Seq<char>) -> Option<PlayerColor> {
    if g.white_player == Some(user) {
        Some(PlayerColor::White)
    } else if g.black_player == Some(user) {
        Some(PlayerColor::Black)
    } else {
        None
    }
}

/// The identity seated opposite `user`: black's seat when `user` holds white,
/// and white's seat otherwise.
pub open spec fn opponent_of(g: GameView, user: Seq<char>) -> Option<Seq<char>> {
    if g.white_player == Some(user) {
        g.black_player
    } else {
        g.white_player
    }
}

/// Executable form of [`seat_of`].
pub fn seat_of_player(g: &Game, user: &str) -> (r: Option<PlayerColor>)
    ensures
        r == seat_of(g@, user@),
{
    match &g.white_player {
        Some(w) => {
            if crate::text::str_eq(w.as_str(), user) {
                return Some(PlayerColor::White);
            }
        },
        None => {},
    }
    match &g.black_player {
        Some(b) => {
            if crate::text::str_eq(b.as_str(), user) {
                return Some(PlayerColor::Black);
            }
        },
        None => {},
    }
    None
}

/// Executable form of [`opponent_of`]; clones the seated identity.
pub fn opponent_of_player(g: &Game, user: &str) -> (r: Option<String>)
    ensures
        r.deep_view() == opponent_of(g@, user@),
{
    let is_white = match &g.white_player {
        Some(w) => crate::text::str_eq(w.as_str(), user),
        None => false,
    };
    if is_white {
        match &g.black_player {
            Some(b) => Some(b.clone()),
            None => None,
        }
    } else {
        match &g.white_player {
            Some(w) => Some(w.clone()),
            None => None,
        }
    }
}

/// Whether a character lies in a Unicode letter or number category; the
/// classification an external table answers.
pub uninterp spec fn is_unicode_alphanumeric(c: char) -> bool;

/// Relies on `char::is_alphanumeric`: whether the character lies in a
/// Unicode letter or number category, a property of the character alone.
#[verifier::external_body]
fn char_is_alphanumeric(c: char) -> (r: bool)
    ensures
        r == is_unicode_alphanumeric(c),
{
    c.is_alphanumeric()
}

/// An acceptable player identity: three to thirty characters, each a letter,
/// a number, or a hyphen.
pub open spec fn valid_username_seq(s: Seq<char>) -> bool {
    3 <= s.len() <= 30 && forall|i: int|
        0 <= i < s.len() ==> is_unicode_alphanumeric(#[trigger] s[i]) || s[i] == '-'
}

/// Checks a player identity against [`valid_username_seq`].
pub fn validate_username(username: &str) -> (ok: bool)
    ensures
        ok == valid_username_seq(username@),
{
    let len = username.unicode_len();
    if len < 3 || len > 30 {
        return false;
    }
    let mut i: usize = 0;
    while i < len
        invariant
            0 <= i <= len,
            len == username@.len(),
            forall|k: int|
                0 <= k < i ==> is_unicode_alphanumeric(#[trigger] username@[k]) || username@[k]
                    == '-',
        decreases len - i,
    {
        let c = username.get_char(i);
        if !(char_is_alphanumeric(c) || c == '-') {
            return false;
        }
        i = i + 1;
    }
    true
}

/// Starting-position encoding of a fresh match.
pub open spec fn start_fen() -> Seq<char> {
    "rnbqkbnr/pppppppp/8/8/8/8/PPPPPPPP/RNBQKBNR w KQkq - 0 1"@
}

/// The record of a fresh match: status waiting, both seats open, white to
/// move, both clocks at the configured base time.
pub open spec fn new_game_view(
    id: Seq<char>,
    time_control: int,
    increment: int,
    now_ms: int,
    now_iso: Seq<char>,
) -> GameView {
    GameView {
        id: id,
        white_player: None,
        black_player: None,
        fen: start_fen(),
        pgn: Seq::empty(),
        status: GameStatus::Waiting,
        created_at: now_iso,
        updated_at: now_iso,
        turn: PlayerColor::White,
        moves: Seq::empty(),
        white_time: time_control,
        black_time: time_control,
        last_move_time: now_iso,
        increment: increment,
        white_time_ms: time_control * 1000,
        black_time_ms: time_control * 1000,
        last_move_timestamp: now_ms,
        increment_ms: increment * 1000,
        result: Seq::empty(),
        draw_offered_by: None,
        reason: None,
    }
}

/// Creates the record of a fresh match from an accepted configuration.
pub fn new_game(id: String, config: GameConfig, now_ms: i64, now_iso: String) -> (g: Game)
    requires
        valid_time_control(config.time_control as int, config.increment as int),
        now_ms >= 0,
    ensures
        g@ == new_game_view(
            id@,
            config.time_control as int,
            config.increment as int,
            now_ms as int,
            now_iso@,
        ),
        g.wf(),
{
    let g = Game {
        id: id,
        white_player: None,
        black_player: None,
        fen: String::from_str("rnbqkbnr/pppppppp/8/8/8/8/PPPPPPPP/RNBQKBNR w KQkq - 0 1"),
        pgn: String::new(),
        status: GameStatus::Waiting,
        created_at: now_iso.clone(),
        updated_at: now_iso.clone(),
        turn: PlayerColor::White,
        moves: Vec::new(),
        white_time: config.time_control,
        black_time: config.time_control,
        last_move_time: now_iso,
        increment: config.increment,
        white_time_ms: (config.time_control as i64) * 1000,
        black_time_ms: (config.time_control as i64) * 1000,
        last_move_timestamp: now_ms,
        increment_ms: (config.increment as i64) * 1000,
        result: String::new(),
        draw_offered_by: None,
        reason: None,
    };
    proof {
        assert(g@.moves =~= Seq::<Seq<char>>::empty());
        assert(g@ =~= new_game_view(
            id@,
            config.time_control as int,
            config.increment as int,
            now_ms as int,
            now_iso@,
        ));
    }
    g
}

} // verus!
