//! The clock engine: pure time accounting over a match record and a given
//! instant. Elapsed time is charged to the side on turn, remaining time is
//! floored at zero, and the increment is credited by the move transition in
//! [`crate::controller`].

use vstd::prelude::*;

use crate::game::{Game, GameStatus, GameView, PlayerColor};

verus! {

/// Milliseconds elapsed between the latest clock event and `now`; zero when
/// `now` does not lie after it.
pub open spec fn elapsed_since(last: int, now: int) -> int {
    if now >= last {
        now - last
    } else {
        0
    }
}

/// Remaining time after `elapsed` is charged, floored at zero.
pub open spec fn sub_floor(time: int, elapsed: int) -> int {
    if time >= elapsed {
        time - elapsed
    } else {
        0
    }
}

/// `time` plus a credit, saturated at the largest representable clock value.
pub open spec fn add_saturating(time: int, credit: int) -> int {
    if time + credit > i64::MAX {
        i64::MAX as int
    } else {
        time + credit
    }
}

/// Both sides' remaining time at instant `now`: the side on turn is charged
/// the time elapsed since the latest clock event, the other side keeps its
/// stored time.
pub open spec fn remaining_spec(g: GameView, now: int) -> (int, int) {
    let e = elapsed_since(g.last_move_timestamp, now);
    match g.turn {
        PlayerColor::White => (sub_floor(g.white_time_ms, e), g.black_time_ms),
        PlayerColor::Black => (g.white_time_ms, sub_floor(g.black_time_ms, e)),
    }
}

/// Either side's remaining time has reached zero at instant `now`.
pub open spec fn timed_out_spec(g: GameView, now: int) -> bool {
    remaining_spec(g, now).0 <= 0 || remaining_spec(g, now).1 <= 0
}

/// Executable form of [`add_saturating`].
pub fn saturating_add_ms(time: i64, credit: i64) -> (r: i64)
    requires
        time >= 0,
        credit >= 0,
    ensures
        r as int == add_saturating(time as int, credit as int),
        r >= 0,
{
    if time > i64::MAX - credit {
        i64::MAX
    } else {
        time + credit
    }
}

/// Executable form of [`remaining_spec`]. Both results are non-negative.
pub fn remaining_times(g: &Game, now_ms: i64) -> (r: (i64, i64))
    requires
        g.wf(),
    ensures
        (r.0 as int, r.1 as int) == remaining_spec(g@, now_ms as int),
        r.0 >= 0,
        r.1 >= 0,
{
    let e: i64 = if now_ms >= g.last_move_timestamp {
        now_ms - g.last_move_timestamp
    } else {
        0
    };
    match g.turn {
        PlayerColor::White => {
            let w = if g.white_time_ms >= e {
                g.white_time_ms - e
            } else {
                0
            };
            (w, g.black_time_ms)
        },
        PlayerColor::Black => {
            let b = if g.black_time_ms >= e {
                g.black_time_ms - e
            } else {
                0
            };
            (g.white_time_ms, b)
        },
    }
}

/// Executable form of [`timed_out_spec`].
pub fn is_timed_out(g: &Game, now_ms: i64) -> (r: bool)
    requires
        g.wf(),
    ensures
        r == timed_out_spec(g@, now_ms as int),
{
    let (w, b) = remaining_times(g, now_ms);
    w <= 0 || b <= 0
}

/// The live clock values broadcast on a time-sync request: present only for
/// an active match with both seats taken.
pub open spec fn time_sync_spec(g: GameView, now: int) -> Option<(int, int)> {
    if g.status == GameStatus::Active && g.white_player is Some && g.black_player is Some {
        Some(remaining_spec(g, now))
    } else {
        None
    }
}

/// Computes the clock values for a time-sync broadcast; `None` when the match
/// is not active or a seat is still open, in which case nothing is sent.
pub fn time_sync(g: &Game, now_ms: i64) -> (r: Option<(i64, i64)>)
    requires
        g.wf(),
    ensures
        match r {
            Some(t) => time_sync_spec(g@, now_ms as int) == Some((t.0 as int, t.1 as int)) && t.0
                >= 0 && t.1 >= 0,
            None => time_sync_spec(g@, now_ms as int) is None,
        },
{
    if !matches!(g.status, GameStatus::Active) {
        return None;
    }
    if g.white_player.is_none() || g.black_player.is_none() {
        return None;
    }
    Some(remaining_times(g, now_ms))
}

/// Relies on `std::time::SystemTime::now`: the current instant of the system
/// clock, converted here to whole milliseconds since the Unix epoch. Nothing
/// is assumed of the reading itself; the conversion forces the result to be
/// non-negative.
#[verifier::external_body]
pub fn current_timestamp_ms() -> (r: i64)
    ensures
        r >= 0,
{
    let millis = std::time::SystemTime::now()
        .duration_since(std::time::UNIX_EPOCH)
        .unwrap_or_default()
        .as_millis();
    i64::try_from(millis).unwrap_or(i64::MAX)
}

} // verus!
