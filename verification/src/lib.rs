//! Live-session coordinator for a two-player, clock-timed board game.
//!
//! The crate holds the verified core: the match state machine, the clock
//! engine, the connection registry, the disconnection supervisor, and the
//! normalization of terminal results. Transport, persistence and timers are
//! left to the surrounding application, which drives these functions with
//! plain values.

pub mod chat;
pub mod clock;
pub mod controller;
pub mod game;
pub mod ids;
pub mod laws;
pub mod messages;
pub mod registry;
pub mod results;
pub mod rules;
pub mod supervisor;
pub mod text;
