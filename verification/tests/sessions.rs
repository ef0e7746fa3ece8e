//! Tests of the connection registry, the disconnection supervisor, the chat
//! rules, the identifier handling, and the text helpers.

use chesslive::chat::{
    chat_should_deliver, chat_visible_to, make_chat_message, visible_history, ChatMessage,
};
use chesslive::clock::current_timestamp_ms;
use chesslive::game::PlayerColor;
use chesslive::ids::{generate_game_id, is_valid_game_id_format};
use chesslive::registry::{ConnectionRegistry, PlayerConnection};
use chesslive::supervisor::DisconnectionTable;
use chesslive::text::{leading_token, str_contains, str_eq};

fn conn(id: &str, game: &str, user: &str, color: PlayerColor) -> PlayerConnection {
    PlayerConnection {
        id: id.to_string(),
        game_id: game.to_string(),
        username: user.to_string(),
        color,
    }
}

#[test]
fn registry_replaces_on_reconnect_and_removes_by_connection() {
    let mut reg = ConnectionRegistry::new();
    reg.register(conn("c1", "g1", "alice", PlayerColor::White));
    reg.register(conn("c2", "g1", "bob", PlayerColor::Black));
    assert_eq!(reg.len(), 2);

    // A newer connection for the same player replaces the session.
    reg.register(conn("c3", "g1", "alice", PlayerColor::White));
    assert_eq!(reg.len(), 2);
    let alice = reg.session_for_player("alice").expect("alice is connected");
    assert_eq!(alice.id, "c3");

    // Removing the stale connection identity touches nothing.
    reg.remove_connection("c1");
    assert_eq!(reg.len(), 2);
    // Removing the live one removes exactly that session.
    reg.remove_connection("c3");
    assert_eq!(reg.len(), 1);
    assert!(reg.session_for_player("alice").is_none());
    assert!(reg.session_for_player("bob").is_some());
}

#[test]
fn registry_fans_out_per_match() {
    let mut reg = ConnectionRegistry::new();
    reg.register(conn("c1", "g1", "alice", PlayerColor::White));
    reg.register(conn("c2", "g1", "bob", PlayerColor::Black));
    reg.register(conn("c3", "g2", "carol", PlayerColor::White));

    let g1 = reg.sessions_for_game("g1");
    assert_eq!(g1.len(), 2);
    assert!(g1.iter().all(|c| c.game_id == "g1"));

    let others = reg.sessions_for_game_except("g1", "alice");
    assert_eq!(others.len(), 1);
    assert_eq!(others[0].username, "bob");

    assert!(reg.sessions_for_game("g3").is_empty());
}

#[test]
fn supervisor_reconnect_cancels_abandonment() {
    let mut table = DisconnectionTable::new();
    assert!(table.note_disconnect("alice", "g1", 1_000));
    // A second drop of the same player arms nothing new.
    assert!(!table.note_disconnect("alice", "g1", 2_000));
    // The player rejoins the same match inside the window.
    assert!(table.note_reconnect("alice", "g1"));
    // The timer that later fires finds no record and abandons nothing.
    assert!(!table.resolve_expiry("alice", "g1"));
}

#[test]
fn supervisor_expiry_resolves_exactly_once() {
    let mut table = DisconnectionTable::new();
    assert!(table.note_disconnect("alice", "g1", 1_000));
    assert!(table.resolve_expiry("alice", "g1"));
    // The record was consumed: the resolution cannot fire twice.
    assert!(!table.resolve_expiry("alice", "g1"));
}

#[test]
fn supervisor_ignores_records_of_other_matches() {
    let mut table = DisconnectionTable::new();
    assert!(table.note_disconnect("alice", "g1", 1_000));
    // A rejoin into a different match leaves the record armed.
    assert!(!table.note_reconnect("alice", "g2"));
    // A timer keyed to a different match does not abandon it either.
    assert!(!table.resolve_expiry("alice", "g2"));
    // The record is still owed to its own match.
    assert!(table.resolve_expiry("alice", "g1"));
}

#[test]
fn chat_visibility_and_delivery() {
    let public = make_chat_message("g1", "alice", "hi", &None, 5);
    assert_eq!(public.id.len(), 36);
    assert!(public.visible_to_all);
    assert!(chat_visible_to(&public, "carol"));

    let private = make_chat_message("g1", "alice", "psst", &Some("bob".to_string()), 6);
    assert!(!private.visible_to_all);
    assert!(chat_visible_to(&private, "alice"));
    assert!(chat_visible_to(&private, "bob"));
    assert!(!chat_visible_to(&private, "carol"));

    let bob = conn("c2", "g1", "bob", PlayerColor::Black);
    let carol = conn("c3", "g1", "carol", PlayerColor::White);
    let elsewhere = conn("c4", "g2", "bob", PlayerColor::White);
    assert!(chat_should_deliver(&bob, &private));
    assert!(!chat_should_deliver(&carol, &private));
    assert!(chat_should_deliver(&carol, &public));
    assert!(!chat_should_deliver(&elsewhere, &public));
}

fn chat_at(sender: &str, recipient: Option<&str>, at: i64) -> ChatMessage {
    make_chat_message("g1", sender, "m", &recipient.map(|r| r.to_string()), at)
}

#[test]
fn chat_history_is_filtered_and_ordered() {
    let messages = vec![
        chat_at("alice", None, 30),
        chat_at("bob", Some("alice"), 10),
        chat_at("alice", Some("bob"), 20),
        chat_at("bob", None, 5),
    ];
    let history = visible_history(&messages, "carol");
    let times: Vec<i64> = history.iter().map(|m| m.timestamp).collect();
    assert_eq!(times, vec![5, 30]); // only the public ones, oldest first

    let history = visible_history(&messages, "alice");
    let times: Vec<i64> = history.iter().map(|m| m.timestamp).collect();
    assert_eq!(times, vec![5, 10, 20, 30]);
}

#[test]
fn game_ids_are_well_formed_and_fresh() {
    let id = generate_game_id();
    assert!(is_valid_game_id_format(&id));
    assert_eq!(id.len(), 10);
    let other = generate_game_id();
    assert!(is_valid_game_id_format(&other));

    assert!(is_valid_game_id_format("abc1234567"));
    assert!(!is_valid_game_id_format("abc123456")); // nine characters
    assert!(!is_valid_game_id_format("ABC1234567")); // uppercase
    assert!(!is_valid_game_id_format("abc12345-7")); // punctuation
}

#[test]
fn timestamps_are_nonnegative_milliseconds() {
    let t1 = current_timestamp_ms();
    let t2 = current_timestamp_ms();
    assert!(t1 > 0);
    assert!(t2 >= t1);
}

#[test]
fn text_helpers() {
    assert!(str_eq("abc", "abc"));
    assert!(!str_eq("abc", "abd"));
    assert!(!str_eq("abc", "abcd"));
    assert!(str_contains("alice resigned", "resigned"));
    assert!(!str_contains("alice resigned", "abandoned"));
    assert!(str_contains("anything", ""));
    assert_eq!(leading_token("alice resigned"), Some("alice".to_string()));
    assert_eq!(leading_token("  spaced  out"), Some("spaced".to_string()));
    assert_eq!(leading_token("   "), None);
    assert_eq!(leading_token(""), None);
}
