//! Chat records and their delivery rules.
//!
//! A chat message is persisted and then broadcast: a public message reaches
//! every session of the match, a private one only the sender and the named
//! recipient. The history handed back to a player holds exactly the messages
//! visible to them, ordered by timestamp.

use vstd::prelude::*;

use crate::registry::{ConnView, PlayerConnection};

verus! {

/// One persisted chat record. Timestamps are epoch milliseconds.
pub struct ChatMessage {
    /// Unique identifier of the record.
    pub id: String,
    /// Identifier of the match the message belongs to.
    pub game_id: String,
    /// Player identity of the sender.
    pub sender: String,
    /// Message text.
    pub content: String,
    /// Epoch milliseconds at which the message was recorded.
    pub timestamp: i64,
    /// Public to the whole match, or private to the named recipient.
    pub visible_to_all: bool,
    /// Recipient of a private message.
    pub recipient: Option<String>,
}

/// Mathematical model of a [`ChatMessage`].
#[verifier::ext_equal]
pub struct ChatView {
    pub id: Seq<char>,
    pub game_id: Seq<char>,
    pub sender: Seq<char>,
    pub content: Seq<char>,
    pub timestamp: int,
    pub visible_to_all: bool,
    pub recipient: Option<Seq<char>>,
}

impl View for ChatMessage {
    type V = ChatView;

    open spec fn view(&self) -> ChatView {
        ChatView {
            id: self.id@,
            game_id: self.game_id@,
            sender: self.sender@,
            content: self.content@,
            timestamp: self.timestamp as int,
            visible_to_all: self.visible_to_all,
            recipient: self.recipient.deep_view(),
        }
    }
}

impl Clone for ChatMessage {
    fn clone(&self) -> (r: Self)
        ensures
            r == *self,
    {
        ChatMessage {
            id: self.id.clone(),
            game_id: self.game_id.clone(),
            sender: self.sender.clone(),
            content: self.content.clone(),
            timestamp: self.timestamp,
            visible_to_all: self.visible_to_all,
            recipient: match &self.recipient {
                Some(r) => Some(r.clone()),
                None => None,
            },
        }
    }
}

/// Relies on `uuid::Uuid::new_v4` and its hyphenated text form: a freshly
/// drawn random identifier, thirty-six characters long. Nothing else is
/// assumed of the value.
#[verifier::external_body]
fn new_message_id() -> (r: String)
    ensures
        r@.len() == 36,
{
    uuid::Uuid::new_v4().to_string()
}

/// Builds the chat record to persist and broadcast: a fresh identifier, the
/// given text and parties, and visibility derived from the presence of a
/// recipient.
pub fn make_chat_message(
    game_id: &str,
    sender: &str,
    content: &str,
    recipient: &Option<String>,
    timestamp_ms: i64,
) -> (m: ChatMessage)
    ensures
        m@.game_id == game_id@,
        m@.sender == sender@,
        m@.content == content@,
        m@.timestamp == timestamp_ms as int,
        m@.visible_to_all == (recipient.deep_view() is None),
        m@.recipient == recipient.deep_view(),
        m@.id.len() == 36,
{
    let rec = match recipient {
        Some(r) => Some(r.clone()),
        None => None,
    };
    ChatMessage {
        id: new_message_id(),
        game_id: String::from_str(game_id),
        sender: String::from_str(sender),
        content: String::from_str(content),
        timestamp: timestamp_ms,
        visible_to_all: rec.is_none(),
        recipient: rec,
    }
}

/// A persisted message is visible to a viewer when it is public, when the
/// viewer sent it, or when the viewer is its recipient.
pub open spec fn visible_to_spec(m: ChatView, viewer: Seq<char>) -> bool {
    m.visible_to_all || m.sender == viewer || m.recipient == Some(viewer)
}

/// Executable form of [`visible_to_spec`].
pub fn chat_visible_to(m: &ChatMessage, viewer: &str) -> (r: bool)
    ensures
        r == visible_to_spec(m@, viewer@),
{
    if m.visible_to_all {
        return true;
    }
    if crate::text::str_eq(m.sender.as_str(), viewer) {
        return true;
    }
    match &m.recipient {
        Some(rec) => crate::text::str_eq(rec.as_str(), viewer),
        None => false,
    }
}

/// A live session receives a fresh chat message when it belongs to the same
/// match and the message is public, or the session's player is the sender
/// or the recipient.
pub open spec fn chat_delivery_spec(conn: ConnView, m: ChatView) -> bool {
    conn.game_id == m.game_id && (match m.recipient {
        Some(rec) => conn.username == rec || conn.username == m.sender,
        None => true,
    })
}

/// Executable form of [`chat_delivery_spec`]; the broadcast loop asks it for
/// every session of the match.
pub fn chat_should_deliver(conn: &PlayerConnection, m: &ChatMessage) -> (r: bool)
    ensures
        r == chat_delivery_spec(conn@, m@),
{
    if !crate::text::str_eq(conn.game_id.as_str(), m.game_id.as_str()) {
        return false;
    }
    match &m.recipient {
        Some(rec) => crate::text::str_eq(conn.username.as_str(), rec.as_str())
            || crate::text::str_eq(conn.username.as_str(), m.sender.as_str()),
        None => true,
    }
}

/// Non-decreasing timestamps.
pub open spec fn sorted_by_time(s: Seq<ChatMessage>) -> bool {
    forall|i: int, j: int|
        0 <= i < j < s.len() ==> (#[trigger] s[i])@.timestamp <= (#[trigger] s[j])@.timestamp
}

/// Visibility of one record to one viewer, as a predicate value.
pub open spec fn visible_pred(viewer: Seq<char>) -> spec_fn(ChatMessage) -> bool {
    |m: ChatMessage| visible_to_spec(m@, viewer)
}

/// The records of `all` visible to `viewer`, in their stored order.
pub open spec fn visible_filter(all: Seq<ChatMessage>, viewer: Seq<char>) -> Seq<ChatMessage> {
    all.filter(visible_pred(viewer))
}

proof fn lemma_insert_to_multiset(s: Seq<ChatMessage>, p: int, m: ChatMessage)
    requires
        0 <= p <= s.len(),
    ensures
        s.insert(p, m).to_multiset() == s.to_multiset().insert(m),
{
    broadcast use vstd::seq_lib::group_to_multiset_ensures;

    let big = s.insert(p, m);
    assert(big.len() == s.len() + 1);
    assert(big.remove(p) =~= s);
    assert(big.remove(p).to_multiset() =~= big.to_multiset().remove(big[p]));
    assert(big[p] == m);
    assert(big.contains(m)) by {
        assert(big[p] == m);
    }
    assert(big.to_multiset().count(m) > 0);
    assert(big.to_multiset() =~= s.to_multiset().insert(m));
}

/// The history handed to a viewer: exactly the records visible to them,
/// ordered by timestamp.
pub fn visible_history(messages: &Vec<ChatMessage>, viewer: &str) -> (r: Vec<ChatMessage>)
    ensures
        sorted_by_time(r@),
        r@.to_multiset() == visible_filter(messages@, viewer@).to_multiset(),
{
    let mut out: Vec<ChatMessage> = Vec::new();
    let mut i: usize = 0;
    proof {
        reveal(Seq::filter);
        assert(out@ =~= messages@.subrange(0, 0).filter(visible_pred(viewer@)));
    }
    while i < messages.len()
        invariant
            0 <= i <= messages@.len(),
            sorted_by_time(out@),
            out@.to_multiset() == messages@.subrange(0, i as int).filter(
                visible_pred(viewer@),
            ).to_multiset(),
        decreases messages@.len() - i,
    {
        let m = messages[i].clone();
        let ghost sub = messages@.subrange(0, i as int);
        let ghost sub2 = messages@.subrange(0, i + 1);
        proof {
            reveal(Seq::filter);
            assert(m == messages@[i as int]);
            assert(sub2.drop_last() =~= sub);
            assert(sub2.last() == m);
        }
        if chat_visible_to(&m, viewer) {
            proof {
                assert(visible_pred(viewer@)(m));
                assert(sub2.filter(visible_pred(viewer@)) == sub.filter(visible_pred(viewer@)).push(
                    m,
                ));
            }
            let mut p: usize = 0;
            loop
                invariant
                    0 <= p <= out@.len(),
                    forall|t: int| 0 <= t < p ==> (#[trigger] out@[t])@.timestamp <= m@.timestamp,
                ensures
                    0 <= p <= out@.len(),
                    forall|t: int| 0 <= t < p ==> (#[trigger] out@[t])@.timestamp <= m@.timestamp,
                    p < out@.len() ==> out@[p as int]@.timestamp > m@.timestamp,
                decreases out@.len() - p,
            {
                if p >= out.len() {
                    break ;
                }
                if out[p].timestamp > m.timestamp {
                    break ;
                }
                p = p + 1;
            }
            let ghost out0 = out@;
            out.insert(p, m);
            proof {
                broadcast use vstd::seq_lib::group_to_multiset_ensures;

                assert(out@ == out0.insert(p as int, m));
                out0.insert_ensures(p as int, m);
                lemma_insert_to_multiset(out0, p as int, m);
                assert(sub.filter(visible_pred(viewer@)).push(m).to_multiset() =~= sub.filter(
                    visible_pred(viewer@),
                ).to_multiset().insert(m));
                assert(out@.to_multiset() =~= sub2.filter(visible_pred(viewer@)).to_multiset());
                assert forall|a: int, b: int| 0 <= a < b < out@.len() implies (
                #[trigger] out@[a])@.timestamp <= (#[trigger] out@[b])@.timestamp by {
                    let pi = p as int;
                    if b < pi {
                        assert(out@[a] == out0[a] && out@[b] == out0[b]);
                    } else if a < pi && b == pi {
                        assert(out@[a] == out0[a] && out@[b] == m);
                    } else if a < pi && b > pi {
                        assert(out@[a] == out0[a] && out@[b] == out0[b - 1]);
                    } else if a == pi {
                        assert(out@[a] == m && out@[b] == out0[b - 1]);
                        assert(out0[pi]@.timestamp > m@.timestamp);
                        assert(out0[pi]@.timestamp <= out0[b - 1]@.timestamp || pi == b - 1);
                    } else {
                        assert(out@[a] == out0[a - 1] && out@[b] == out0[b - 1]);
                    }
                }
            }
        } else {
            proof {
                assert(!visible_pred(viewer@)(m));
                assert(sub2.filter(visible_pred(viewer@)) == sub.filter(visible_pred(viewer@)));
            }
        }
        i = i + 1;
    }
    proof {
        assert(messages@.subrange(0, messages@.len() as int) =~= messages@);
    }
    out
}

} // verus!
