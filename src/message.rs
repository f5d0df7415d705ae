//! Message values and the decoding of an event payload into a message.
use vstd::prelude::*;

use crate::text::{eq_ignore_ascii_case, opt_view, wildcard};

verus! {

/// A message read from a channel, normalized for the gateway.
#[derive(Debug, Clone)]
pub struct ChannelMessage {
    pub id: String,
    pub sender: String,
    pub reply_target: String,
    pub content: String,
    pub channel: String,
    pub timestamp: u64,
}

/// The mathematical value of a normalized message.
pub struct MessageView {
    pub id: Seq<char>,
    pub sender: Seq<char>,
    pub reply_target: Seq<char>,
    pub content: Seq<char>,
    pub channel: Seq<char>,
    pub timestamp: u64,
}

impl View for ChannelMessage {
    type V = MessageView;

    open spec fn view(&self) -> MessageView {
        MessageView {
            id: self.id@,
            sender: self.sender@,
            reply_target: self.reply_target@,
            content: self.content@,
            channel: self.channel@,
            timestamp: self.timestamp,
        }
    }
}

/// A message to deliver through a channel.
#[derive(Debug, Clone)]
pub struct SendMessage {
    pub content: String,
    pub recipient: String,
}

impl SendMessage {
    /// A message with the given text for the given recipient.
    pub fn new(content: &str, recipient: &str) -> (r: Self)
        ensures
            r.content@ == content@,
            r.recipient@ == recipient@,
    {
        SendMessage { content: content.to_owned(), recipient: recipient.to_owned() }
    }
}

/// What the JSON text `text` holds under `key`: `None` when `text` is not a
/// JSON document; `Some(Some(s))` when it is an object whose member `key` is
/// the string `s`; `Some(None)` otherwise.
pub uninterp spec fn json_string_member(text: Seq<char>, key: Seq<char>) -> Option<
    Option<Seq<char>>,
>;

/// The view of a nested optional string.
pub open spec fn opt_opt_view(o: Option<Option<String>>) -> Option<Option<Seq<char>>> {
    match o {
        Some(inner) => Some(opt_view(inner)),
        None => None,
    }
}

/// Relies on `serde_json::from_str` into a `serde_json::Value`, then
/// `Value::get` and `Value::as_str`: parses `text` and reads its string
/// member `key`. The result depends on the two texts alone.
#[verifier::external_body]
fn parse_string_member(text: &str, key: &str) -> (r: Option<Option<String>>)
    ensures
        opt_opt_view(r) == json_string_member(text@, key@),
{
    match serde_json::from_str::<serde_json::Value>(text) {
        Ok(v) => Some(v.get(key).and_then(serde_json::Value::as_str).map(String::from)),
        Err(_) => None,
    }
}

/// The fields an event payload provides.
pub struct EventFields {
    pub sender: Seq<char>,
    pub content: Seq<char>,
    pub id: Seq<char>,
}

/// The text of an optional string member, empty when absent.
pub open spec fn or_empty(o: Option<Option<Seq<char>>>) -> Seq<char> {
    match o {
        Some(Some(s)) => s,
        _ => Seq::empty(),
    }
}

/// The fields of an event payload: `None` when it is not JSON. The content
/// is the `text` member, or the `content` member where `text` is no string;
/// a missing member reads as empty.
pub open spec fn event_fields(payload: Seq<char>) -> Option<EventFields> {
    match json_string_member(payload, "sender"@) {
        None => None,
        Some(sender) => Some(
            EventFields {
                sender: match sender {
                    Some(s) => s,
                    None => Seq::empty(),
                },
                content: match json_string_member(payload, "text"@) {
                    Some(Some(t)) => t,
                    _ => or_empty(json_string_member(payload, "content"@)),
                },
                id: or_empty(json_string_member(payload, "id"@)),
            },
        ),
    }
}

/// The texts of a sequence of strings.
pub open spec fn views(v: Seq<String>) -> Seq<Seq<char>> {
    v.map_values(|s: String| s@)
}

/// Whether an allow-list admits `sender`: it holds the wildcard `*`, or an
/// entry equal to `sender` up to ASCII case.
pub open spec fn contact_allowed(allowed: Seq<Seq<char>>, sender: Seq<char>) -> bool {
    exists|i: int|
        0 <= i < allowed.len() && (#[trigger] allowed[i] == wildcard() || eq_ignore_ascii_case(
            allowed[i],
            sender,
        ))
}

/// The message an event payload becomes on `channel` at `timestamp`: none
/// when the payload is not JSON, when its sender or content is empty, or
/// when the allow-list refuses the sender.
pub open spec fn message_of(
    payload: Seq<char>,
    allowed: Seq<Seq<char>>,
    channel: Seq<char>,
    timestamp: u64,
) -> Option<MessageView> {
    match event_fields(payload) {
        Some(f) => if f.sender.len() > 0 && f.content.len() > 0 && contact_allowed(
            allowed,
            f.sender,
        ) {
            Some(
                MessageView {
                    id: f.id,
                    sender: f.sender,
                    reply_target: f.sender,
                    content: f.content,
                    channel,
                    timestamp,
                },
            )
        } else {
            None
        },
        None => None,
    }
}

fn text_or_empty(o: Option<Option<String>>) -> (r: String)
    ensures
        r@ == or_empty(opt_opt_view(o)),
{
    match o {
        Some(Some(s)) => s,
        _ => String::new(),
    }
}

/// Reads the fields of an event payload; `None` when it is not JSON.
pub fn parse_event(payload: &str) -> (r: Option<(String, String, String)>)
    ensures
        match event_fields(payload@) {
            None => r is None,
            Some(f) => r is Some && (r->0).0@ == f.sender && (r->0).1@ == f.content && (r->0).2@
                == f.id,
        },
{
    let sender = match parse_string_member(payload, "sender") {
        None => return None,
        Some(s) => match s {
            Some(s) => s,
            None => String::new(),
        },
    };
    let content = match parse_string_member(payload, "text") {
        Some(Some(t)) => t,
        _ => text_or_empty(parse_string_member(payload, "content")),
    };
    let id = text_or_empty(parse_string_member(payload, "id"));
    Some((sender, content, id))
}

} // verus!
