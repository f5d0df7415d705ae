//! The streaming channel adapter for the HTTP messaging bridge: its
//! configuration and endpoints, the verdicts on the bridge's responses, and
//! the turning of stream bytes into normalized messages.
use vstd::prelude::*;

use crate::message::{contact_allowed, message_of, parse_event, views, ChannelMessage, MessageView};
use crate::sse::{feed, texts, SseDecoder};
use crate::text::{
    decimal, eq_ignore_ascii_case, str_eq_ignore_ascii_case, is_wildcard, strip_trailing, to_decimal, trim_end_char,
    wildcard,
};

verus! {

#[verifier::external_type_specification]
#[verifier::external_body]
pub struct ExClient(reqwest::Client);

/// Per-request timeout of the HTTP client, in seconds.
pub const REQUEST_TIMEOUT_SECS: u64 = 30;

/// Relies on `reqwest::ClientBuilder::timeout` and `build`: a client whose
/// requests time out after `timeout_secs` seconds, or `None` where the
/// builder reports an error.
#[verifier::external_body]
fn build_client(timeout_secs: u64) -> (r: Option<reqwest::Client>) {
    reqwest::Client::builder().timeout(std::time::Duration::from_secs(timeout_secs)).build().ok()
}

/// Why a request to the bridge failed.
#[derive(Debug, Clone)]
pub enum ChannelError {
    /// The bridge could not be reached (connection, name resolution or
    /// timeout), with the underlying cause.
    TransportUnavailable(String),
    /// The bridge answered a send with a status outside 2xx, with its body.
    DeliveryRejected { status: u16, body: String },
}

/// The text of an error, for operators.
pub open spec fn error_text(e: ChannelError) -> Seq<char> {
    match e {
        ChannelError::TransportUnavailable(cause) => "ProxApi iMessage transport unavailable: "@
            + cause@,
        ChannelError::DeliveryRejected { status, body } => "ProxApi iMessage send returned "@
            + decimal(status as nat) + ": "@ + body@,
    }
}

impl ChannelError {
    /// The error as text; a rejection names the status code and the body.
    pub fn message(&self) -> (r: String)
        ensures
            r@ == error_text(*self),
    {
        match self {
            ChannelError::TransportUnavailable(cause) => String::from_str(
                "ProxApi iMessage transport unavailable: ",
            ).concat(cause.as_str()),
            ChannelError::DeliveryRejected { status, body } => {
                let r = String::from_str("ProxApi iMessage send returned ").concat(
                    to_decimal(*status as u64).as_str(),
                ).concat(": ").concat(body.as_str());
                r
            },
        }
    }
}

/// Whether an HTTP status is a success (2xx).
pub open spec fn is_success(status: u16) -> bool {
    200 <= status <= 299
}

/// The result of a send whose response had `status` and `body`.
pub open spec fn send_result(status: u16, body: String) -> Result<(), ChannelError> {
    if is_success(status) {
        Ok(())
    } else {
        Err(ChannelError::DeliveryRejected { status, body })
    }
}

/// Whether `s` occurs in `t` as a contiguous part.
pub open spec fn contains(t: Seq<char>, s: Seq<char>) -> bool {
    exists|i: int| 0 <= i <= t.len() - s.len() && #[trigger] t.subrange(i, i + s.len()) == s
}

/// The channel identifier given to every message of this transport.
pub open spec fn channel_id() -> Seq<char> {
    "imessage"@
}

/// The messages that a list of event payloads becomes, in order.
pub open spec fn messages_of(
    payloads: Seq<Seq<char>>,
    allowed: Seq<Seq<char>>,
    timestamp: u64,
) -> Seq<MessageView>
    decreases payloads.len(),
{
    if payloads.len() == 0 {
        Seq::empty()
    } else {
        let before = messages_of(payloads.drop_last(), allowed, timestamp);
        match message_of(payloads.last(), allowed, channel_id(), timestamp) {
            Some(m) => before.push(m),
            None => before,
        }
    }
}

/// The views of a sequence of messages.
pub open spec fn message_views(v: Seq<ChannelMessage>) -> Seq<MessageView> {
    v.map_values(|m: ChannelMessage| m@)
}

/// An adapter for the HTTP messaging bridge: its endpoint, credential,
/// allow-list and HTTP client.
pub struct ProxApiIMessageChannel {
    base_url: String,
    token: String,
    allowed_contacts: Vec<String>,
    client: reqwest::Client,
}

impl ProxApiIMessageChannel {
    /// The endpoint, without trailing `/`.
    pub closed spec fn base_url_spec(&self) -> Seq<char> {
        self.base_url@
    }

    /// The bearer credential.
    pub closed spec fn token_spec(&self) -> Seq<char> {
        self.token@
    }

    /// The allow-list.
    pub closed spec fn allowed_spec(&self) -> Seq<Seq<char>> {
        views(self.allowed_contacts@)
    }

    /// An adapter for the bridge at `base_url` (trailing `/` removed),
    /// authenticated by `token`, forwarding only senders that
    /// `allowed_contacts` admits. Fails only where the HTTP client cannot be
    /// built.
    pub fn new(base_url: String, token: String, allowed_contacts: Vec<String>) -> (r: Result<
        Self,
        ChannelError,
    >)
        ensures
            r is Ok ==> r->Ok_0.base_url_spec() == strip_trailing(base_url@, '/') && r->Ok_0.token_spec()
                == token@ && r->Ok_0.allowed_spec() == views(allowed_contacts@),
            r is Err ==> r->Err_0 is TransportUnavailable,
    {
        match build_client(REQUEST_TIMEOUT_SECS) {
            Some(client) => Ok(
                ProxApiIMessageChannel {
                    base_url: trim_end_char(base_url.as_str(), '/'),
                    token,
                    allowed_contacts,
                    client,
                },
            ),
            None => Err(
                ChannelError::TransportUnavailable(
                    String::from_str("the HTTP client could not be built"),
                ),
            ),
        }
    }

    /// The name of this channel.
    pub fn name(&self) -> (r: &'static str)
        ensures
            r@ == "imessage-proxapi"@,
    {
        "imessage-proxapi"
    }

    /// The shared HTTP client.
    pub fn client(&self) -> &reqwest::Client {
        &self.client
    }

    /// Whether the allow-list admits `sender`: `*` admits anyone, any other
    /// entry admits `sender` equal to it up to ASCII case.
    pub fn is_contact_allowed(&self, sender: &str) -> (r: bool)
        ensures
            r == contact_allowed(self.allowed_spec(), sender@),
    {
        let mut i: usize = 0;
        while i < self.allowed_contacts.len()
            invariant
                i <= self.allowed_contacts@.len(),
                forall|j: int|
                    0 <= j < i ==> !(#[trigger] self.allowed_spec()[j] == wildcard()
                        || eq_ignore_ascii_case(self.allowed_spec()[j], sender@)),
                self.allowed_spec().len() == self.allowed_contacts@.len(),
            decreases self.allowed_contacts@.len() - i,
        {
            let c = self.allowed_contacts[i].as_str();
            assert(self.allowed_spec()[i as int] == c@);
            if is_wildcard(c) || str_eq_ignore_ascii_case(c, sender) {
                return true;
            }
            i = i + 1;
        }
        false
    }

    /// The outbound endpoint: `POST {base}/v1/imessage/messages/text`.
    pub fn send_url(&self) -> (r: String)
        ensures
            r@ == self.base_url_spec() + "/v1/imessage/messages/text"@,
    {
        self.base_url.clone().concat("/v1/imessage/messages/text")
    }

    /// The event-stream endpoint: `GET {base}/v1/imessage/messages/stream`.
    pub fn stream_url(&self) -> (r: String)
        ensures
            r@ == self.base_url_spec() + "/v1/imessage/messages/stream"@,
    {
        self.base_url.clone().concat("/v1/imessage/messages/stream")
    }

    /// The liveness endpoint: `GET {base}/v1/imessage/queue`.
    pub fn queue_url(&self) -> (r: String)
        ensures
            r@ == self.base_url_spec() + "/v1/imessage/queue"@,
    {
        self.base_url.clone().concat("/v1/imessage/queue")
    }

    /// The value of the `Authorization` header: `Bearer {token}`.
    pub fn authorization(&self) -> (r: String)
        ensures
            r@ == "Bearer "@ + self.token_spec(),
    {
        String::from_str("Bearer ").concat(self.token.as_str())
    }

    /// The result of a send whose response had `status` and `body`: success
    /// on 2xx, otherwise a rejection that carries both.
    pub fn send_outcome(status: u16, body: String) -> (r: Result<(), ChannelError>)
        ensures
            r == send_result(status, body),
    {
        if 200 <= status && status <= 299 {
            Ok(())
        } else {
            Err(ChannelError::DeliveryRejected { status, body })
        }
    }

    /// The health verdict on a liveness response with `status`: 2xx only.
    pub fn health_outcome(status: u16) -> (r: bool)
        ensures
            r == is_success(status),
    {
        200 <= status && status <= 299
    }

    /// A health verdict from the result of a liveness probe: an error counts
    /// as unhealthy.
    pub fn health_from_probe(probe: &Result<bool, ChannelError>) -> (r: bool)
        ensures
            r == (probe is Ok && probe->Ok_0),
    {
        match probe {
            Ok(healthy) => *healthy,
            Err(_) => false,
        }
    }

    /// The message that an event payload becomes, received at `timestamp`.
    pub fn message_from_payload(&self, payload: &str, timestamp: u64) -> (r: Option<
        ChannelMessage,
    >)
        ensures
            match message_of(payload@, self.allowed_spec(), channel_id(), timestamp) {
                Some(m) => r is Some && r->0@ == m,
                None => r is None,
            },
    {
        match parse_event(payload) {
            None => None,
            Some((sender, content, id)) => {
                if sender.as_str().unicode_len() > 0 && content.as_str().unicode_len() > 0
                    && self.is_contact_allowed(sender.as_str()) {
                    Some(
                        ChannelMessage {
                            id,
                            reply_target: sender.clone(),
                            sender,
                            content,
                            channel: String::from_str("imessage"),
                            timestamp,
                        },
                    )
                } else {
                    None
                }
            },
        }
    }

    /// Reads a chunk of the stream through `decoder` and returns, in order,
    /// the messages of the events it finished that pass the checks.
    pub fn messages_from_chunk(
        &self,
        decoder: &mut SseDecoder,
        chunk: &[u8],
        timestamp: u64,
    ) -> (r: Vec<ChannelMessage>)
        ensures
            final(decoder)@ == feed(old(decoder)@, chunk@).0,
            message_views(r@) == messages_of(
                feed(old(decoder)@, chunk@).1,
                self.allowed_spec(),
                timestamp,
            ),
    {
        let payloads = decoder.push_bytes(chunk);
        let ghost ps = texts(payloads@);
        let mut out: Vec<ChannelMessage> = Vec::new();
        let mut i: usize = 0;
        assert(ps.subrange(0, 0) =~= Seq::<Seq<char>>::empty());
        assert(message_views(out@) =~= Seq::<MessageView>::empty());
        while i < payloads.len()
            invariant
                i <= payloads@.len(),
                ps == texts(payloads@),
                message_views(out@) == messages_of(
                    ps.subrange(0, i as int),
                    self.allowed_spec(),
                    timestamp,
                ),
            decreases payloads@.len() - i,
        {
            assert(ps.subrange(0, i + 1).drop_last() =~= ps.subrange(0, i as int));
            assert(ps.subrange(0, i + 1).last() == payloads@[i as int]@);
            let ghost before = message_views(out@);
            match self.message_from_payload(payloads[i].as_str(), timestamp) {
                Some(m) => {
                    out.push(m);
                    assert(message_views(out@) =~= before.push(m@));
                },
                None => {},
            }
            i = i + 1;
        }
        assert(ps.subrange(0, i as int) =~= ps);
        out
    }
}

/// A send succeeds exactly on a 2xx response; any other response is an
/// error whose text holds the status code in decimal.
pub proof fn lemma_send_outcome_names_status(status: u16, body: String)
    ensures
        is_success(status) ==> send_result(status, body) is Ok,
        !is_success(status) ==> send_result(status, body) is Err && contains(
            error_text(send_result(status, body)->Err_0),
            decimal(status as nat),
        ),
{
    if !is_success(status) {
        let t = error_text(send_result(status, body)->Err_0);
        let prefix = "ProxApi iMessage send returned "@;
        let d = decimal(status as nat);
        assert(t == prefix + d + ": "@ + body@);
        assert(t.subrange(prefix.len() as int, (prefix.len() + d.len()) as int) =~= d);
    }
}

} // verus!
