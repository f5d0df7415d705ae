//! The decisions of the adapter's long-running listen loop, as a state
//! machine from event to next state and action. The surrounding runtime
//! performs each action (connect, read, sleep) and reports what happened.
use vstd::prelude::*;
use vstd::arithmetic::power::lemma_pow0;
use vstd::arithmetic::power2::{lemma_pow2_unfold, pow2};

use crate::channel::{is_success, messages_of, message_views, ProxApiIMessageChannel};
use crate::message::ChannelMessage;
use crate::sse::{feed, DecoderView, SseDecoder};

verus! {

/// The first reconnect delay, in seconds.
pub const INITIAL_BACKOFF_SECS: u64 = 1;

/// The longest reconnect delay, in seconds.
pub const MAX_BACKOFF_SECS: u64 = 60;

/// Where the listen loop stands.
#[derive(Debug, Clone, Copy, PartialEq, Eq, Structural)]
pub enum ConnectionState {
    /// Not started.
    Disconnected,
    /// A stream request is in flight.
    Connecting,
    /// The stream body is being read.
    Streaming,
    /// Sleeping for the given number of seconds before reconnecting.
    Backoff(u64),
    /// The consumer has gone away; the loop is over.
    Stopped,
}

/// What the runtime reports to the listen loop.
#[derive(Debug, Clone, Copy, PartialEq, Eq, Structural)]
pub enum ListenEvent {
    /// The loop starts.
    Start,
    /// The stream request got a 2xx response.
    ConnectSucceeded,
    /// The stream request failed or got a status outside 2xx.
    ConnectFailed,
    /// The stream body ended or failed while reading.
    StreamEnded,
    /// The reconnect delay is over.
    BackoffElapsed,
    /// The consumer queue is closed.
    SinkClosed,
}

/// What the runtime is to do next.
#[derive(Debug, Clone, Copy, PartialEq, Eq, Structural)]
pub enum ListenAction {
    /// Issue the stream request.
    Connect,
    /// Read the stream body.
    ReadStream,
    /// Sleep for the given number of seconds, then report `BackoffElapsed`.
    Sleep(u64),
    /// Return success: the loop is over.
    Finish,
}

/// The state of the listen loop and its reconnect delay.
pub struct SessionView {
    pub state: ConnectionState,
    pub backoff: u64,
}

/// The delay after `b`: twice as long, at most the cap.
pub open spec fn next_backoff(b: u64) -> u64 {
    if b >= 30 {
        MAX_BACKOFF_SECS
    } else {
        (2 * b) as u64
    }
}

/// The next state, and the action if the event applies to the current
/// state. An event that does not apply leaves the state as it was.
pub open spec fn step(v: SessionView, ev: ListenEvent) -> (SessionView, Option<ListenAction>) {
    match (v.state, ev) {
        (ConnectionState::Stopped, _) => (v, None),
        (_, ListenEvent::SinkClosed) => (
            SessionView { state: ConnectionState::Stopped, backoff: v.backoff },
            Some(ListenAction::Finish),
        ),
        (ConnectionState::Disconnected, ListenEvent::Start) => (
            SessionView { state: ConnectionState::Connecting, backoff: v.backoff },
            Some(ListenAction::Connect),
        ),
        (ConnectionState::Connecting, ListenEvent::ConnectSucceeded) => (
            SessionView { state: ConnectionState::Streaming, backoff: INITIAL_BACKOFF_SECS },
            Some(ListenAction::ReadStream),
        ),
        (ConnectionState::Connecting, ListenEvent::ConnectFailed) => (
            SessionView {
                state: ConnectionState::Backoff(v.backoff),
                backoff: next_backoff(v.backoff),
            },
            Some(ListenAction::Sleep(v.backoff)),
        ),
        (ConnectionState::Streaming, ListenEvent::StreamEnded) => (
            SessionView {
                state: ConnectionState::Backoff(v.backoff),
                backoff: next_backoff(v.backoff),
            },
            Some(ListenAction::Sleep(v.backoff)),
        ),
        (ConnectionState::Backoff(_), ListenEvent::BackoffElapsed) => (
            SessionView { state: ConnectionState::Connecting, backoff: v.backoff },
            Some(ListenAction::Connect),
        ),
        _ => (v, None),
    }
}

/// The reconnect delay always lies between the first delay and the cap.
pub open spec fn session_wf(v: SessionView) -> bool {
    &&& INITIAL_BACKOFF_SECS <= v.backoff <= MAX_BACKOFF_SECS
    &&& match v.state {
        ConnectionState::Backoff(n) => INITIAL_BACKOFF_SECS <= n <= MAX_BACKOFF_SECS,
        _ => true,
    }
}

/// The decisions of one listen loop: its state, reconnect delay, and the
/// event-stream decoder of the current connection.
pub struct ListenSession {
    state: ConnectionState,
    backoff_secs: u64,
    decoder: SseDecoder,
}

impl View for ListenSession {
    type V = SessionView;

    closed spec fn view(&self) -> SessionView {
        SessionView { state: self.state, backoff: self.backoff_secs }
    }
}

impl ListenSession {
    /// The state of the current connection's decoder.
    pub closed spec fn decoder_view(&self) -> DecoderView {
        self.decoder@
    }

    /// Well-formedness: the delays lie within their bounds.
    pub closed spec fn wf(&self) -> bool {
        session_wf(self@)
    }

    /// A loop not yet started, with the first reconnect delay.
    pub fn new() -> (r: Self)
        ensures
            r@ == (SessionView {
                state: ConnectionState::Disconnected,
                backoff: INITIAL_BACKOFF_SECS,
            }),
            r.wf(),
    {
        ListenSession {
            state: ConnectionState::Disconnected,
            backoff_secs: INITIAL_BACKOFF_SECS,
            decoder: SseDecoder::new(),
        }
    }

    /// Where the loop stands.
    pub fn state(&self) -> (r: ConnectionState)
        ensures
            r == self@.state,
    {
        self.state
    }

    /// The delay of the next reconnect, in seconds.
    pub fn backoff_secs(&self) -> (r: u64)
        ensures
            r == self@.backoff,
    {
        self.backoff_secs
    }

    /// Takes one event and returns what to do next. A successful connect
    /// resets the delay and starts a fresh decoder; a failed connect or an
    /// ended stream sleeps for the current delay and doubles it up to the
    /// cap; a closed consumer ends the loop.
    pub fn on_event(&mut self, ev: ListenEvent) -> (r: Option<ListenAction>)
        ensures
            (final(self)@, r) == step(old(self)@, ev),
            old(self).wf() ==> final(self).wf(),
            old(self)@.state == ConnectionState::Connecting && ev == ListenEvent::ConnectSucceeded
                ==> final(self).decoder_view() == (DecoderView {
                line: Seq::empty(),
                pending: Seq::empty(),
            }),
    {
        let b = self.backoff_secs;
        let next = if b >= 30 {
            MAX_BACKOFF_SECS
        } else {
            2 * b
        };
        match (self.state, ev) {
            (ConnectionState::Stopped, _) => None,
            (_, ListenEvent::SinkClosed) => {
                self.state = ConnectionState::Stopped;
                Some(ListenAction::Finish)
            },
            (ConnectionState::Disconnected, ListenEvent::Start) => {
                self.state = ConnectionState::Connecting;
                Some(ListenAction::Connect)
            },
            (ConnectionState::Connecting, ListenEvent::ConnectSucceeded) => {
                self.state = ConnectionState::Streaming;
                self.backoff_secs = INITIAL_BACKOFF_SECS;
                self.decoder = SseDecoder::new();
                Some(ListenAction::ReadStream)
            },
            (ConnectionState::Connecting, ListenEvent::ConnectFailed) => {
                self.state = ConnectionState::Backoff(b);
                self.backoff_secs = next;
                Some(ListenAction::Sleep(b))
            },
            (ConnectionState::Streaming, ListenEvent::StreamEnded) => {
                self.state = ConnectionState::Backoff(b);
                self.backoff_secs = next;
                Some(ListenAction::Sleep(b))
            },
            (ConnectionState::Backoff(_), ListenEvent::BackoffElapsed) => {
                self.state = ConnectionState::Connecting;
                Some(ListenAction::Connect)
            },
            _ => None,
        }
    }

    /// Reads a chunk of the stream body and returns, in order, the messages
    /// to forward, stamped with `timestamp`.
    pub fn on_chunk(
        &mut self,
        channel: &ProxApiIMessageChannel,
        chunk: &[u8],
        timestamp: u64,
    ) -> (r: Vec<ChannelMessage>)
        ensures
            final(self)@ == old(self)@,
            final(self).wf() == old(self).wf(),
            final(self).decoder_view() == feed(old(self).decoder_view(), chunk@).0,
            message_views(r@) == messages_of(
                feed(old(self).decoder_view(), chunk@).1,
                channel.allowed_spec(),
                timestamp,
            ),
    {
        channel.messages_from_chunk(&mut self.decoder, chunk, timestamp)
    }
}

/// The event that a response to the stream request with `status` reports:
/// a 2xx status is a successful connect, any other a failed one.
pub fn connect_outcome(status: u16) -> (r: ListenEvent)
    ensures
        r == (if is_success(status) {
            ListenEvent::ConnectSucceeded
        } else {
            ListenEvent::ConnectFailed
        }),
{
    if 200 <= status && status <= 299 {
        ListenEvent::ConnectSucceeded
    } else {
        ListenEvent::ConnectFailed
    }
}

/// The session after `k` rounds of a failed connect followed by the end of
/// its delay.
pub open spec fn after_failures(v: SessionView, k: nat) -> SessionView
    decreases k,
{
    if k == 0 {
        v
    } else {
        step(step(after_failures(v, (k - 1) as nat), ListenEvent::ConnectFailed).0, ListenEvent::BackoffElapsed).0
    }
}

/// The smaller of two numbers.
pub open spec fn min(a: nat, b: nat) -> nat {
    if a <= b {
        a
    } else {
        b
    }
}

proof fn lemma_after_failures(v: SessionView, k: nat)
    requires
        v.state == ConnectionState::Connecting,
        v.backoff == INITIAL_BACKOFF_SECS,
    ensures
        after_failures(v, k).state == ConnectionState::Connecting,
        after_failures(v, k).backoff == min(pow2(k), MAX_BACKOFF_SECS as nat),
    decreases k,
{
    if k == 0 {
        lemma_pow0(2);
    } else {
        lemma_after_failures(v, (k - 1) as nat);
        lemma_pow2_unfold(k);
    }
}

/// From a fresh connect attempt, across consecutive failed attempts with no
/// successful connect between them, the `n`th sleep lasts
/// `min(2^(n-1), 60)` seconds.
pub proof fn lemma_backoff_doubles_to_cap(v: SessionView, n: nat)
    requires
        v.state == ConnectionState::Connecting,
        v.backoff == INITIAL_BACKOFF_SECS,
        n >= 1,
    ensures
        step(after_failures(v, (n - 1) as nat), ListenEvent::ConnectFailed).1 == Some(
            ListenAction::Sleep(min(pow2((n - 1) as nat), MAX_BACKOFF_SECS as nat) as u64),
        ),
{
    lemma_after_failures(v, (n - 1) as nat);
}

/// Closing the consumer while the loop runs, in any state but the end,
/// ends it with success.
pub proof fn lemma_sink_closed_finishes(v: SessionView)
    requires
        v.state != ConnectionState::Stopped,
    ensures
        step(v, ListenEvent::SinkClosed).0.state == ConnectionState::Stopped,
        step(v, ListenEvent::SinkClosed).1 == Some(ListenAction::Finish),
{
}

} // verus!
