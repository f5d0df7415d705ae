use zeroclaw::listen::{ConnectionState, ListenAction, ListenEvent, ListenSession};
use zeroclaw::channel::ProxApiIMessageChannel;

#[test]
fn start_connects() {
    let mut s = ListenSession::new();
    assert_eq!(s.state(), ConnectionState::Disconnected);
    assert_eq!(s.on_event(ListenEvent::Start), Some(ListenAction::Connect));
    assert_eq!(s.state(), ConnectionState::Connecting);
}

#[test]
fn consecutive_failures_double_the_sleep_up_to_the_cap() {
    let mut s = ListenSession::new();
    s.on_event(ListenEvent::Start);
    let mut sleeps = Vec::new();
    for _ in 0..9 {
        match s.on_event(ListenEvent::ConnectFailed) {
            Some(ListenAction::Sleep(n)) => sleeps.push(n),
            other => panic!("unexpected {:?}", other),
        }
        assert_eq!(s.on_event(ListenEvent::BackoffElapsed), Some(ListenAction::Connect));
    }
    assert_eq!(sleeps, vec![1, 2, 4, 8, 16, 32, 60, 60, 60]);
}

#[test]
fn successful_connect_resets_the_delay() {
    let mut s = ListenSession::new();
    s.on_event(ListenEvent::Start);
    s.on_event(ListenEvent::ConnectFailed);
    s.on_event(ListenEvent::BackoffElapsed);
    s.on_event(ListenEvent::ConnectFailed);
    s.on_event(ListenEvent::BackoffElapsed);
    assert_eq!(s.backoff_secs(), 4);
    assert_eq!(s.on_event(ListenEvent::ConnectSucceeded), Some(ListenAction::ReadStream));
    assert_eq!(s.state(), ConnectionState::Streaming);
    assert_eq!(s.backoff_secs(), 1);
}

#[test]
fn stream_end_does_not_reset_the_delay() {
    let mut s = ListenSession::new();
    s.on_event(ListenEvent::Start);
    s.on_event(ListenEvent::ConnectSucceeded);
    assert_eq!(s.on_event(ListenEvent::StreamEnded), Some(ListenAction::Sleep(1)));
    assert_eq!(s.state(), ConnectionState::Backoff(1));
    s.on_event(ListenEvent::BackoffElapsed);
    s.on_event(ListenEvent::ConnectSucceeded);
    s.on_event(ListenEvent::StreamEnded);
    s.on_event(ListenEvent::BackoffElapsed);
    assert_eq!(s.on_event(ListenEvent::ConnectFailed), Some(ListenAction::Sleep(2)));
}

#[test]
fn sink_closed_mid_stream_finishes() {
    let ch = ProxApiIMessageChannel::new("http://h".to_string(), "t".to_string(), vec!["*".to_string()])
        .expect("client");
    let mut s = ListenSession::new();
    s.on_event(ListenEvent::Start);
    s.on_event(ListenEvent::ConnectSucceeded);
    let msgs = s.on_chunk(&ch, b"data: {\"sender\":\"x\",\"text\":\"y\"}\n\ndata: {", 9);
    assert_eq!(msgs.len(), 1);
    assert_eq!(s.on_event(ListenEvent::SinkClosed), Some(ListenAction::Finish));
    assert_eq!(s.state(), ConnectionState::Stopped);
    assert_eq!(s.on_event(ListenEvent::Start), None);
}

#[test]
fn reconnect_starts_a_fresh_decoder() {
    let ch = ProxApiIMessageChannel::new("http://h".to_string(), "t".to_string(), vec!["*".to_string()])
        .expect("client");
    let mut s = ListenSession::new();
    s.on_event(ListenEvent::Start);
    s.on_event(ListenEvent::ConnectSucceeded);
    assert!(s.on_chunk(&ch, b"data: {\"sender\":\"x\",\"text\":\"lost\"}", 1).is_empty());
    s.on_event(ListenEvent::StreamEnded);
    s.on_event(ListenEvent::BackoffElapsed);
    s.on_event(ListenEvent::ConnectSucceeded);
    assert!(s.on_chunk(&ch, b"\n\n", 2).is_empty());
}

#[test]
fn events_that_do_not_apply_are_ignored() {
    let mut s = ListenSession::new();
    assert_eq!(s.on_event(ListenEvent::ConnectSucceeded), None);
    assert_eq!(s.state(), ConnectionState::Disconnected);
}
