use zeroclaw::channel::{ChannelError, ProxApiIMessageChannel};
use zeroclaw::message::SendMessage;
use zeroclaw::sse::SseDecoder;

fn channel(allowed: &[&str]) -> ProxApiIMessageChannel {
    ProxApiIMessageChannel::new(
        "http://localhost:3000/".to_string(),
        "sk-test-token".to_string(),
        allowed.iter().map(|s| s.to_string()).collect(),
    )
    .expect("client")
}

#[test]
fn new_strips_trailing_slashes_from_endpoint() {
    let ch = ProxApiIMessageChannel::new(
        "http://localhost:3000//".to_string(),
        "tok".to_string(),
        vec![],
    )
    .expect("client");
    assert_eq!(ch.send_url(), "http://localhost:3000/v1/imessage/messages/text");
    assert_eq!(ch.stream_url(), "http://localhost:3000/v1/imessage/messages/stream");
    assert_eq!(ch.queue_url(), "http://localhost:3000/v1/imessage/queue");
}

#[test]
fn endpoint_without_trailing_slash_is_kept() {
    let ch = ProxApiIMessageChannel::new("https://bridge".to_string(), "t".to_string(), vec![])
        .expect("client");
    assert_eq!(ch.queue_url(), "https://bridge/v1/imessage/queue");
}

#[test]
fn authorization_is_bearer_token() {
    assert_eq!(channel(&[]).authorization(), "Bearer sk-test-token");
}

#[test]
fn channel_name_is_fixed() {
    assert_eq!(channel(&[]).name(), "imessage-proxapi");
}

#[test]
fn send_succeeds_on_2xx() {
    assert!(ProxApiIMessageChannel::send_outcome(200, String::new()).is_ok());
    assert!(ProxApiIMessageChannel::send_outcome(204, String::new()).is_ok());
    assert!(ProxApiIMessageChannel::send_outcome(299, String::new()).is_ok());
}

#[test]
fn send_rejection_carries_status_and_body() {
    let body = "{\"ok\":false}".to_string();
    match ProxApiIMessageChannel::send_outcome(400, body.clone()) {
        Err(ChannelError::DeliveryRejected { status, body: b }) => {
            assert_eq!(status, 400);
            assert_eq!(b, body);
        }
        other => panic!("unexpected {:?}", other),
    }
    let err = ProxApiIMessageChannel::send_outcome(503, "down".to_string()).unwrap_err();
    let text = err.message();
    assert!(text.contains("503"));
    assert!(text.contains("down"));
    assert_eq!(text, "ProxApi iMessage send returned 503: down");
    assert!(ProxApiIMessageChannel::send_outcome(199, String::new()).is_err());
    assert!(ProxApiIMessageChannel::send_outcome(300, String::new()).is_err());
}

#[test]
fn transport_error_message_names_cause() {
    let e = ChannelError::TransportUnavailable("connection refused".to_string());
    assert_eq!(
        e.message(),
        "ProxApi iMessage transport unavailable: connection refused"
    );
}

#[test]
fn health_outcome_by_status() {
    assert!(ProxApiIMessageChannel::health_outcome(200));
    assert!(!ProxApiIMessageChannel::health_outcome(503));
    assert!(!ProxApiIMessageChannel::health_outcome(404));
}

#[test]
fn health_from_probe_collapses_errors() {
    assert!(ProxApiIMessageChannel::health_from_probe(&Ok(true)));
    assert!(!ProxApiIMessageChannel::health_from_probe(&Ok(false)));
    let refused = Err(ChannelError::TransportUnavailable("refused".to_string()));
    assert!(!ProxApiIMessageChannel::health_from_probe(&refused));
}

#[test]
fn allow_list_wildcard_and_case() {
    let ch = channel(&["User@Example.com", "+15551234567"]);
    assert!(ch.is_contact_allowed("user@example.COM"));
    assert!(ch.is_contact_allowed("+15551234567"));
    assert!(!ch.is_contact_allowed("+15550000000"));
    assert!(!ch.is_contact_allowed("user@example.co"));
    assert!(channel(&["*"]).is_contact_allowed("anyone"));
    assert!(!channel(&[]).is_contact_allowed("anyone"));
}

#[test]
fn send_message_fields() {
    let m = SendMessage::new("hello world", "+15551234567");
    assert_eq!(m.content, "hello world");
    assert_eq!(m.recipient, "+15551234567");
}

#[test]
fn stream_frame_yields_one_message_for_allowed_sender() {
    let ch = channel(&["+1"]);
    let mut dec = SseDecoder::new();
    let out = ch.messages_from_chunk(
        &mut dec,
        b"data: {\"sender\":\"+1\",\"text\":\"hi\",\"id\":\"1\"}\n\n",
        1700000000,
    );
    assert_eq!(out.len(), 1);
    assert_eq!(out[0].sender, "+1");
    assert_eq!(out[0].reply_target, "+1");
    assert_eq!(out[0].content, "hi");
    assert_eq!(out[0].id, "1");
    assert_eq!(out[0].channel, "imessage");
    assert_eq!(out[0].timestamp, 1700000000);
}

#[test]
fn stream_frame_yields_nothing_for_refused_sender() {
    let ch = channel(&["+2"]);
    let mut dec = SseDecoder::new();
    let out = ch.messages_from_chunk(
        &mut dec,
        b"data: {\"sender\":\"+1\",\"text\":\"hi\",\"id\":\"1\"}\n\n",
        5,
    );
    assert!(out.is_empty());
}

#[test]
fn frame_split_across_chunks_and_crlf() {
    let ch = channel(&["*"]);
    let mut dec = SseDecoder::new();
    assert!(ch.messages_from_chunk(&mut dec, b"data: {\"sender\":\"a\",", 1).is_empty());
    assert!(ch.messages_from_chunk(&mut dec, b"\"text\":\"x\"}\r", 1).is_empty());
    let out = ch.messages_from_chunk(&mut dec, b"\n\r\n", 2);
    assert_eq!(out.len(), 1);
    assert_eq!(out[0].sender, "a");
    assert_eq!(out[0].content, "x");
    assert_eq!(out[0].id, "");
    assert_eq!(out[0].timestamp, 2);
}

#[test]
fn content_field_is_used_when_text_is_absent() {
    let ch = channel(&["*"]);
    let mut dec = SseDecoder::new();
    let out = ch.messages_from_chunk(
        &mut dec,
        b"data: {\"sender\":\"s\",\"content\":\"body\"}\n\ndata: {\"sender\":\"s\",\"text\":7,\"content\":\"c\"}\n\n",
        0,
    );
    assert_eq!(out.len(), 2);
    assert_eq!(out[0].content, "body");
    assert_eq!(out[1].content, "c");
}

#[test]
fn empty_text_does_not_fall_back_and_is_dropped() {
    let ch = channel(&["*"]);
    let mut dec = SseDecoder::new();
    let out = ch.messages_from_chunk(
        &mut dec,
        b"data: {\"sender\":\"s\",\"text\":\"\",\"content\":\"c\"}\n\n",
        0,
    );
    assert!(out.is_empty());
}

#[test]
fn malformed_and_empty_events_are_skipped() {
    let ch = channel(&["*"]);
    let mut dec = SseDecoder::new();
    let out = ch.messages_from_chunk(
        &mut dec,
        b"data: {not json\n\n\n\nevent: ping\n\ndata: {\"text\":\"no sender\"}\n\ndata: [1,2]\n\ndata: {\"sender\":\"ok\",\"text\":\"fine\"}\n\n",
        0,
    );
    assert_eq!(out.len(), 1);
    assert_eq!(out[0].sender, "ok");
    assert_eq!(out[0].content, "fine");
}

#[test]
fn later_data_line_replaces_earlier_one() {
    let ch = channel(&["*"]);
    let mut dec = SseDecoder::new();
    let out = ch.messages_from_chunk(
        &mut dec,
        b"data: {\"sender\":\"a\",\"text\":\"1\"}\ndata:{\"sender\":\"b\",\"text\":\"2\"}   \n\n",
        0,
    );
    assert_eq!(out.len(), 1);
    assert_eq!(out[0].sender, "b");
    assert_eq!(out[0].content, "2");
}

#[test]
fn non_ascii_payload_is_decoded() {
    let ch = channel(&["*"]);
    let mut dec = SseDecoder::new();
    let out = ch.messages_from_chunk(
        &mut dec,
        "data: {\"sender\":\"é\",\"text\":\"héllo ✓\"}\n\n".as_bytes(),
        0,
    );
    assert_eq!(out.len(), 1);
    assert_eq!(out[0].content, "héllo ✓");
}

#[test]
fn decoder_returns_payloads_in_order() {
    let mut dec = SseDecoder::new();
    let out = dec.push_bytes(b"data:  one \n\ndata: two\n\ndata: three");
    assert_eq!(out, vec!["one".to_string(), "two".to_string()]);
    let out = dec.push_bytes(b"\n\n");
    assert_eq!(out, vec!["three".to_string()]);
}
