use signaldock_runtime::message::{DeliveryResult, RawMessage};
use signaldock_runtime::seen::SeenSet;
use signaldock_runtime::sse::{
    chars_of, event_action, lines_of, message_action, record_stream_outcome, SseEvent, SseParser,
    StreamAction,
};

fn lines(s: &str) -> Vec<String> {
    lines_of(&chars_of(s)).into_iter().map(|l| l.into_iter().collect()).collect()
}

fn ev(event: &str, data: &str) -> SseEvent {
    SseEvent { event: event.to_string(), data: data.to_string() }
}

#[test]
fn lines_split_like_str_lines() {
    for s in ["", "a", "a\n", "a\r\nb\n\nc", "x\ry\r", "\n\n", "a\r", "é\r\n"] {
        let expected: Vec<String> = s.lines().map(|l| l.to_string()).collect();
        assert_eq!(lines(s), expected, "input {:?}", s);
    }
}

#[test]
fn parser_pairs_event_and_data() {
    let mut p = SseParser::new();
    let evs = p.feed("event: message\ndata: {\"id\":\"m1\"}\n\n: comment\ndata: plain\n");
    assert_eq!(evs.len(), 2);
    assert_eq!(evs[0].event, "message");
    assert_eq!(evs[0].data, "{\"id\":\"m1\"}");
    assert_eq!(evs[1].event, "");
    assert_eq!(evs[1].data, "plain");
    assert_eq!(p.pending, "");
}

#[test]
fn parser_keeps_event_type_across_chunks() {
    let mut p = SseParser::new();
    assert!(p.feed("event: heartbeat\r\n").is_empty());
    assert_eq!(p.pending, "heartbeat");
    let evs = p.feed_bytes(b"data: {}\r\n");
    assert_eq!(evs.len(), 1);
    assert_eq!(evs[0].event, "heartbeat");
    assert_eq!(evs[0].data, "{}");
}

#[test]
fn parser_replaces_invalid_utf8() {
    let mut p = SseParser::new();
    let evs = p.feed_bytes(b"data: a\xffb\n");
    assert_eq!(evs.len(), 1);
    assert_eq!(evs[0].data, "a\u{fffd}b");
}

#[test]
fn heartbeat_event_records_heartbeat() {
    let me = "bot".to_string();
    assert!(matches!(event_action(&mut SeenSet::new(), &ev("heartbeat", ""), &me), StreamAction::Heartbeat));
}

#[test]
fn message_event_from_other_agent_is_delivered() {
    let me = "bot".to_string();
    let data = r#"{"id":"m1","fromAgentId":"alice","content":"hi","conversationId":"c1"}"#;
    for kind in ["message", ""] {
        match event_action(&mut SeenSet::new(), &ev(kind, data), &me) {
            StreamAction::Deliver(m) => {
                assert_eq!(m.id, "m1");
                assert_eq!(m.from, "alice");
                assert_eq!(m.content, "hi");
                assert_eq!(m.content_type, "text");
            }
            _ => panic!("expected delivery"),
        }
    }
}

#[test]
fn stream_delivers_messages_without_id() {
    let me = "bot".to_string();
    let mut r = RawMessage::empty();
    r.from_agent_id = Some("alice".to_string());
    match message_action(&mut SeenSet::new(), Some(r), &me) {
        StreamAction::Deliver(m) => assert_eq!(m.id, ""),
        _ => panic!("expected delivery"),
    }
}

#[test]
fn stream_ignores_own_bad_and_unknown_events() {
    let me = "bot".to_string();
    let own = r#"{"id":"m1","fromAgentId":"bot","content":"hi"}"#;
    assert!(matches!(event_action(&mut SeenSet::new(), &ev("message", own), &me), StreamAction::Ignore));
    assert!(matches!(event_action(&mut SeenSet::new(), &ev("message", "{oops"), &me), StreamAction::Ignore));
    assert!(matches!(event_action(&mut SeenSet::new(), &ev("message", "{\"id\":\"x\"}"), &me), StreamAction::Ignore));
    assert!(matches!(event_action(&mut SeenSet::new(), &ev("connected", "{}"), &me), StreamAction::Ignore));
    let other = r#"{"id":"m1","fromAgentId":"alice"}"#;
    assert!(matches!(event_action(&mut SeenSet::new(), &ev("typing", other), &me), StreamAction::Ignore));
}

#[test]
fn stream_acks_only_delivered() {
    let id = "m1".to_string();
    let mut seen = SeenSet::from_ids(vec![id.clone()]);
    assert!(record_stream_outcome(&mut seen, &id, &Ok(DeliveryResult::Delivered)));
    assert!(seen.contains(&id));
    assert!(!record_stream_outcome(&mut seen, &id, &Ok(DeliveryResult::Failed("f".to_string()))));
    assert!(seen.contains(&id));
    assert!(!record_stream_outcome(&mut seen, &id, &Ok(DeliveryResult::Retry("r".to_string()))));
    assert!(!seen.contains(&id));
    let mut seen2 = SeenSet::from_ids(vec![id.clone()]);
    assert!(!record_stream_outcome(&mut seen2, &id, &Err("e".to_string())));
    assert!(!seen2.contains(&id));
}

#[test]
fn stream_delivers_a_message_once() {
    let me = "bot".to_string();
    let data = r#"{"id":"m1","fromAgentId":"alice","content":"hi"}"#;
    let mut seen = SeenSet::new();
    assert!(matches!(event_action(&mut seen, &ev("message", data), &me), StreamAction::Deliver(_)));
    assert!(matches!(event_action(&mut seen, &ev("message", data), &me), StreamAction::Ignore));
    assert!(!record_stream_outcome(&mut seen, &"m1".to_string(), &Ok(DeliveryResult::Retry("r".to_string()))));
    assert!(matches!(event_action(&mut seen, &ev("", data), &me), StreamAction::Deliver(_)));
    let no_id = r#"{"fromAgentId":"alice","content":"hi"}"#;
    assert!(matches!(event_action(&mut seen, &ev("message", no_id), &me), StreamAction::Deliver(_)));
    assert!(matches!(event_action(&mut seen, &ev("message", no_id), &me), StreamAction::Deliver(_)));
}

#[test]
fn split_lines_hold_no_line_feed() {
    let text = "event: a\r\n\r\ndata: b\nx\n\ny";
    let got = lines(text);
    assert_eq!(got.len(), 6);
    assert!(got.iter().all(|l| !l.contains('\n')));
}

#[test]
fn one_event_per_data_line() {
    let mut p = SseParser::new();
    let evs = p.feed("data: 1\nevent: x\nevent: y\ndata: 2\ndata: 3\nevent: z\n");
    let pairs: Vec<(String, String)> = evs.into_iter().map(|e| (e.event, e.data)).collect();
    assert_eq!(
        pairs,
        vec![
            ("".to_string(), "1".to_string()),
            ("y".to_string(), "2".to_string()),
            ("".to_string(), "3".to_string()),
        ]
    );
    assert_eq!(p.pending, "z");
}
