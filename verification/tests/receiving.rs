use signaldock_runtime::api::{ack_url, bearer, peek_url, stream_url, user_agent};
use signaldock_runtime::message::{DeliveryResult, Message, RawMessage};
use signaldock_runtime::receiver::{poll_batch, PollBackoff, PollCycle};
use signaldock_runtime::seen::{SeenSet, SEEN_LIMIT};

fn raw(id: &str, from: &str) -> RawMessage {
    let mut r = RawMessage::empty();
    r.id = Some(id.to_string());
    r.from_agent_id = Some(from.to_string());
    r.content = Some(format!("hello from {}", from));
    r
}

fn seen_of(ids: &[&str]) -> SeenSet {
    SeenSet::from_ids(ids.iter().map(|s| s.to_string()).collect())
}

fn ids(s: &SeenSet) -> Vec<String> {
    s.ids().clone()
}

#[test]
fn message_defaults_for_missing_members() {
    let m = Message::from_raw(&RawMessage::empty());
    assert_eq!(m.id, "");
    assert_eq!(m.from, "");
    assert_eq!(m.from_name, None);
    assert_eq!(m.content, "");
    assert_eq!(m.conversation_id, "");
    assert_eq!(m.content_type, "text");
    assert_eq!(m.created_at, "");
    assert_eq!(m.metadata, "null");
}

#[test]
fn message_keeps_present_members() {
    let mut r = raw("m1", "alice");
    r.from_agent_name = Some("Alice".to_string());
    r.conversation_id = Some("c9".to_string());
    r.content_type = Some("markdown".to_string());
    r.created_at = Some("2026-04-01T00:00:00Z".to_string());
    r.metadata = Some("{\"k\":1}".to_string());
    let m = Message::from_raw(&r);
    assert_eq!(m.id, "m1");
    assert_eq!(m.from, "alice");
    assert_eq!(m.from_name.as_deref(), Some("Alice"));
    assert_eq!(m.content, "hello from alice");
    assert_eq!(m.conversation_id, "c9");
    assert_eq!(m.content_type, "markdown");
    assert_eq!(m.metadata, "{\"k\":1}");
}

#[test]
fn take_in_skips_own_and_anonymous_messages() {
    let me = "bot".to_string();
    let mut c = PollCycle::start(SeenSet::new());
    assert!(c.take_in(&me, &raw("m1", "bot")).is_none());
    assert!(c.take_in(&me, &raw("m2", "")).is_none());
    assert!(c.take_in(&me, &raw("", "alice")).is_none());
    let mut no_from = RawMessage::empty();
    no_from.id = Some("m3".to_string());
    assert!(c.take_in(&me, &no_from).is_none());
    assert!(ids(&c.seen).is_empty());
}

#[test]
fn take_in_marks_new_message_seen() {
    let me = "bot".to_string();
    let mut c = PollCycle::start(SeenSet::new());
    let m = c.take_in(&me, &raw("m1", "alice")).expect("taken in");
    assert_eq!(m.id, "m1");
    assert_eq!(m.from, "alice");
    assert_eq!(ids(&c.seen), vec!["m1".to_string()]);
}

#[test]
fn same_message_is_not_taken_in_twice() {
    let me = "bot".to_string();
    let mut c = PollCycle::start(seen_of(&["old"]));
    assert!(c.take_in(&me, &raw("old", "alice")).is_none());
    assert!(c.take_in(&me, &raw("m1", "alice")).is_some());
    assert!(c.take_in(&me, &raw("m1", "alice")).is_none());
    assert_eq!(ids(&c.seen), vec!["old".to_string(), "m1".to_string()]);
}

#[test]
fn delivered_message_is_counted_and_acked() {
    let me = "bot".to_string();
    let mut c = PollCycle::start(SeenSet::new());
    let m = c.take_in(&me, &raw("m1", "alice")).unwrap();
    c.record(&m.id, &Ok(DeliveryResult::Delivered));
    assert_eq!(c.delivered, 1);
    assert_eq!(c.ack_ids, vec!["m1".to_string()]);
    assert!(c.seen.contains(&"m1".to_string()));
}

#[test]
fn failed_message_is_acked_but_not_counted() {
    let me = "bot".to_string();
    let mut c = PollCycle::start(SeenSet::new());
    let m = c.take_in(&me, &raw("m1", "alice")).unwrap();
    c.record(&m.id, &Ok(DeliveryResult::Failed("404".to_string())));
    assert_eq!(c.delivered, 0);
    assert_eq!(c.ack_ids, vec!["m1".to_string()]);
    assert!(c.take_in(&me, &raw("m1", "alice")).is_none());
}

#[test]
fn retried_message_is_offered_again() {
    let me = "bot".to_string();
    let mut c = PollCycle::start(SeenSet::new());
    let m = c.take_in(&me, &raw("m1", "alice")).unwrap();
    c.record(&m.id, &Ok(DeliveryResult::Retry("503".to_string())));
    assert_eq!(c.delivered, 0);
    assert!(c.ack_ids.is_empty());
    assert!(!c.seen.contains(&"m1".to_string()));
    assert!(c.take_in(&me, &raw("m1", "alice")).is_some());
}

#[test]
fn provider_error_is_offered_again() {
    let me = "bot".to_string();
    let mut c = PollCycle::start(seen_of(&["a", "b"]));
    let m = c.take_in(&me, &raw("m1", "alice")).unwrap();
    c.record(&m.id, &Err("disk full".to_string()));
    assert!(c.ack_ids.is_empty());
    assert_eq!(ids(&c.seen), vec!["a".to_string(), "b".to_string()]);
}

#[test]
fn peek_body_yields_messages() {
    let body = r#"{"data":{"messages":[
        {"id":"m1","fromAgentId":"alice","fromAgentName":"Alice","content":"hi","conversationId":"c1","contentType":"text","createdAt":"t","metadata":{"a":[1,2]}},
        {"id":"m2","fromAgentId":"bob","content":7},
        "not an object"
    ]}}"#;
    let batch = poll_batch(body).ok().unwrap().expect("non-empty batch");
    assert_eq!(batch.len(), 3);
    assert_eq!(batch[0].id.as_deref(), Some("m1"));
    assert_eq!(batch[0].from_agent_id.as_deref(), Some("alice"));
    assert_eq!(batch[0].from_agent_name.as_deref(), Some("Alice"));
    assert_eq!(batch[0].content.as_deref(), Some("hi"));
    assert_eq!(batch[0].metadata.as_deref(), Some("{\"a\":[1,2]}"));
    assert_eq!(batch[1].id.as_deref(), Some("m2"));
    assert_eq!(batch[1].content, None);
    assert_eq!(batch[1].metadata, None);
    assert_eq!(batch[2].id, None);
    assert_eq!(batch[2].from_agent_id, None);
}

#[test]
fn peek_body_without_messages_is_no_batch() {
    assert!(poll_batch(r#"{"data":{"messages":[]}}"#).ok().unwrap().is_none());
    assert!(poll_batch(r#"{"data":{}}"#).ok().unwrap().is_none());
    assert!(poll_batch(r#"{"data":{"messages":"x"}}"#).ok().unwrap().is_none());
    assert!(poll_batch("[1,2]").ok().unwrap().is_none());
    assert!(poll_batch("not json").is_err());
}

#[test]
fn seen_set_survives_save_and_restore() {
    let mut s = seen_of(&["m1", "m2", "m3"]);
    let saved = s.persist();
    let back = SeenSet::restore(Some(saved));
    assert_eq!(ids(&back), vec!["m1".to_string(), "m2".to_string(), "m3".to_string()]);
}

#[test]
fn seen_set_keeps_most_recent_ids() {
    let all: Vec<String> = (0..SEEN_LIMIT + 5).map(|i| format!("id{}", i)).collect();
    let mut s = SeenSet::from_ids(all.clone());
    let saved = s.persist();
    assert_eq!(ids(&s).len(), SEEN_LIMIT);
    assert_eq!(ids(&s)[0], "id5");
    assert_eq!(ids(&s)[SEEN_LIMIT - 1], format!("id{}", SEEN_LIMIT + 4));
    let back = SeenSet::restore(Some(saved));
    assert_eq!(ids(&back), all[5..].to_vec());
}

#[test]
fn seen_set_restore_edge_cases() {
    assert!(ids(&SeenSet::restore(None)).is_empty());
    assert!(ids(&SeenSet::restore(Some("garbage".to_string()))).is_empty());
    assert!(ids(&SeenSet::restore(Some("[1,2]".to_string()))).is_empty());
    let d = SeenSet::restore(Some(r#"["a","b","a","c","b"]"#.to_string()));
    assert_eq!(ids(&d), vec!["a".to_string(), "b".to_string(), "c".to_string()]);
}

#[test]
fn seen_set_remove_and_insert() {
    let mut s = seen_of(&["a", "b", "c"]);
    s.remove(&"b".to_string());
    assert_eq!(ids(&s), vec!["a".to_string(), "c".to_string()]);
    s.remove(&"zzz".to_string());
    assert_eq!(ids(&s), vec!["a".to_string(), "c".to_string()]);
    s.insert("a".to_string());
    s.insert("d".to_string());
    assert_eq!(ids(&s), vec!["a".to_string(), "c".to_string(), "d".to_string()]);
}

#[test]
fn backoff_delays() {
    let mut b = PollBackoff::new();
    assert_eq!(b.delay_secs(15), 15);
    let mut got = Vec::new();
    for _ in 0..12 {
        b.on_error();
        got.push(b.delay_secs(15));
    }
    assert_eq!(got, vec![30, 30, 30, 30, 30, 60, 60, 60, 60, 60, 120, 120]);
    b.on_success();
    assert_eq!(b.delay_secs(7), 7);
}

#[test]
fn request_endpoints_and_headers() {
    let base = "https://api.signaldock.io".to_string();
    assert_eq!(
        peek_url(&base, &"my agent/é~x".to_string()),
        "https://api.signaldock.io/messages/peek?limit=50&mentioned=my%20agent%2F%C3%A9~x"
    );
    assert_eq!(ack_url(&base), "https://api.signaldock.io/messages/ack");
    assert_eq!(stream_url(&base), "https://api.signaldock.io/messages/stream");
    assert_eq!(bearer(&"sk_live_1".to_string()), "Bearer sk_live_1");
    assert_eq!(user_agent("0.4.0", &"bot".to_string()), "signaldock-runtime/0.4.0 (bot)");
}
