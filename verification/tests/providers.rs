use signaldock_runtime::cli::plan_connect;
use signaldock_runtime::config::Config;
use signaldock_runtime::message::{DeliveryResult, Message, RawMessage};
use signaldock_runtime::providers::{
    classify_webhook, create_provider, detect_provider, local_url_for, Detection, FileProvider,
    HttpOutcome, OpenClawProvider, SelectedProvider, StdoutProvider, WebhookProvider,
};
use signaldock_runtime::wire::OpenClawSettings;

fn status(code: u16, text: &str) -> HttpOutcome {
    HttpOutcome::Status { code, text: text.to_string() }
}

fn transport(transient: bool, text: &str) -> HttpOutcome {
    HttpOutcome::Transport { transient, text: text.to_string() }
}

fn describe(r: DeliveryResult) -> String {
    match r {
        DeliveryResult::Delivered => "delivered".to_string(),
        DeliveryResult::Retry(t) => format!("retry: {}", t),
        DeliveryResult::Failed(t) => format!("failed: {}", t),
    }
}

fn config(platform: &str, webhook: Option<&str>, dir: Option<&str>) -> Config {
    let mut c = Config::for_connect(
        "bot".to_string(),
        "key".to_string(),
        "https://api.signaldock.io".to_string(),
        platform.to_string(),
        webhook.map(|s| s.to_string()),
    );
    c.file_output_dir = dir.map(|s| s.to_string());
    c
}

fn settings(enabled: Option<bool>, port: Option<u64>, token: Option<&str>) -> OpenClawSettings {
    OpenClawSettings { hooks_enabled: enabled, gateway_port: port, hooks_token: token.map(|s| s.to_string()) }
}

#[test]
fn webhook_classification() {
    assert_eq!(describe(classify_webhook(&status(200, "200 OK"))), "delivered");
    assert_eq!(describe(classify_webhook(&status(299, "299"))), "delivered");
    assert_eq!(describe(classify_webhook(&status(199, "199"))), "failed: 199");
    assert_eq!(describe(classify_webhook(&status(404, "404 Not Found"))), "failed: 404 Not Found");
    assert_eq!(describe(classify_webhook(&status(500, "500 Internal Server Error"))), "retry: 500 Internal Server Error");
    assert_eq!(describe(classify_webhook(&status(599, "599"))), "retry: 599");
    assert_eq!(describe(classify_webhook(&status(600, "600"))), "failed: 600");
    assert_eq!(describe(classify_webhook(&transport(true, "timed out"))), "retry: timed out");
    assert_eq!(describe(classify_webhook(&transport(false, "bad url"))), "failed: bad url");
}

#[test]
fn openclaw_classification() {
    assert_eq!(describe(OpenClawProvider::classify(&status(202, "202 Accepted"))), "delivered");
    assert_eq!(
        describe(OpenClawProvider::classify(&status(502, "502 Bad Gateway"))),
        "retry: OpenClaw 502 Bad Gateway — server error"
    );
    assert_eq!(
        describe(OpenClawProvider::classify(&status(401, "401 Unauthorized"))),
        "failed: OpenClaw 401 Unauthorized — check hooks config"
    );
    assert_eq!(
        describe(OpenClawProvider::classify(&transport(true, "refused"))),
        "retry: OpenClaw connection error: refused"
    );
    assert_eq!(describe(OpenClawProvider::classify(&transport(false, "oops"))), "failed: OpenClaw error: oops");
}

#[test]
fn openclaw_health_check() {
    assert!(OpenClawProvider::healthy_from(&status(200, "200 OK")));
    assert!(!OpenClawProvider::healthy_from(&status(503, "503")));
    assert!(!OpenClawProvider::healthy_from(&transport(true, "refused")));
    let p = OpenClawProvider::new_default();
    assert_eq!(p.health_url(), "http://127.0.0.1:18789/health");
}

#[test]
fn openclaw_default_and_new() {
    let d = OpenClawProvider::new_default();
    assert_eq!(d.hooks_url(), "http://127.0.0.1:18789/hooks/agent");
    assert_eq!(d.port(), 18789);
    assert_eq!(d.auth_header(), "Bearer ");
    let p = OpenClawProvider::new("http://h/hooks".to_string(), "tok".to_string(), 9);
    assert_eq!(p.hooks_url(), "http://h/hooks");
    assert_eq!(p.port(), 9);
    assert_eq!(p.auth_header(), "Bearer tok");
}

#[test]
fn openclaw_settings_decide_detection() {
    assert!(OpenClawProvider::from_settings(&settings(None, Some(1), Some("t"))).is_none());
    assert!(OpenClawProvider::from_settings(&settings(Some(false), Some(1), Some("t"))).is_none());
    assert!(OpenClawProvider::from_settings(&settings(Some(true), Some(1), None)).is_none());
    let p = OpenClawProvider::from_settings(&settings(Some(true), None, Some("t"))).unwrap();
    assert_eq!(p.port(), 18789);
    assert_eq!(p.hooks_url(), "http://127.0.0.1:18789/hooks/agent");
    assert_eq!(p.auth_header(), "Bearer t");
    let q = OpenClawProvider::from_settings(&settings(Some(true), Some(70000), Some("t"))).unwrap();
    assert_eq!(q.port(), 4464);
    assert_eq!(q.hooks_url(), "http://127.0.0.1:4464/hooks/agent");
}

#[test]
fn openclaw_detection_from_config_text() {
    let text = r#"{"hooks":{"enabled":true,"token":"abc"},"gateway":{"port":19000}}"#;
    let p = OpenClawProvider::detect_from(Some(text.to_string())).unwrap();
    assert_eq!(p.port(), 19000);
    assert_eq!(p.hooks_url(), "http://127.0.0.1:19000/hooks/agent");
    assert_eq!(p.auth_header(), "Bearer abc");
    assert!(OpenClawProvider::detect_from(Some(r#"{"hooks":{"enabled":"yes","token":"a"}}"#.to_string())).is_none());
    assert!(OpenClawProvider::detect_from(Some(r#"{"hooks":{"enabled":true}}"#.to_string())).is_none());
    assert!(OpenClawProvider::detect_from(Some("{".to_string())).is_none());
    assert!(OpenClawProvider::detect_from(None).is_none());
    let q = OpenClawProvider::detect_from(Some(r#"{"hooks":{"enabled":true,"token":"x"},"gateway":{"port":-5}}"#.to_string())).unwrap();
    assert_eq!(q.port(), 18789);
}

#[test]
fn openclaw_wake_message() {
    let mut r = RawMessage::empty();
    r.from_agent_id = Some("alice".to_string());
    r.content = Some("ping".to_string());
    let m = Message::from_raw(&r);
    assert_eq!(OpenClawProvider::wake_message(&m), "SignalDock message from @alice:\n\nping");
}

#[test]
fn provider_infos() {
    let w = WebhookProvider::new("http://x".to_string()).info();
    assert_eq!((w.name, w.display_name, w.version, w.docs_url), ("webhook", "Webhook", "-", ""));
    assert!(w.config_paths.is_empty());
    let s = StdoutProvider.info();
    assert_eq!((s.name, s.display_name), ("stdout", "Stdout"));
    let f = FileProvider::new("/tmp/x".to_string()).info();
    assert_eq!((f.name, f.display_name), ("file", "File Output"));
    let o = OpenClawProvider::new_default().info();
    assert_eq!((o.name, o.display_name, o.version), ("openclaw", "OpenClaw", "2026.x"));
    assert_eq!(o.config_paths, vec!["~/.openclaw/openclaw.json"]);
    assert_eq!(o.docs_url, "https://docs.openclaw.ai");
}

#[test]
fn file_provider_names_files_by_id() {
    let mut r = RawMessage::empty();
    r.id = Some("msg-42".to_string());
    let m = Message::from_raw(&r);
    assert_eq!(FileProvider::file_name(&m), "msg-42.json");
    assert_eq!(FileProvider::new("/d".to_string()).output_dir(), "/d");
    assert_eq!(WebhookProvider::new("http://w".to_string()).url(), "http://w");
}

#[test]
fn create_provider_selects_by_platform() {
    let dflt = "/home/u/.signaldock/messages".to_string();
    match create_provider(&config("openclaw", None, None), None, dflt.clone()) {
        Ok(SelectedProvider::OpenClaw(p)) => assert_eq!(p.port(), 18789),
        _ => panic!("openclaw"),
    }
    let found = OpenClawProvider::new("u".to_string(), "t".to_string(), 5);
    match create_provider(&config("openclaw", None, None), Some(found), dflt.clone()) {
        Ok(SelectedProvider::OpenClaw(p)) => assert_eq!(p.port(), 5),
        _ => panic!("detected openclaw"),
    }
    match create_provider(&config("webhook", Some("http://hook"), None), None, dflt.clone()) {
        Ok(SelectedProvider::Webhook(p)) => assert_eq!(p.url(), "http://hook"),
        _ => panic!("webhook"),
    }
    match create_provider(&config("file", None, None), None, dflt.clone()) {
        Ok(SelectedProvider::File(p)) => assert_eq!(p.output_dir(), "/home/u/.signaldock/messages"),
        _ => panic!("file"),
    }
    match create_provider(&config("file", None, Some("/out")), None, dflt.clone()) {
        Ok(SelectedProvider::File(p)) => assert_eq!(p.output_dir(), "/out"),
        _ => panic!("file dir"),
    }
    assert!(matches!(create_provider(&config("stdout", None, None), None, dflt.clone()), Ok(SelectedProvider::Stdout(_))));
    assert!(matches!(create_provider(&config("anything", None, None), None, dflt.clone()), Ok(SelectedProvider::Stdout(_))));
}

#[test]
fn create_provider_errors() {
    let dflt = "/d".to_string();
    let err = |p: &str| match create_provider(&config(p, None, None), None, dflt.clone()) {
        Err(e) => e,
        Ok(_) => panic!("expected an error for {}", p),
    };
    assert_eq!(err("webhook"), "--webhook URL required");
    assert_eq!(err("codex"), "Codex CLI not found — is it installed?");
    assert_eq!(err("gemini"), "Gemini CLI not found — is it installed?");
    assert_eq!(err("copilot"), "Copilot not found — is it installed?");
    assert_eq!(err("opencode"), "OpenCode not found — is it installed?");
}

#[test]
fn detection_order() {
    let none = Detection { openclaw: false, codex: false, gemini: false, copilot: false, opencode: false };
    assert_eq!(detect_provider(&none), "stdout");
    assert_eq!(detect_provider(&Detection { openclaw: true, codex: true, ..none }), "openclaw");
    assert_eq!(detect_provider(&Detection { codex: true, opencode: true, ..none }), "codex");
    assert_eq!(detect_provider(&Detection { gemini: true, ..none }), "gemini");
    assert_eq!(detect_provider(&Detection { copilot: true, opencode: true, ..none }), "copilot");
    assert_eq!(detect_provider(&Detection { opencode: true, ..none }), "opencode");
}

#[test]
fn local_urls() {
    assert_eq!(local_url_for(4321, "/health"), "http://127.0.0.1:4321/health");
    assert_eq!(local_url_for(0, "/x"), "http://127.0.0.1:0/x");
}

#[test]
fn connect_plan_and_service_config() {
    let p = plan_connect(
        "bot".to_string(), "k".to_string(), "https://api".to_string(), "stdout".to_string(),
        None, 15, false, 4321,
    );
    assert!(p.use_sse);
    assert_eq!(p.health_port, Some(4321));
    assert_eq!(p.interval_secs, 15);
    assert_eq!(p.config.platform, "stdout");
    assert_eq!(p.config.file_output_dir, None);
    let q = plan_connect(
        "bot".to_string(), "k".to_string(), "https://api".to_string(), "webhook".to_string(),
        Some("http://w".to_string()), 5, true, 0,
    );
    assert!(!q.use_sse);
    assert_eq!(q.health_port, None);
    assert_eq!(q.config.webhook_url.as_deref(), Some("http://w"));
    let s = Config::for_service("bot".to_string(), "k".to_string(), "openclaw".to_string());
    assert_eq!(s.api_base, "https://api.signaldock.io");
    assert_eq!(s.webhook_url, None);
}

#[test]
fn providers_reach_same_verdict() {
    let kind = |r: DeliveryResult| match r {
        DeliveryResult::Delivered => 0,
        DeliveryResult::Retry(_) => 1,
        DeliveryResult::Failed(_) => 2,
    };
    let outcomes = vec![
        status(100, "100"), status(200, "200"), status(301, "301"), status(404, "404"),
        status(500, "500"), status(599, "599"), status(600, "600"),
        transport(true, "t"), transport(false, "f"),
    ];
    for o in &outcomes {
        assert_eq!(kind(classify_webhook(o)), kind(OpenClawProvider::classify(o)));
    }
}

fn object(members: Vec<(&str, serde_json::Value)>) -> serde_json::Value {
    let mut m = serde_json::Map::new();
    for (k, v) in members {
        m.insert(k.to_string(), v);
    }
    serde_json::Value::Object(m)
}

fn text(s: &str) -> serde_json::Value {
    serde_json::Value::String(s.to_string())
}

fn sample_message() -> Message {
    let mut r = RawMessage::empty();
    r.id = Some("m1".to_string());
    r.from_agent_id = Some("alice".to_string());
    r.content = Some("hi \"there\"".to_string());
    r.conversation_id = Some("c1".to_string());
    r.created_at = Some("t0".to_string());
    r.metadata = Some("{\"k\":[1,true]}".to_string());
    Message::from_raw(&r)
}

#[test]
fn webhook_and_file_payloads() {
    let m = sample_message();
    let body = WebhookProvider::payload(&m);
    let v: serde_json::Value = serde_json::from_str(&body).unwrap();
    let meta: serde_json::Value = serde_json::from_str("{\"k\":[1,true]}").unwrap();
    let expected = object(vec![
        ("from", text("alice")), ("content", text("hi \"there\"")), ("messageId", text("m1")),
        ("conversationId", text("c1")), ("contentType", text("text")), ("createdAt", text("t0")),
        ("metadata", meta),
    ]);
    assert_eq!(v, expected);
    assert_eq!(body, serde_json::to_string(&expected).unwrap());
    assert_eq!(FileProvider::content(&m), serde_json::to_string_pretty(&expected).unwrap());
}

#[test]
fn payload_metadata_defaults_to_null() {
    let m = Message::from_raw(&RawMessage::empty());
    let v: serde_json::Value = serde_json::from_str(&WebhookProvider::payload(&m)).unwrap();
    assert_eq!(v["metadata"], serde_json::Value::Null);
    assert_eq!(v["contentType"], "text");
}

#[test]
fn stdout_line_members() {
    let m = sample_message();
    let expected = object(vec![
        ("from", text("alice")), ("content", text("hi \"there\"")), ("messageId", text("m1")),
        ("conversationId", text("c1")), ("createdAt", text("t0")),
    ]);
    assert_eq!(StdoutProvider::line(&m), serde_json::to_string(&expected).unwrap());
}

#[test]
fn openclaw_hook_body() {
    let m = sample_message();
    let expected = object(vec![
        ("message", text("SignalDock message from @alice:\n\nhi \"there\"")),
        ("name", text("SignalDock")),
        ("deliver", serde_json::Value::Bool(true)),
        ("channel", text("telegram")),
        ("wakeMode", text("now")),
    ]);
    assert_eq!(OpenClawProvider::hook_body(&m), serde_json::to_string(&expected).unwrap());
}
