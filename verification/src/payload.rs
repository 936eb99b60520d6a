//! The JSON objects the runtime hands to agent platforms: which members
//! each carries, and their encoding by `serde_json`.

use vstd::prelude::*;
use crate::message::{Message, MessageView};

verus! {

/// The value of one member of a payload object.
pub enum JsonPiece {
    /// A JSON string.
    Text(String),
    /// A JSON boolean.
    Flag(bool),
    /// A JSON value given as JSON text (JSON `null` if the text is not JSON).
    Json(String),
}

/// Mathematical model of a [`JsonPiece`].
pub enum PieceView {
    Text(Seq<char>),
    Flag(bool),
    Json(Seq<char>),
}

impl View for JsonPiece {
    type V = PieceView;

    open spec fn view(&self) -> PieceView {
        match self {
            JsonPiece::Text(t) => PieceView::Text(t@),
            JsonPiece::Flag(b) => PieceView::Flag(*b),
            JsonPiece::Json(t) => PieceView::Json(t@),
        }
    }
}

/// One member of a payload object.
pub struct JsonField {
    pub key: String,
    pub value: JsonPiece,
}

impl View for JsonField {
    type V = (Seq<char>, PieceView);

    open spec fn view(&self) -> (Seq<char>, PieceView) {
        (self.key@, self.value@)
    }
}

pub open spec fn fields_view(v: Seq<JsonField>) -> Seq<(Seq<char>, PieceView)> {
    v.map_values(|f: JsonField| f@)
}

/// The compact JSON text that `serde_json` writes for an object with these members.
pub uninterp spec fn json_object_text(fields: Seq<(Seq<char>, PieceView)>) -> Seq<char>;

/// The pretty-printed JSON text that `serde_json` writes for an object with these members.
pub uninterp spec fn json_object_pretty(fields: Seq<(Seq<char>, PieceView)>) -> Seq<char>;

/// Builds a `serde_json::Map` of the members (a `Json` piece read with
/// `serde_json::from_str`, `null` when that fails) and writes it with
/// `serde_json::to_string`. The claim is that it succeeds (a `Value` has no
/// `Serialize` impl that fails and only string keys) and that the text is
/// the named compact encoding of the members.
#[verifier::external_body]
pub(crate) fn encode_object(fields: &Vec<JsonField>) -> (t: Option<String>)
    ensures
        t is Some,
        t matches Some(x) ==> x@ == json_object_text(fields_view(fields@)),
{
    let mut m = serde_json::Map::new();
    for f in fields {
        let v = match &f.value {
            JsonPiece::Text(t) => serde_json::Value::String(t.clone()),
            JsonPiece::Flag(b) => serde_json::Value::Bool(*b),
            JsonPiece::Json(t) => serde_json::from_str(t).unwrap_or(serde_json::Value::Null),
        };
        m.insert(f.key.clone(), v);
    }
    serde_json::to_string(&serde_json::Value::Object(m)).ok()
}

/// As [`encode_object`], written with `serde_json::to_string_pretty`; the
/// claim is that it succeeds and gives the named pretty encoding.
#[verifier::external_body]
pub(crate) fn encode_object_pretty(fields: &Vec<JsonField>) -> (t: Option<String>)
    ensures
        t is Some,
        t matches Some(x) ==> x@ == json_object_pretty(fields_view(fields@)),
{
    let mut m = serde_json::Map::new();
    for f in fields {
        let v = match &f.value {
            JsonPiece::Text(t) => serde_json::Value::String(t.clone()),
            JsonPiece::Flag(b) => serde_json::Value::Bool(*b),
            JsonPiece::Json(t) => serde_json::from_str(t).unwrap_or(serde_json::Value::Null),
        };
        m.insert(f.key.clone(), v);
    }
    serde_json::to_string_pretty(&serde_json::Value::Object(m)).ok()
}

/// The compact JSON text of an object with the members `fields`.
pub fn object_text(fields: &Vec<JsonField>) -> (t: String)
    ensures
        t@ == json_object_text(fields_view(fields@)),
{
    match encode_object(fields) {
        Some(t) => t,
        None => String::new(),
    }
}

/// The pretty-printed JSON text of an object with the members `fields`.
pub fn object_pretty(fields: &Vec<JsonField>) -> (t: String)
    ensures
        t@ == json_object_pretty(fields_view(fields@)),
{
    match encode_object_pretty(fields) {
        Some(t) => t,
        None => String::new(),
    }
}

/// A text member.
pub open spec fn text_member(key: Seq<char>, value: Seq<char>) -> (Seq<char>, PieceView) {
    (key, PieceView::Text(value))
}

/// The members the webhook and file providers send: sender, content, id,
/// conversation, content type, creation time and metadata.
pub open spec fn message_members(m: MessageView) -> Seq<(Seq<char>, PieceView)> {
    seq![
        text_member("from"@, m.from),
        text_member("content"@, m.content),
        text_member("messageId"@, m.id),
        text_member("conversationId"@, m.conversation_id),
        text_member("contentType"@, m.content_type),
        text_member("createdAt"@, m.created_at),
        ("metadata"@, PieceView::Json(m.metadata)),
    ]
}

/// The members the stdout provider prints: sender, content, id,
/// conversation and creation time.
pub open spec fn stdout_members(m: MessageView) -> Seq<(Seq<char>, PieceView)> {
    seq![
        text_member("from"@, m.from),
        text_member("content"@, m.content),
        text_member("messageId"@, m.id),
        text_member("conversationId"@, m.conversation_id),
        text_member("createdAt"@, m.created_at),
    ]
}

fn text_field(key: &str, value: &String) -> (f: JsonField)
    ensures
        f@ == text_member(key@, value@),
{
    JsonField { key: key.to_owned(), value: JsonPiece::Text(value.clone()) }
}

/// The members of the webhook and file payload for `msg`.
pub fn message_fields(msg: &Message) -> (f: Vec<JsonField>)
    ensures
        fields_view(f@) == message_members(msg@),
{
    let mut f: Vec<JsonField> = Vec::new();
    f.push(text_field("from", &msg.from));
    f.push(text_field("content", &msg.content));
    f.push(text_field("messageId", &msg.id));
    f.push(text_field("conversationId", &msg.conversation_id));
    f.push(text_field("contentType", &msg.content_type));
    f.push(text_field("createdAt", &msg.created_at));
    f.push(JsonField { key: "metadata".to_owned(), value: JsonPiece::Json(msg.metadata.clone()) });
    assert(fields_view(f@) =~= message_members(msg@));
    f
}

/// The members of the stdout line for `msg`.
pub fn stdout_fields(msg: &Message) -> (f: Vec<JsonField>)
    ensures
        fields_view(f@) == stdout_members(msg@),
{
    let mut f: Vec<JsonField> = Vec::new();
    f.push(text_field("from", &msg.from));
    f.push(text_field("content", &msg.content));
    f.push(text_field("messageId", &msg.id));
    f.push(text_field("conversationId", &msg.conversation_id));
    f.push(text_field("createdAt", &msg.created_at));
    assert(fields_view(f@) =~= stdout_members(msg@));
    f
}

/// The members of the OpenClaw hook body: the wake text, the name
/// `SignalDock`, `deliver: true`, channel `telegram` and wake mode `now`.
pub open spec fn openclaw_members(m: MessageView) -> Seq<(Seq<char>, PieceView)> {
    seq![
        text_member("message"@, crate::providers::wake_text(m.from, m.content)),
        text_member("name"@, "SignalDock"@),
        ("deliver"@, PieceView::Flag(true)),
        text_member("channel"@, "telegram"@),
        text_member("wakeMode"@, "now"@),
    ]
}

/// The members of the OpenClaw hook body for `msg`.
pub fn openclaw_fields(msg: &Message) -> (f: Vec<JsonField>)
    ensures
        fields_view(f@) == openclaw_members(msg@),
{
    let wake = crate::providers::OpenClawProvider::wake_message(msg);
    let mut f: Vec<JsonField> = Vec::new();
    f.push(text_field("message", &wake));
    f.push(JsonField { key: "name".to_owned(), value: JsonPiece::Text("SignalDock".to_owned()) });
    f.push(JsonField { key: "deliver".to_owned(), value: JsonPiece::Flag(true) });
    f.push(JsonField { key: "channel".to_owned(), value: JsonPiece::Text("telegram".to_owned()) });
    f.push(JsonField { key: "wakeMode".to_owned(), value: JsonPiece::Text("now".to_owned()) });
    assert(fields_view(f@) =~= openclaw_members(msg@));
    f
}

} // verus!
