//! Decoding and encoding of the JSON documents the runtime exchanges, done by
//! `serde_json`. Each trusted item here makes one `serde_json` parse or
//! serialisation and moves the members it reads into plain values; what a
//! parse yields is given a name, since the JSON grammar is serde_json's.

use vstd::prelude::*;
use crate::message::{RawMessage, RawMessageView, opt_raw_view};

verus! {

/// The string members (and metadata text) that `serde_json` reads from the
/// message object in `text`; `None` when `text` is not JSON.
pub uninterp spec fn decoded_message(text: Seq<char>) -> Option<RawMessageView>;

/// `serde_json::from_str::<serde_json::Value>` on `text`, then, for each
/// message member, `Value::get` and `Value::as_str` (the `metadata` member
/// is rendered back to JSON text with `Value`'s `Display`). The claim is only
/// that the result is the named decoding of `text`: the same text always
/// decodes the same way.
#[verifier::external_body]
pub(crate) fn decode_message(text: &str) -> (r: Option<RawMessage>)
    ensures
        opt_raw_view(r) == decoded_message(text@),
{
    let v: serde_json::Value = serde_json::from_str(text).ok()?;
    let s = |k: &str| v.get(k).and_then(|x| x.as_str()).map(|x| x.to_string());
    Some(RawMessage {
        id: s("id"), from_agent_id: s("fromAgentId"), from_agent_name: s("fromAgentName"),
        content: s("content"), conversation_id: s("conversationId"),
        content_type: s("contentType"), created_at: s("createdAt"),
        metadata: v.get("metadata").map(|m| m.to_string()),
    })
}

/// What `serde_json` reads from the peek response in `text`: `None` when
/// `text` is not JSON; otherwise the JSON texts of the items of its
/// `data.messages` array, `None` when there is no such array.
pub uninterp spec fn peek_items(text: Seq<char>) -> Option<Option<Seq<Seq<char>>>>;

/// `serde_json::from_str::<serde_json::Value>` on a peek response, then
/// `get("data")`, `get("messages")` and `as_array`, each item rendered back
/// to JSON text. The claim is that the result is the named decoding.
#[verifier::external_body]
pub(crate) fn decode_peek_items(text: &str) -> (r: Option<Option<Vec<String>>>)
    ensures
        match r {
            Some(Some(v)) => peek_items(text@) == Some(Some(v.deep_view())),
            Some(None) => peek_items(text@) == Some(None::<Seq<Seq<char>>>),
            None => peek_items(text@) is None,
        },
{
    let v: serde_json::Value = serde_json::from_str(text).ok()?;
    let items = v.get("data").and_then(|d| d.get("messages")).and_then(|m| m.as_array());
    Some(items.map(|a| a.iter().map(|m| m.to_string()).collect()))
}

/// What the runtime reads from an OpenClaw configuration file.
pub struct OpenClawSettings {
    /// `hooks.enabled`, when it is a JSON boolean.
    pub hooks_enabled: Option<bool>,
    /// `gateway.port`, when it is a JSON number that fits in `u64`.
    pub gateway_port: Option<u64>,
    /// `hooks.token`, when it is a JSON string.
    pub hooks_token: Option<String>,
}

/// Mathematical model of [`OpenClawSettings`].
pub struct OpenClawSettingsView {
    pub hooks_enabled: Option<bool>,
    pub gateway_port: Option<u64>,
    pub hooks_token: Option<Seq<char>>,
}

impl View for OpenClawSettings {
    type V = OpenClawSettingsView;

    open spec fn view(&self) -> OpenClawSettingsView {
        OpenClawSettingsView {
            hooks_enabled: self.hooks_enabled,
            gateway_port: self.gateway_port,
            hooks_token: crate::message::opt_text(self.hooks_token),
        }
    }
}

/// What `serde_json` reads from the OpenClaw configuration text `text`;
/// `None` when `text` is not JSON.
pub uninterp spec fn openclaw_settings(text: Seq<char>) -> Option<OpenClawSettingsView>;

/// `serde_json::from_str::<serde_json::Value>` on an OpenClaw configuration,
/// then `get` with `as_bool` / `as_u64` / `as_str` on `hooks.enabled`,
/// `gateway.port` and `hooks.token`. The claim is that the result is the
/// named decoding of `text`.
#[verifier::external_body]
pub(crate) fn decode_openclaw_settings(text: &str) -> (r: Option<OpenClawSettings>)
    ensures
        match r {
            Some(s) => openclaw_settings(text@) == Some(s@),
            None => openclaw_settings(text@) is None,
        },
{
    let v: serde_json::Value = serde_json::from_str(text).ok()?;
    let hooks = v.get("hooks");
    Some(OpenClawSettings {
        hooks_enabled: hooks.and_then(|h| h.get("enabled")).and_then(|e| e.as_bool()),
        gateway_port: v.get("gateway").and_then(|g| g.get("port")).and_then(|p| p.as_u64()),
        hooks_token: hooks.and_then(|h| h.get("token")).and_then(|t| t.as_str()).map(|t| t.to_string()),
    })
}

/// The list of strings that `serde_json` reads from `text`; `None` when
/// `text` is not a JSON array of strings.
pub uninterp spec fn decoded_ids(text: Seq<char>) -> Option<Seq<Seq<char>>>;

/// `serde_json::from_str::<Vec<String>>`. The claim is that the result is the
/// named decoding of `text`.
#[verifier::external_body]
pub(crate) fn decode_ids(text: &str) -> (r: Option<Vec<String>>)
    ensures
        match r {
            Some(v) => decoded_ids(text@) == Some(v.deep_view()),
            None => decoded_ids(text@) is None,
        },
{
    serde_json::from_str::<Vec<String>>(text).ok()
}

/// The JSON text that `serde_json` writes for a list of strings.
pub uninterp spec fn encoded_ids(ids: Seq<Seq<char>>) -> Seq<char>;

/// `serde_json::to_string` on a list of strings. The claim is that it
/// succeeds (its only failures come from a `Serialize` impl that fails or a
/// map with non-string keys, neither possible for strings), that the text is
/// the named encoding of `ids`, and that `serde_json::from_str` reads that
/// text back as the same list (serde_json writes every string as a JSON
/// string literal with the escapes that its reader undoes).
#[verifier::external_body]
pub(crate) fn encode_ids(ids: &Vec<String>) -> (r: Option<String>)
    ensures
        r is Some,
        r matches Some(t) ==> t@ == encoded_ids(ids.deep_view()),
        r matches Some(t) ==> decoded_ids(t@) == Some(ids.deep_view()),
{
    serde_json::to_string(ids).ok()
}

} // verus!
