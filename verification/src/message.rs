//! Messages as they arrive from SignalDock and as they are handed to providers.

use vstd::prelude::*;

verus! {

/// The string members of one message object as decoded from the API, each
/// `None` when the member is absent or not a JSON string. `metadata` holds
/// the JSON text of the `metadata` member, whatever its type.
pub struct RawMessage {
    pub id: Option<String>,
    pub from_agent_id: Option<String>,
    pub from_agent_name: Option<String>,
    pub content: Option<String>,
    pub conversation_id: Option<String>,
    pub content_type: Option<String>,
    pub created_at: Option<String>,
    pub metadata: Option<String>,
}

/// Mathematical model of a [`RawMessage`].
pub struct RawMessageView {
    pub id: Option<Seq<char>>,
    pub from_agent_id: Option<Seq<char>>,
    pub from_agent_name: Option<Seq<char>>,
    pub content: Option<Seq<char>>,
    pub conversation_id: Option<Seq<char>>,
    pub content_type: Option<Seq<char>>,
    pub created_at: Option<Seq<char>>,
    pub metadata: Option<Seq<char>>,
}

pub open spec fn opt_text(o: Option<String>) -> Option<Seq<char>> {
    match o {
        Some(s) => Some(s@),
        None => None,
    }
}

/// The text in `o`, or `default` when there is none.
pub open spec fn text_or(o: Option<Seq<char>>, default: Seq<char>) -> Seq<char> {
    match o {
        Some(s) => s,
        None => default,
    }
}

impl View for RawMessage {
    type V = RawMessageView;

    open spec fn view(&self) -> RawMessageView {
        RawMessageView {
            id: opt_text(self.id),
            from_agent_id: opt_text(self.from_agent_id),
            from_agent_name: opt_text(self.from_agent_name),
            content: opt_text(self.content),
            conversation_id: opt_text(self.conversation_id),
            content_type: opt_text(self.content_type),
            created_at: opt_text(self.created_at),
            metadata: opt_text(self.metadata),
        }
    }
}

/// The model of a message object that has none of the members.
pub open spec fn empty_raw_view() -> RawMessageView {
    RawMessageView {
        id: None,
        from_agent_id: None,
        from_agent_name: None,
        content: None,
        conversation_id: None,
        content_type: None,
        created_at: None,
        metadata: None,
    }
}

pub open spec fn opt_raw_view(o: Option<RawMessage>) -> Option<RawMessageView> {
    match o {
        Some(r) => Some(r@),
        None => None,
    }
}

impl RawMessage {
    /// A message object with none of the members.
    pub fn empty() -> (r: RawMessage)
        ensures
            r@ == empty_raw_view(),
    {
        RawMessage {
            id: None,
            from_agent_id: None,
            from_agent_name: None,
            content: None,
            conversation_id: None,
            content_type: None,
            created_at: None,
            metadata: None,
        }
    }

    /// The message id, empty when absent.
    pub fn id_or_empty(&self) -> (s: String)
        ensures
            s@ == raw_id(self@),
    {
        text_or_empty(&self.id)
    }

    /// The sender's agent id, empty when absent.
    pub fn from_or_empty(&self) -> (s: String)
        ensures
            s@ == raw_from(self@),
    {
        text_or_empty(&self.from_agent_id)
    }
}

/// The id of a decoded message, empty when absent.
pub open spec fn raw_id(r: RawMessageView) -> Seq<char> {
    text_or(r.id, Seq::empty())
}

/// The sender of a decoded message, empty when absent.
pub open spec fn raw_from(r: RawMessageView) -> Seq<char> {
    text_or(r.from_agent_id, Seq::empty())
}

/// The text in `o`, or the empty string.
pub fn text_or_empty(o: &Option<String>) -> (s: String)
    ensures
        s@ == text_or(opt_text(*o), Seq::empty()),
{
    match o {
        Some(t) => t.clone(),
        None => String::new(),
    }
}

/// The text in `o`, or `default`.
pub fn text_or_default(o: &Option<String>, default: &str) -> (s: String)
    ensures
        s@ == text_or(opt_text(*o), default@),
{
    match o {
        Some(t) => t.clone(),
        None => default.to_owned(),
    }
}

/// A message ready for delivery to an agent platform.
pub struct Message {
    pub id: String,
    pub from: String,
    pub from_name: Option<String>,
    pub content: String,
    pub conversation_id: String,
    pub content_type: String,
    pub created_at: String,
    /// JSON text of the message metadata (`null` when the message had none).
    pub metadata: String,
}

/// Mathematical model of a [`Message`].
pub struct MessageView {
    pub id: Seq<char>,
    pub from: Seq<char>,
    pub from_name: Option<Seq<char>>,
    pub content: Seq<char>,
    pub conversation_id: Seq<char>,
    pub content_type: Seq<char>,
    pub created_at: Seq<char>,
    pub metadata: Seq<char>,
}

impl View for Message {
    type V = MessageView;

    open spec fn view(&self) -> MessageView {
        MessageView {
            id: self.id@,
            from: self.from@,
            from_name: opt_text(self.from_name),
            content: self.content@,
            conversation_id: self.conversation_id@,
            content_type: self.content_type@,
            created_at: self.created_at@,
            metadata: self.metadata@,
        }
    }
}

/// The message that a decoded message object stands for: absent text
/// members become empty, except `contentType`, which defaults to `text`, and
/// `metadata`, which defaults to JSON `null`.
pub open spec fn message_of(r: RawMessageView) -> MessageView {
    MessageView {
        id: raw_id(r),
        from: raw_from(r),
        from_name: r.from_agent_name,
        content: text_or(r.content, Seq::empty()),
        conversation_id: text_or(r.conversation_id, Seq::empty()),
        content_type: text_or(r.content_type, "text"@),
        created_at: text_or(r.created_at, Seq::empty()),
        metadata: text_or(r.metadata, "null"@),
    }
}

impl Message {
    /// Builds the message that a decoded message object stands for.
    pub fn from_raw(raw: &RawMessage) -> (m: Message)
        ensures
            m@ == message_of(raw@),
    {
        Message {
            id: text_or_empty(&raw.id),
            from: text_or_empty(&raw.from_agent_id),
            from_name: raw.from_agent_name.clone(),
            content: text_or_empty(&raw.content),
            conversation_id: text_or_empty(&raw.conversation_id),
            content_type: text_or_default(&raw.content_type, "text"),
            created_at: text_or_empty(&raw.created_at),
            metadata: text_or_default(&raw.metadata, "null"),
        }
    }
}

/// What a provider reports after trying to deliver a message.
pub enum DeliveryResult {
    /// The platform accepted the message.
    Delivered,
    /// A transient failure: the message should be offered again later.
    Retry(String),
    /// A permanent failure: the message should not be offered again.
    Failed(String),
}

/// Mathematical model of a [`DeliveryResult`].
pub enum DeliveryView {
    Delivered,
    Retry(Seq<char>),
    Failed(Seq<char>),
}

impl View for DeliveryResult {
    type V = DeliveryView;

    open spec fn view(&self) -> DeliveryView {
        match self {
            DeliveryResult::Delivered => DeliveryView::Delivered,
            DeliveryResult::Retry(r) => DeliveryView::Retry(r@),
            DeliveryResult::Failed(r) => DeliveryView::Failed(r@),
        }
    }
}

/// The outcome of one delivery attempt: the provider's report, or the text
/// of the error that stopped it from reporting.
pub type DeliveryOutcome = Result<DeliveryResult, String>;

} // verus!
