//! The data of the chat core: conversations, messages, their lifecycle and
//! the forms in which they leave the service.

use vstd::prelude::*;
use crate::db::{Thing, ThingView};

verus! {

/// Where a message stands in its lifecycle. A status only ever moves
/// forward: from `Sent` to `Delivered` to `Seen`, or from `Sent` straight to
/// `Seen`.
#[derive(Debug, Clone, Copy, PartialEq, Eq, Structural)]
pub enum MessageStatus {
    Sent,
    Delivered,
    Seen,
}

impl MessageStatus {
    /// How far along the lifecycle a status is.
    pub open spec fn rank(self) -> nat {
        match self {
            MessageStatus::Sent => 0,
            MessageStatus::Delivered => 1,
            MessageStatus::Seen => 2,
        }
    }

    /// The status after a delivery acknowledgement.
    pub open spec fn spec_delivered(self) -> MessageStatus {
        match self {
            MessageStatus::Sent => MessageStatus::Delivered,
            other => other,
        }
    }

    /// The status after a read acknowledgement.
    pub open spec fn spec_seen(self) -> MessageStatus {
        MessageStatus::Seen
    }

    /// The name under which a status is written.
    pub open spec fn spec_name(self) -> Seq<char> {
        match self {
            MessageStatus::Sent => "Sent"@,
            MessageStatus::Delivered => "Delivered"@,
            MessageStatus::Seen => "Seen"@,
        }
    }

    /// The status after a delivery acknowledgement: `Delivered` where the
    /// message was only `Sent`, and unchanged otherwise.
    pub fn delivered(self) -> (next: MessageStatus)
        ensures
            next == self.spec_delivered(),
    {
        match self {
            MessageStatus::Sent => MessageStatus::Delivered,
            other => other,
        }
    }

    /// The status after a read acknowledgement: always `Seen`.
    pub fn seen(self) -> (next: MessageStatus)
        ensures
            next == self.spec_seen(),
    {
        MessageStatus::Seen
    }

    /// The name under which a status is written: that of the variant.
    pub fn name(&self) -> (text: &'static str)
        ensures
            text@ == self.spec_name(),
    {
        match self {
            MessageStatus::Sent => "Sent",
            MessageStatus::Delivered => "Delivered",
            MessageStatus::Seen => "Seen",
        }
    }
}

/// No acknowledgement moves a status backwards, and a delivery
/// acknowledgement that arrives after a read acknowledgement leaves the
/// message `Seen`.
pub proof fn lemma_status_monotone(status: MessageStatus)
    ensures
        status.rank() <= status.spec_delivered().rank(),
        status.rank() <= status.spec_seen().rank(),
        status.spec_seen().spec_delivered() == MessageStatus::Seen,
        status.spec_delivered().spec_delivered() == status.spec_delivered(),
        status.spec_delivered().spec_seen() == status.spec_seen(),
{
}

/// The views of a list of record references, in order.
pub open spec fn thing_views(things: Seq<Thing>) -> Seq<ThingView> {
    things.map_values(|t: Thing| t@)
}

/// The views of a list of texts, in order.
pub open spec fn text_views(texts: Seq<String>) -> Seq<Seq<char>> {
    texts.map_values(|t: String| t@)
}

/// The texts that a list of records is written as, in order.
pub open spec fn sql_texts(things: Seq<ThingView>) -> Seq<Seq<char>> {
    things.map_values(|t: ThingView| t.sql())
}

/// A conversation between two users, as the store holds it.
#[derive(Debug)]
pub struct Conversation {
    pub id: Thing,
    pub created_at: i64,
    pub pair_key: String,
    pub participants: Vec<Thing>,
}

/// The mathematical value of a [`Conversation`].
pub ghost struct ConversationView {
    pub id: ThingView,
    pub created_at: i64,
    pub pair_key: Seq<char>,
    pub participants: Seq<ThingView>,
}

impl View for Conversation {
    type V = ConversationView;

    open spec fn view(&self) -> ConversationView {
        ConversationView {
            id: self.id@,
            created_at: self.created_at,
            pair_key: self.pair_key@,
            participants: thing_views(self.participants@),
        }
    }
}

/// Copies a list of record references.
pub fn duplicate_things(things: &Vec<Thing>) -> (copy: Vec<Thing>)
    ensures
        thing_views(copy@) == thing_views(things@),
{
    let mut copy: Vec<Thing> = Vec::new();
    let mut i: usize = 0;
    while i < things.len()
        invariant
            i <= things.len(),
            copy.len() == i,
            forall|j: int| 0 <= j < i ==> copy@[j]@ == things@[j]@,
        decreases things.len() - i,
    {
        copy.push(things[i].duplicate());
        i += 1;
    }
    assert(thing_views(copy@) =~= thing_views(things@));
    copy
}

impl Conversation {
    /// A copy of `self`.
    pub fn duplicate(&self) -> (copy: Conversation)
        ensures
            copy@ == self@,
    {
        Conversation {
            id: self.id.duplicate(),
            created_at: self.created_at,
            pair_key: self.pair_key.clone(),
            participants: duplicate_things(&self.participants),
        }
    }
}

/// A conversation as it is reported to a caller: identifiers as text.
#[derive(Debug)]
pub struct ConversationResponse {
    pub id: String,
    pub created_at: i64,
    pub pair_key: String,
    pub participants: Vec<String>,
}

/// The mathematical value of a [`ConversationResponse`].
pub ghost struct ConversationResponseView {
    pub id: Seq<char>,
    pub created_at: i64,
    pub pair_key: Seq<char>,
    pub participants: Seq<Seq<char>>,
}

impl View for ConversationResponse {
    type V = ConversationResponseView;

    open spec fn view(&self) -> ConversationResponseView {
        ConversationResponseView {
            id: self.id@,
            created_at: self.created_at,
            pair_key: self.pair_key@,
            participants: text_views(self.participants@),
        }
    }
}

impl ConversationView {
    /// The response that reports this conversation.
    pub open spec fn response(self) -> ConversationResponseView {
        ConversationResponseView {
            id: self.id.sql(),
            created_at: self.created_at,
            pair_key: self.pair_key,
            participants: sql_texts(self.participants),
        }
    }
}

/// Writes each record reference of `things` as text.
pub fn things_to_sql(things: &Vec<Thing>) -> (texts: Vec<String>)
    ensures
        text_views(texts@) == sql_texts(thing_views(things@)),
{
    let mut texts: Vec<String> = Vec::new();
    let mut i: usize = 0;
    while i < things.len()
        invariant
            i <= things.len(),
            texts.len() == i,
            forall|j: int| 0 <= j < i ==> texts@[j]@ == things@[j]@.sql(),
        decreases things.len() - i,
    {
        texts.push(things[i].to_sql());
        i += 1;
    }
    assert(text_views(texts@) =~= sql_texts(thing_views(things@)));
    texts
}

impl ConversationResponse {
    /// Reports `value`: the same conversation with its identifiers written
    /// as text.
    pub fn from(value: Conversation) -> (response: ConversationResponse)
        ensures
            response@ == value@.response(),
    {
        ConversationResponse {
            id: value.id.to_sql(),
            created_at: value.created_at,
            participants: things_to_sql(&value.participants),
            pair_key: value.pair_key,
        }
    }
}

/// A message, as the store holds it.
#[derive(Debug)]
pub struct Message {
    pub id: Thing,
    pub conversation_id: Thing,
    pub created_at: i64,
    pub read_at: Option<i64>,
    pub sender_id: Thing,
    pub status: MessageStatus,
    pub text: String,
}

/// The mathematical value of a [`Message`].
pub ghost struct MessageView {
    pub id: ThingView,
    pub conversation_id: ThingView,
    pub created_at: i64,
    pub read_at: Option<i64>,
    pub sender_id: ThingView,
    pub status: MessageStatus,
    pub text: Seq<char>,
}

impl View for Message {
    type V = MessageView;

    open spec fn view(&self) -> MessageView {
        MessageView {
            id: self.id@,
            conversation_id: self.conversation_id@,
            created_at: self.created_at,
            read_at: self.read_at,
            sender_id: self.sender_id@,
            status: self.status,
            text: self.text@,
        }
    }
}

impl MessageView {
    /// This message after a delivery acknowledgement.
    pub open spec fn delivered(self) -> MessageView {
        MessageView { status: self.status.spec_delivered(), ..self }
    }

    /// This message after a read acknowledgement at time `now`.
    pub open spec fn seen(self, now: i64) -> MessageView {
        MessageView { status: MessageStatus::Seen, read_at: Some(now), ..self }
    }

    /// The response that reports this message.
    pub open spec fn response(self) -> MessageResponseView {
        MessageResponseView {
            id: self.id.sql(),
            conversation_id: self.conversation_id.sql(),
            created_at: self.created_at,
            read_at: self.read_at,
            sender_id: self.sender_id.sql(),
            status: self.status,
            text: self.text,
        }
    }
}

impl Message {
    /// A copy of `self`.
    pub fn duplicate(&self) -> (copy: Message)
        ensures
            copy@ == self@,
    {
        Message {
            id: self.id.duplicate(),
            conversation_id: self.conversation_id.duplicate(),
            created_at: self.created_at,
            read_at: self.read_at,
            sender_id: self.sender_id.duplicate(),
            status: self.status,
            text: self.text.clone(),
        }
    }
}

/// A request to send `text` into a conversation.
#[derive(Debug)]
pub struct MessageRequest {
    pub conversation_id: String,
    pub text: String,
}

/// A message as it is reported to a caller: identifiers as text.
#[derive(Debug)]
pub struct MessageResponse {
    pub id: String,
    pub conversation_id: String,
    pub created_at: i64,
    pub read_at: Option<i64>,
    pub sender_id: String,
    pub status: MessageStatus,
    pub text: String,
}

/// The mathematical value of a [`MessageResponse`].
pub ghost struct MessageResponseView {
    pub id: Seq<char>,
    pub conversation_id: Seq<char>,
    pub created_at: i64,
    pub read_at: Option<i64>,
    pub sender_id: Seq<char>,
    pub status: MessageStatus,
    pub text: Seq<char>,
}

impl View for MessageResponse {
    type V = MessageResponseView;

    open spec fn view(&self) -> MessageResponseView {
        MessageResponseView {
            id: self.id@,
            conversation_id: self.conversation_id@,
            created_at: self.created_at,
            read_at: self.read_at,
            sender_id: self.sender_id@,
            status: self.status,
            text: self.text@,
        }
    }
}

impl MessageResponse {
    /// Reports `msg`: the same message with its identifiers written as text.
    pub fn from(msg: Message) -> (response: MessageResponse)
        ensures
            response@ == msg@.response(),
    {
        MessageResponse {
            id: msg.id.to_sql(),
            conversation_id: msg.conversation_id.to_sql(),
            created_at: msg.created_at,
            read_at: msg.read_at,
            sender_id: msg.sender_id.to_sql(),
            status: msg.status,
            text: msg.text,
        }
    }
}

/// An event on the duplex stream of a chat session.
#[derive(Debug)]
pub enum WsEvent {
    /// The client sends `message` into the conversation.
    Message { message: String },
    /// The message `message_id` has reached its recipient.
    Delivered { message_id: String },
    /// The message `message_id` has been read.
    Seen { message_id: String },
}

/// The mathematical value of a [`WsEvent`].
pub ghost enum WsEventView {
    Message { message: Seq<char> },
    Delivered { message_id: Seq<char> },
    Seen { message_id: Seq<char> },
}

impl View for WsEvent {
    type V = WsEventView;

    open spec fn view(&self) -> WsEventView {
        match self {
            WsEvent::Message { message } => WsEventView::Message { message: message@ },
            WsEvent::Delivered { message_id } => WsEventView::Delivered { message_id: message_id@ },
            WsEvent::Seen { message_id } => WsEventView::Seen { message_id: message_id@ },
        }
    }
}

} // verus!
