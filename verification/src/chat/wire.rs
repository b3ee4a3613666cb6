//! The wire form of events and messages: flat JSON objects.
//!
//! An event is an object whose member `type` names the variant in lower
//! case, beside one member for the variant's field:
//! `{"type":"message","message":"<text>"}`,
//! `{"type":"delivered","message_id":"<id>"}`,
//! `{"type":"seen","message_id":"<id>"}`.

use vstd::prelude::*;
use vstd::string::*;
use crate::chat::model::{MessageResponse, MessageResponseView, WsEvent, WsEventView};
use crate::error::{AppError, AppResult};
use crate::json::{
    find_text, json_object_members, json_object_text, member_text, member_views, null_member,
    read_object, text_member, write_object, JsonMember, MemberView,
};
use crate::time::{datetime_text, format_datetime};

verus! {

impl WsEventView {
    /// The members that this event is written with, the tag first.
    pub open spec fn members(self) -> Seq<MemberView> {
        match self {
            WsEventView::Message { message } => seq![
                ("type"@, Some("message"@)),
                ("message"@, Some(message)),
            ],
            WsEventView::Delivered { message_id } => seq![
                ("type"@, Some("delivered"@)),
                ("message_id"@, Some(message_id)),
            ],
            WsEventView::Seen { message_id } => seq![
                ("type"@, Some("seen"@)),
                ("message_id"@, Some(message_id)),
            ],
        }
    }

    /// The text that this event is written as.
    pub open spec fn text(self) -> Option<Seq<char>> {
        json_object_text(self.members())
    }
}

/// The event that an object with these members stands for: the member `type`
/// must name a variant, and the member for that variant's field must hold a
/// text. Members beyond these two are ignored.
pub open spec fn event_of_members(members: Seq<MemberView>) -> Option<WsEventView> {
    match member_text(members, "type"@) {
        Some(tag) => {
            if tag == "message"@ {
                match member_text(members, "message"@) {
                    Some(message) => Some(WsEventView::Message { message }),
                    None => None,
                }
            } else if tag == "delivered"@ {
                match member_text(members, "message_id"@) {
                    Some(message_id) => Some(WsEventView::Delivered { message_id }),
                    None => None,
                }
            } else if tag == "seen"@ {
                match member_text(members, "message_id"@) {
                    Some(message_id) => Some(WsEventView::Seen { message_id }),
                    None => None,
                }
            } else {
                None
            }
        },
        None => None,
    }
}

/// The event that `text` stands for, if it stands for one.
pub open spec fn event_of_text(text: Seq<char>) -> Option<WsEventView> {
    match json_object_members(text) {
        Some(members) => event_of_members(members),
        None => None,
    }
}

/// Reading the members that an event is written with gives the event back.
pub proof fn lemma_event_round_trip(event: WsEventView)
    ensures
        event_of_members(event.members()) == Some(event),
{
    reveal_strlit("type");
    reveal_strlit("message");
    reveal_strlit("message_id");
    reveal_strlit("delivered");
    reveal_strlit("seen");
    let members = event.members();
    assert(members.drop_first().len() == 1);
    assert(members.drop_first()[0] == members[1]);
    assert(members.drop_first().drop_first().len() == 0);
    assert("type"@.len() == 4);
    assert("message"@.len() == 7);
    assert("message_id"@.len() == 10);
    assert("delivered"@.len() == 9);
    assert("seen"@.len() == 4);
    assert(member_text(members, "type"@) == members[0].1);
    match event {
        WsEventView::Message { message } => {
            assert(member_text(members.drop_first(), "message"@) == Some(message));
            assert(member_text(members, "message"@) == Some(message));
        },
        WsEventView::Delivered { message_id } => {
            assert(member_text(members.drop_first(), "message_id"@) == Some(message_id));
            assert(member_text(members, "message_id"@) == Some(message_id));
        },
        WsEventView::Seen { message_id } => {
            assert(member_text(members.drop_first(), "message_id"@) == Some(message_id));
            assert(member_text(members, "message_id"@) == Some(message_id));
        },
    }
}

impl WsEvent {
    /// The members that this event is written with.
    pub fn to_members(&self) -> (members: Vec<JsonMember>)
        ensures
            member_views(members@) == self@.members(),
    {
        let mut members: Vec<JsonMember> = Vec::new();
        match self {
            WsEvent::Message { message } => {
                members.push(text_member("type", "message"));
                members.push(text_member("message", message.as_str()));
            },
            WsEvent::Delivered { message_id } => {
                members.push(text_member("type", "delivered"));
                members.push(text_member("message_id", message_id.as_str()));
            },
            WsEvent::Seen { message_id } => {
                members.push(text_member("type", "seen"));
                members.push(text_member("message_id", message_id.as_str()));
            },
        }
        assert(member_views(members@) =~= self@.members());
        members
    }

    /// The event that an object with these members stands for, or
    /// [`AppError::ProtocolError`] where it stands for none.
    pub fn from_members(members: &Vec<JsonMember>) -> (r: AppResult<WsEvent>)
        ensures
            r matches Ok(event) ==> event_of_members(member_views(members@)) == Some(event@),
            r matches Err(e) ==> e == AppError::ProtocolError && event_of_members(
                member_views(members@),
            ) is None,
    {
        let tag = match find_text(members, "type") {
            Some(tag) => tag,
            None => {
                return Err(AppError::ProtocolError);
            },
        };
        if tag == String::from_str("message") {
            match find_text(members, "message") {
                Some(message) => Ok(WsEvent::Message { message }),
                None => Err(AppError::ProtocolError),
            }
        } else if tag == String::from_str("delivered") {
            match find_text(members, "message_id") {
                Some(message_id) => Ok(WsEvent::Delivered { message_id }),
                None => Err(AppError::ProtocolError),
            }
        } else if tag == String::from_str("seen") {
            match find_text(members, "message_id") {
                Some(message_id) => Ok(WsEvent::Seen { message_id }),
                None => Err(AppError::ProtocolError),
            }
        } else {
            Err(AppError::ProtocolError)
        }
    }

    /// Writes this event as text. Fails with [`AppError::EncodeFailed`]
    /// where the serializer does.
    pub fn encode(&self) -> (r: AppResult<String>)
        ensures
            r matches Ok(text) ==> self@.text() == Some(text@),
            r matches Err(e) ==> e == AppError::EncodeFailed && self@.text() is None,
    {
        let members = self.to_members();
        match write_object(&members) {
            Some(text) => Ok(text),
            None => Err(AppError::EncodeFailed),
        }
    }

    /// Reads `text` as an event. Fails with [`AppError::ProtocolError`]
    /// where `text` is no JSON object or the object stands for no event.
    pub fn decode(text: &str) -> (r: AppResult<WsEvent>)
        ensures
            r matches Ok(event) ==> event_of_text(text@) == Some(event@),
            r matches Err(e) ==> e == AppError::ProtocolError && event_of_text(text@) is None,
    {
        match read_object(text) {
            Some(members) => WsEvent::from_members(&members),
            None => Err(AppError::ProtocolError),
        }
    }
}

impl MessageResponseView {
    /// The members that this message is written with, or `None` where one
    /// of its times cannot be written.
    pub open spec fn members(self) -> Option<Seq<MemberView>> {
        match (datetime_text(self.created_at), self.read_text()) {
            (Some(created), Some(read)) => Some(
                seq![
                    ("id"@, Some(self.id)),
                    ("conversation_id"@, Some(self.conversation_id)),
                    ("created_at"@, Some(created)),
                    ("read_at"@, read),
                    ("sender_id"@, Some(self.sender_id)),
                    ("status"@, Some(self.status.spec_name())),
                    ("text"@, Some(self.text)),
                ],
            ),
            _ => None,
        }
    }

    /// The text of the read time: `Some(None)` where the message was not
    /// read, `None` where its read time cannot be written.
    pub open spec fn read_text(self) -> Option<Option<Seq<char>>> {
        match self.read_at {
            None => Some(None),
            Some(at) => match datetime_text(at) {
                Some(text) => Some(Some(text)),
                None => None,
            },
        }
    }

    /// The text that this message is written as.
    pub open spec fn text(self) -> Option<Seq<char>> {
        match self.members() {
            Some(members) => json_object_text(members),
            None => None,
        }
    }
}

/// A message is written with its own fields: where it can be written, the
/// members named `id`, `conversation_id`, `sender_id`, `status` and `text`
/// hold its identifier, its conversation, its sender, the name of its
/// status and its text.
pub proof fn lemma_message_members(message: MessageResponseView)
    requires
        message.members() is Some,
    ensures
        member_text(message.members()->0, "id"@) == Some(message.id),
        member_text(message.members()->0, "conversation_id"@) == Some(message.conversation_id),
        member_text(message.members()->0, "sender_id"@) == Some(message.sender_id),
        member_text(message.members()->0, "status"@) == Some(message.status.spec_name()),
        member_text(message.members()->0, "text"@) == Some(message.text),
        message.read_at is None ==> member_text(message.members()->0, "read_at"@) is None,
{
    reveal_strlit("id");
    reveal_strlit("conversation_id");
    reveal_strlit("created_at");
    reveal_strlit("read_at");
    reveal_strlit("sender_id");
    reveal_strlit("status");
    reveal_strlit("text");
    assert("id"@.len() == 2);
    assert("conversation_id"@.len() == 15);
    assert("created_at"@.len() == 10);
    assert("read_at"@.len() == 7);
    assert("sender_id"@.len() == 9);
    assert("status"@.len() == 6);
    assert("text"@.len() == 4);
    let m0 = message.members()->0;
    let m1 = m0.drop_first();
    let m2 = m1.drop_first();
    let m3 = m2.drop_first();
    let m4 = m3.drop_first();
    let m5 = m4.drop_first();
    let m6 = m5.drop_first();
    assert(m1[0] == m0[1] && m2[0] == m0[2] && m3[0] == m0[3] && m4[0] == m0[4] && m5[0] == m0[5]
        && m6[0] == m0[6]);
    assert(m6.drop_first().len() == 0);
    reveal_with_fuel(member_text, 8);
}

/// The status of a message that was just sent is written `Sent`.
pub proof fn lemma_sent_is_written_sent(message: MessageResponseView)
    requires
        message.members() is Some,
        message.status == crate::chat::model::MessageStatus::Sent,
    ensures
        member_text(message.members()->0, "status"@) == Some("Sent"@),
{
    lemma_message_members(message);
}

impl MessageResponse {
    /// The members that this message is written with: its fields in order,
    /// times as text, the status by its name, a missing read time as `null`.
    pub fn to_members(&self) -> (r: AppResult<Vec<JsonMember>>)
        ensures
            r matches Ok(members) ==> self@.members() == Some(member_views(members@)),
            r matches Err(e) ==> e == AppError::EncodeFailed && self@.members() is None,
    {
        let created = match format_datetime(self.created_at) {
            Some(created) => created,
            None => {
                return Err(AppError::EncodeFailed);
            },
        };
        let read = match self.read_at {
            None => null_member("read_at"),
            Some(at) => match format_datetime(at) {
                Some(text) => text_member("read_at", text.as_str()),
                None => {
                    return Err(AppError::EncodeFailed);
                },
            },
        };
        let mut members: Vec<JsonMember> = Vec::new();
        members.push(text_member("id", self.id.as_str()));
        members.push(text_member("conversation_id", self.conversation_id.as_str()));
        members.push(text_member("created_at", created.as_str()));
        members.push(read);
        members.push(text_member("sender_id", self.sender_id.as_str()));
        members.push(text_member("status", self.status.name()));
        members.push(text_member("text", self.text.as_str()));
        assert(member_views(members@) =~= self@.members()->0);
        Ok(members)
    }

    /// Writes this message as text. Fails with [`AppError::EncodeFailed`]
    /// where one of its times cannot be written or the serializer fails.
    pub fn encode(&self) -> (r: AppResult<String>)
        ensures
            r matches Ok(text) ==> self@.text() == Some(text@),
            r matches Err(e) ==> e == AppError::EncodeFailed && self@.text() is None,
    {
        let members = match self.to_members() {
            Ok(members) => members,
            Err(e) => {
                return Err(e);
            },
        };
        match write_object(&members) {
            Some(text) => Ok(text),
            None => Err(AppError::EncodeFailed),
        }
    }
}

} // verus!
