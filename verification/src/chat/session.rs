//! The protocol engine of one chat connection.
//!
//! A session is `Connecting` while the request to open a stream is being
//! checked, `Authorized` once the caller is known to take part in the
//! conversation, `Streaming` while its outbound channel is registered, and
//! `Closed` afterwards. While it streams, whoever owns the connection hands
//! it one event at a time and does what it answers.

use vstd::prelude::*;
use vstd::string::*;
use tokio::sync::mpsc::UnboundedSender;
use crate::chat::chat_service::{
    mark_delivered, mark_delivered_outcome, mark_seen_at, mark_seen_outcome, message_exists,
    message_refusal, names_message, send_message_at, send_message_outcome, sent_message,
    text_result,
};
use crate::chat::model::{
    thing_views, Message, MessageStatus, MessageView, WsEvent, WsEventView,
};
use crate::chat::store::{
    arrival_position, lemma_arrival_position, lemma_insert_keeps_wf, message_id, MessageStore,
    StoreView,
};
use crate::chat::wire::{event_of_text, lemma_message_members};
use crate::json::member_text;
use crate::db::{fresh_key, is_record_text, parse_thing, thing_of, Thing, ThingView};
use crate::error::{AppError, AppResult};
use crate::time::now_micros;
use crate::ws::{RegistryView, WsManager};

verus! {

/// Where a session stands.
#[derive(Debug, Clone, Copy, PartialEq, Eq, Structural)]
pub enum SessionState {
    Connecting,
    Authorized,
    Streaming,
    Closed,
}

/// What happened on a streaming connection.
#[derive(Debug)]
pub enum SessionEvent {
    /// The remote end sent a text frame.
    Text(String),
    /// The remote end sent a frame that is no text.
    Other,
    /// The inbound stream ended or failed.
    StreamClosed,
    /// The session's own channel delivered a payload that was routed to
    /// this user.
    Outgoing(String),
    /// The session's own channel was closed.
    ChannelClosed,
}

/// The mathematical value of a [`SessionEvent`].
pub ghost enum SessionEventView {
    Text(Seq<char>),
    Other,
    StreamClosed,
    Outgoing(Seq<char>),
    ChannelClosed,
}

impl View for SessionEvent {
    type V = SessionEventView;

    open spec fn view(&self) -> SessionEventView {
        match self {
            SessionEvent::Text(text) => SessionEventView::Text(text@),
            SessionEvent::Other => SessionEventView::Other,
            SessionEvent::StreamClosed => SessionEventView::StreamClosed,
            SessionEvent::Outgoing(payload) => SessionEventView::Outgoing(payload@),
            SessionEvent::ChannelClosed => SessionEventView::ChannelClosed,
        }
    }
}

/// What the owner of the connection is to do after an event.
#[derive(Debug)]
pub enum SessionAction {
    /// Wait for the next event.
    Continue,
    /// Write the payload to the remote end, then wait for the next event.
    Forward(String),
    /// The store has recorded an inbound event, and `stored` is the message
    /// that it created or changed. Once that message is safe wherever the
    /// store is mirrored, hand `payload` to [`ChatSession::relay`].
    Relay { payload: String, stored: Message },
    /// End the connection: the session is closed, regularly or for the
    /// error given.
    Close(AppResult<()>),
}

/// The mathematical value of a [`SessionAction`].
pub ghost enum SessionActionView {
    Continue,
    Forward(Seq<char>),
    Relay { payload: Seq<char>, stored: MessageView },
    Close(AppResult<()>),
}

impl View for SessionAction {
    type V = SessionActionView;

    open spec fn view(&self) -> SessionActionView {
        match self {
            SessionAction::Continue => SessionActionView::Continue,
            SessionAction::Forward(payload) => SessionActionView::Forward(payload@),
            SessionAction::Relay { payload, stored } => SessionActionView::Relay {
                payload: payload@,
                stored: stored@,
            },
            SessionAction::Close(result) => SessionActionView::Close(*result),
        }
    }
}

/// The mathematical value of a [`ChatSession`].
pub ghost struct SessionView {
    pub state: SessionState,
    /// The identifier of the conversation that the stream was asked for.
    pub conversation_id: Seq<char>,
    /// The identifier of the caller.
    pub user_id: Seq<char>,
    /// The other participant; meaningful once the session is authorized.
    pub recipient: ThingView,
}

impl SessionView {
    /// The conversation that the stream was asked for.
    pub open spec fn conversation(self) -> ThingView {
        thing_of(self.conversation_id)
    }

    /// The caller.
    pub open spec fn user(self) -> ThingView {
        thing_of(self.user_id)
    }

    /// The name under which the caller is registered.
    pub open spec fn user_key(self) -> Seq<char> {
        self.user().sql()
    }

    /// The name under which payloads are routed to the other participant.
    pub open spec fn recipient_key(self) -> Seq<char> {
        self.recipient.sql()
    }

    /// This session in another state.
    pub open spec fn in_state(self, state: SessionState) -> SessionView {
        SessionView { state, ..self }
    }

    /// Whether both identifiers are record identifiers.
    pub open spec fn ids_ok(self) -> bool {
        is_record_text(self.conversation_id) && is_record_text(self.user_id)
    }
}

/// What an inbound event does to the store, and the payload that is then
/// relayed to the other participant, or the error that ends the session.
///
/// A `message` is stored as sent by the caller into the session's
/// conversation, and relayed in the form in which messages are reported. A
/// `delivered` is recorded and relayed as it came. A `seen` is recorded
/// with the time `now`, and that time is relayed as text. An event that
/// ends in an error leaves the store as it was.
pub open spec fn apply_outcome(
    store: StoreView,
    session: SessionView,
    event: WsEventView,
    key: Seq<char>,
    now: i64,
) -> (StoreView, AppResult<Seq<char>>) {
    match event {
        WsEventView::Message { message } => send_message_outcome(
            store,
            message,
            session.conversation_id,
            session.user_id,
            key,
            now,
        ),
        WsEventView::Delivered { message_id } => {
            if !names_message(store, message_id) {
                (store, Err(AppError::NotFound))
            } else {
                match event.text() {
                    Some(payload) => (mark_delivered_outcome(store, message_id).0, Ok(payload)),
                    None => (store, Err(AppError::EncodeFailed)),
                }
            }
        },
        WsEventView::Seen { message_id } => mark_seen_outcome(store, message_id, now),
    }
}

/// How a session ends: its entry leaves the registry, it is closed, and the
/// owner is told to close the connection with `result`.
pub open spec fn ends_with(
    session: SessionView,
    registry: RegistryView,
    result: AppResult<()>,
    session_after: SessionView,
    registry_after: RegistryView,
    action: SessionActionView,
) -> bool {
    &&& session_after == session.in_state(SessionState::Closed)
    &&& registry_after == registry.disconnected(session.user_key())
    &&& action == SessionActionView::Close(result)
}

/// How the payload of `outcome` is relayed, given whether the channel of the
/// other participant, if there is one, took it: the session goes on where
/// the payload was taken or dropped, and ends with a delivery failure where
/// the channel refused it.
pub open spec fn relays(
    session: SessionView,
    registry: RegistryView,
    outcome: AppResult<Seq<char>>,
    accepted: bool,
    session_after: SessionView,
    registry_after: RegistryView,
    action: SessionActionView,
) -> bool {
    let routed = registry.routed(session.recipient_key(), outcome->Ok_0, accepted);
    match registry.route_result(session.recipient_key(), accepted) {
        Ok(_) => {
            &&& session_after == session
            &&& registry_after == routed
            &&& action == SessionActionView::Continue
        },
        Err(e) => ends_with(session, routed, Err(e), session_after, registry_after, action),
    }
}

/// How the handling of an inbound event concludes: with an error the
/// session ends, with a payload the payload is relayed.
pub open spec fn concludes(
    session: SessionView,
    registry: RegistryView,
    outcome: AppResult<Seq<char>>,
    session_after: SessionView,
    registry_after: RegistryView,
    action: SessionActionView,
) -> bool {
    match outcome {
        Err(e) => ends_with(session, registry, Err(e), session_after, registry_after, action),
        Ok(_) => exists|accepted: bool| #[trigger]
            relays(session, registry, outcome, accepted, session_after, registry_after, action),
    }
}

/// The message that an inbound event creates or changes.
pub open spec fn touched(event: WsEventView, key: Seq<char>) -> ThingView {
    match event {
        WsEventView::Message { message } => message_id(key),
        WsEventView::Delivered { message_id } => thing_of(message_id),
        WsEventView::Seen { message_id } => thing_of(message_id),
    }
}

/// How the recording of an inbound event concludes: with an error the
/// session ends, with a payload the payload is handed out for relaying,
/// beside the message that was stored or changed, and nothing is relayed
/// yet.
pub open spec fn hands_out(
    session: SessionView,
    registry: RegistryView,
    outcome: (StoreView, AppResult<Seq<char>>),
    id: ThingView,
    session_after: SessionView,
    registry_after: RegistryView,
    action: SessionActionView,
) -> bool {
    match outcome.1 {
        Err(e) => ends_with(session, registry, Err(e), session_after, registry_after, action),
        Ok(payload) => {
            &&& session_after == session
            &&& registry_after == registry
            &&& outcome.0.has_message(id)
            &&& action == (SessionActionView::Relay {
                payload,
                stored: outcome.0.messages[outcome.0.position(id)],
            })
        },
    }
}

/// What receiving one event does to a streaming session, the store and the
/// registry, and what the owner of the connection is told: as
/// [`step_post`], but a payload is handed out instead of being relayed.
pub open spec fn receive_post(
    session: SessionView,
    store: StoreView,
    registry: RegistryView,
    event: SessionEventView,
    key: Seq<char>,
    now: i64,
    session_after: SessionView,
    store_after: StoreView,
    registry_after: RegistryView,
    action: SessionActionView,
) -> bool {
    match event {
        SessionEventView::Text(text) => match event_of_text(text) {
            Some(inbound) => {
                let outcome = apply_outcome(store, session, inbound, key, now);
                &&& store_after == outcome.0
                &&& hands_out(
                    session,
                    registry,
                    outcome,
                    touched(inbound, key),
                    session_after,
                    registry_after,
                    action,
                )
            },
            None => step_post(
                session,
                store,
                registry,
                event,
                key,
                now,
                session_after,
                store_after,
                registry_after,
                action,
            ),
        },
        _ => step_post(
            session,
            store,
            registry,
            event,
            key,
            now,
            session_after,
            store_after,
            registry_after,
            action,
        ),
    }
}

/// What one event does to a streaming session, the store and the registry,
/// and what the owner of the connection is told, where a message that the
/// event creates gets the identifier `message:key` and the time is `now`.
pub open spec fn step_post(
    session: SessionView,
    store: StoreView,
    registry: RegistryView,
    event: SessionEventView,
    key: Seq<char>,
    now: i64,
    session_after: SessionView,
    store_after: StoreView,
    registry_after: RegistryView,
    action: SessionActionView,
) -> bool {
    match event {
        SessionEventView::Other => {
            &&& session_after == session
            &&& store_after == store
            &&& registry_after == registry
            &&& action == SessionActionView::Continue
        },
        SessionEventView::Outgoing(payload) => {
            &&& session_after == session
            &&& store_after == store
            &&& registry_after == registry
            &&& action == SessionActionView::Forward(payload)
        },
        SessionEventView::StreamClosed | SessionEventView::ChannelClosed => {
            &&& store_after == store
            &&& ends_with(session, registry, Ok(()), session_after, registry_after, action)
        },
        SessionEventView::Text(text) => match event_of_text(text) {
            None => {
                &&& store_after == store
                &&& ends_with(
                    session,
                    registry,
                    Err(AppError::ProtocolError),
                    session_after,
                    registry_after,
                    action,
                )
            },
            Some(inbound) => {
                let outcome = apply_outcome(store, session, inbound, key, now);
                &&& store_after == outcome.0
                &&& concludes(session, registry, outcome.1, session_after, registry_after, action)
            },
        },
    }
}

/// An inbound event that was recorded leaves the message that it created
/// or changed in the store.
pub proof fn lemma_applied_event_is_stored(
    store: StoreView,
    session: SessionView,
    event: WsEventView,
    key: Seq<char>,
    now: i64,
)
    requires
        store.wf(),
        apply_outcome(store, session, event, key, now).1 is Ok,
    ensures
        apply_outcome(store, session, event, key, now).0.has_message(touched(event, key)),
        event matches WsEventView::Delivered { message_id } ==> is_record_text(message_id),
        event matches WsEventView::Seen { message_id } ==> is_record_text(message_id),
{
    let after = apply_outcome(store, session, event, key, now).0;
    match event {
        WsEventView::Message { message } => {
            lemma_arrival_position(store.messages, now);
            let at = arrival_position(store.messages, now);
            assert(after.messages[at].id == message_id(key));
        },
        WsEventView::Delivered { message_id } => {
            let id = thing_of(message_id);
            let at = store.position(id);
            assert(0 <= at < store.messages.len() && store.messages[at].id == id);
            assert(after.messages[at].id == id);
        },
        WsEventView::Seen { message_id } => {
            let id = thing_of(message_id);
            let at = store.position(id);
            assert(0 <= at < store.messages.len() && store.messages[at].id == id);
            assert(after.messages[at].id == id);
        },
    }
}

/// What a message frame does while the other participant is connected or
/// not. Let the caller take part in the conversation, let the key be free
/// and the message writable.
///
/// Then the store gains exactly one message, that of the frame: in the
/// session's conversation, from the caller, with the text of the frame,
/// status `Sent` and no read time. Where the other participant is not
/// registered, the session goes on and the registry is as it was, so that
/// a channel with which that user connects later has taken nothing. Where the
/// other participant is registered, either that user's channel has taken
/// exactly the payload of the stored message, last, and the session goes
/// on, or nothing was handed to any channel and the session ends with a
/// delivery failure. No other channel is handed anything, and the payload
/// names the stored message and writes its status as `Sent`.
pub proof fn lemma_message_frame(
    session: SessionView,
    store: StoreView,
    registry: RegistryView,
    frame: Seq<char>,
    message: Seq<char>,
    key: Seq<char>,
    now: i64,
    session_after: SessionView,
    store_after: StoreView,
    registry_after: RegistryView,
    action: SessionActionView,
)
    requires
        store.wf(),
        session.ids_ok(),
        store.is_member(session.conversation(), session.user()),
        !store.has_message(message_id(key)),
        event_of_text(frame) == Some(WsEventView::Message { message }),
        sent_message(message, session.conversation_id, session.user_id, key, now).response().text()
            is Some,
        step_post(
            session,
            store,
            registry,
            SessionEventView::Text(frame),
            key,
            now,
            session_after,
            store_after,
            registry_after,
            action,
        ),
    ensures
        ({
            let stored = sent_message(message, session.conversation_id, session.user_id, key, now);
            let payload = stored.response().text()->0;
            let recipient = session.recipient_key();
            &&& stored.text == message
            &&& stored.status == MessageStatus::Sent
            &&& stored.read_at is None
            &&& stored.sender_id == session.user()
            &&& stored.conversation_id == session.conversation()
            &&& store_after.wf()
            &&& store_after.conversations == store.conversations
            &&& store_after.messages == store.messages.insert(
                arrival_position(store.messages, now),
                stored,
            )
            &&& store_after.messages.len() == store.messages.len() + 1
            &&& member_text(stored.response().members()->0, "id"@) == Some(stored.id.sql())
            &&& member_text(stored.response().members()->0, "text"@) == Some(message)
            &&& member_text(stored.response().members()->0, "status"@) == Some("Sent"@)
            &&& !registry.entries.contains_key(recipient) ==> {
                &&& action == SessionActionView::Continue
                &&& session_after == session
                &&& registry_after == registry
                &&& registry_after.connected(recipient).entries[recipient] == Seq::<
                    Seq<char>,
                >::empty()
            }
            &&& registry.entries.contains_key(recipient) ==> {
                ||| {
                    &&& action == SessionActionView::Continue
                    &&& session_after == session
                    &&& registry_after.entries == registry.entries.insert(
                        recipient,
                        registry.entries[recipient].push(payload),
                    )
                }
                ||| {
                    &&& action == SessionActionView::Close(Err(AppError::DeliveryFailed))
                    &&& session_after == session.in_state(SessionState::Closed)
                    &&& registry_after == registry.disconnected(session.user_key())
                }
            }
        }),
{
    let stored = sent_message(message, session.conversation_id, session.user_id, key, now);
    let outcome = apply_outcome(
        store,
        session,
        WsEventView::Message { message },
        key,
        now,
    );
    assert(store.has_conversation(session.conversation())) by {
        let k = choose|k: int|
            0 <= k < store.conversations.len() && (#[trigger] store.conversations[k]).id
                == session.conversation() && store.conversations[k].participants.contains(
                session.user(),
            );
        assert(store.conversations[k].id == session.conversation());
    }
    assert(message_refusal(store, session.conversation_id, session.user_id, key) is None);
    assert(outcome.1 == Ok::<Seq<char>, AppError>(stored.response().text()->0));
    lemma_insert_keeps_wf(store, stored);
    lemma_arrival_position(store.messages, now);
    lemma_message_members(stored.response());
    assert(concludes(session, registry, outcome.1, session_after, registry_after, action));
    let accepted = choose|accepted: bool| #[trigger]
        relays(session, registry, outcome.1, accepted, session_after, registry_after, action);
    assert(relays(session, registry, outcome.1, accepted, session_after, registry_after, action));
}

/// The protocol engine of one connection.
pub struct ChatSession {
    state: SessionState,
    conversation_id: String,
    user_id: String,
    conversation: Thing,
    user: Thing,
    recipient: Thing,
    user_key: String,
    recipient_key: String,
}

impl View for ChatSession {
    type V = SessionView;

    closed spec fn view(&self) -> SessionView {
        SessionView {
            state: self.state,
            conversation_id: self.conversation_id@,
            user_id: self.user_id@,
            recipient: self.recipient@,
        }
    }
}

impl ChatSession {
    /// Whether what the session keeps beside its identifiers agrees with
    /// them.
    pub closed spec fn coherent(&self) -> bool {
        &&& self.conversation@ == thing_of(self.conversation_id@)
        &&& self.user@ == thing_of(self.user_id@)
        &&& self.user_key@ == self.user@.sql()
        &&& self.recipient_key@ == self.recipient@.sql()
    }

    /// The invariant of a session.
    pub open spec fn wf(&self) -> bool {
        self@.ids_ok() && self.coherent()
    }

    /// A session for a request of `user_id` to open a stream on the
    /// conversation `conid`. Fails with [`AppError::Unauthorized`] where one
    /// of the two is no record identifier, and so names nothing.
    pub fn connecting(conid: &str, user_id: &str) -> (r: AppResult<ChatSession>)
        ensures
            r is Ok <==> is_record_text(conid@) && is_record_text(user_id@),
            r matches Ok(session) ==> {
                &&& session.wf()
                &&& session@.state == SessionState::Connecting
                &&& session@.conversation_id == conid@
                &&& session@.user_id == user_id@
            },
            r matches Err(e) ==> e == AppError::Unauthorized,
    {
        let conversation = match parse_thing(conid) {
            Ok(conversation) => conversation,
            Err(_) => {
                return Err(AppError::Unauthorized);
            },
        };
        let user = match parse_thing(user_id) {
            Ok(user) => user,
            Err(_) => {
                return Err(AppError::Unauthorized);
            },
        };
        let user_key = user.to_sql();
        let recipient = user.duplicate();
        let recipient_key = user_key.clone();
        Ok(
            ChatSession {
                state: SessionState::Connecting,
                conversation_id: String::from_str(conid),
                user_id: String::from_str(user_id),
                conversation,
                user,
                recipient,
                user_key,
                recipient_key,
            },
        )
    }

    /// Where the session stands.
    pub fn state(&self) -> (state: SessionState)
        ensures
            state == self@.state,
    {
        self.state
    }

    /// The name under which the caller is registered.
    pub fn user_key(&self) -> (key: &String)
        requires
            self.wf(),
        ensures
            key@ == self@.user_key(),
    {
        &self.user_key
    }

    /// The name under which payloads are routed to the other participant.
    pub fn recipient_key(&self) -> (key: &String)
        requires
            self.wf(),
        ensures
            key@ == self@.recipient_key(),
    {
        &self.recipient_key
    }

    /// Checks that the caller takes part in the conversation and finds the
    /// other participant. On success the session is `Authorized`; otherwise
    /// it fails with [`AppError::Unauthorized`] and is `Closed`.
    pub fn authorize(&mut self, store: &MessageStore) -> (r: AppResult<()>)
        requires
            old(self).wf(),
            old(self)@.state == SessionState::Connecting,
            store.wf(),
        ensures
            final(self).wf(),
            final(self)@.conversation_id == old(self)@.conversation_id,
            final(self)@.user_id == old(self)@.user_id,
            r is Ok <==> store@.is_member(old(self)@.conversation(), old(self)@.user()),
            r is Ok ==> {
                &&& final(self)@.state == SessionState::Authorized
                &&& final(self)@.recipient != final(self)@.user()
                &&& store@.is_member(final(self)@.conversation(), final(self)@.recipient)
            },
            r matches Err(e) ==> {
                &&& e == AppError::Unauthorized
                &&& final(self)@ == old(self)@.in_state(SessionState::Closed)
            },
    {
        match store.verify_member(&self.conversation, &self.user) {
            Ok(participants) => {
                let ghost i = choose|i: int|
                    0 <= i < store@.conversations.len() && (#[trigger] store@.conversations[i]).id
                        == self.conversation@ && store@.conversations[i].participants
                        == thing_views(participants@);
                assert(StoreView::conversation_ok(store@.conversations[i]));
                assert(participants@.len() == 2);
                let ghost views = thing_views(participants@);
                assert(views[0] == participants@[0]@);
                assert(views[1] == participants@[1]@);
                let other = if participants[0].same(&self.user) {
                    participants[1].duplicate()
                } else {
                    participants[0].duplicate()
                };
                assert(views.contains(other@));
                self.recipient_key = other.to_sql();
                self.recipient = other;
                self.state = SessionState::Authorized;
                Ok(())
            },
            Err(e) => {
                self.state = SessionState::Closed;
                Err(e)
            },
        }
    }

    /// Registers `tx` as the caller's outbound channel. The session is
    /// `Streaming` afterwards.
    pub fn start(&mut self, registry: &mut WsManager, tx: UnboundedSender<String>)
        requires
            old(self).wf(),
            old(self)@.state == SessionState::Authorized,
            old(registry).wf(),
        ensures
            final(self).wf(),
            final(registry).wf(),
            final(self)@ == old(self)@.in_state(SessionState::Streaming),
            final(registry)@ == old(registry)@.connected(old(self)@.user_key()),
    {
        registry.connect(self.user_key.clone(), tx);
        self.state = SessionState::Streaming;
    }

    /// Ends the session: the caller's entry leaves the registry, whoever
    /// put it there, and the session is `Closed`.
    pub fn close(&mut self, registry: &mut WsManager)
        requires
            old(self).wf(),
            old(registry).wf(),
        ensures
            final(self).wf(),
            final(registry).wf(),
            final(self)@ == old(self)@.in_state(SessionState::Closed),
            final(registry)@ == old(registry)@.disconnected(old(self)@.user_key()),
    {
        registry.disconnect(self.user_key.as_str());
        self.state = SessionState::Closed;
    }

    /// Ends the session and tells the owner of the connection why.
    fn finish(&mut self, registry: &mut WsManager, result: AppResult<()>) -> (action:
        SessionAction)
        requires
            old(self).wf(),
            old(registry).wf(),
        ensures
            final(self).wf(),
            final(registry).wf(),
            ends_with(old(self)@, old(registry)@, result, final(self)@, final(registry)@, action@),
    {
        self.close(registry);
        SessionAction::Close(result)
    }

    /// Records an inbound event in the store and builds the payload that is
    /// to be relayed to the other participant.
    pub fn apply_at(&self, store: &mut MessageStore, event: WsEvent, key: String, now: i64) -> (r:
        AppResult<String>)
        requires
            self.wf(),
            old(store).wf(),
        ensures
            final(store).wf(),
            (final(store)@, text_result(r)) == apply_outcome(old(store)@, self@, event@, key@, now),
    {
        match event {
            WsEvent::Message { message } => send_message_at(
                store,
                message,
                self.conversation_id.clone(),
                self.user_id.clone(),
                key,
                now,
            ),
            WsEvent::Delivered { message_id } => {
                if !message_exists(store, message_id.as_str()) {
                    return Err(AppError::NotFound);
                }
                let acknowledged = message_id.clone();
                let payload = match (WsEvent::Delivered { message_id }).encode() {
                    Ok(payload) => payload,
                    Err(e) => {
                        return Err(e);
                    },
                };
                match mark_delivered(store, acknowledged) {
                    Ok(()) => Ok(payload),
                    Err(e) => Err(e),
                }
            },
            WsEvent::Seen { message_id } => mark_seen_at(store, message_id, now),
        }
    }

    /// Receives one event of a streaming session, where a message that the
    /// event creates gets the identifier `message:key` and the time is
    /// `now`. It does what [`ChatSession::step_at`] does, except that the
    /// payload of an inbound event is not relayed but handed out, together
    /// with the message that the store has recorded for the event.
    pub fn receive_at(
        &mut self,
        store: &mut MessageStore,
        registry: &mut WsManager,
        event: SessionEvent,
        key: String,
        now: i64,
    ) -> (action: SessionAction)
        requires
            old(self).wf(),
            old(self)@.state == SessionState::Streaming,
            old(store).wf(),
            old(registry).wf(),
        ensures
            final(self).wf(),
            final(store).wf(),
            final(registry).wf(),
            receive_post(
                old(self)@,
                old(store)@,
                old(registry)@,
                event@,
                key@,
                now,
                final(self)@,
                final(store)@,
                final(registry)@,
                action@,
            ),
    {
        match event {
            SessionEvent::Other => SessionAction::Continue,
            SessionEvent::Outgoing(payload) => SessionAction::Forward(payload),
            SessionEvent::StreamClosed => self.finish(registry, Ok(())),
            SessionEvent::ChannelClosed => self.finish(registry, Ok(())),
            SessionEvent::Text(text) => {
                let inbound = match WsEvent::decode(text.as_str()) {
                    Ok(inbound) => inbound,
                    Err(e) => {
                        return self.finish(registry, Err(e));
                    },
                };
                let id = match &inbound {
                    WsEvent::Message { message } => Ok(
                        Thing { table: String::from_str("message"), key: key.clone() },
                    ),
                    WsEvent::Delivered { message_id } => parse_thing(message_id.as_str()),
                    WsEvent::Seen { message_id } => parse_thing(message_id.as_str()),
                };
                let ghost before = store@;
                let ghost event_view = inbound@;
                let payload = match self.apply_at(store, inbound, key, now) {
                    Ok(payload) => payload,
                    Err(e) => {
                        return self.finish(registry, Err(e));
                    },
                };
                proof {
                    lemma_applied_event_is_stored(before, self@, event_view, key@, now);
                }
                let stored = match id {
                    Ok(id) => store.get_message(&id),
                    Err(e) => Err(e),
                };
                match stored {
                    Ok(stored) => SessionAction::Relay { payload, stored },
                    Err(e) => self.finish(registry, Err(e)),
                }
            },
        }
    }

    /// Receives one event of a streaming session, reading the clock and
    /// drawing a fresh identifier for a message that the event creates.
    pub fn receive(&mut self, store: &mut MessageStore, registry: &mut WsManager, event: SessionEvent) -> (action:
        SessionAction)
        requires
            old(self).wf(),
            old(self)@.state == SessionState::Streaming,
            old(store).wf(),
            old(registry).wf(),
        ensures
            final(self).wf(),
            final(store).wf(),
            final(registry).wf(),
            exists|key: Seq<char>, now: i64| #[trigger]
                receive_post(
                    old(self)@,
                    old(store)@,
                    old(registry)@,
                    event@,
                    key,
                    now,
                    final(self)@,
                    final(store)@,
                    final(registry)@,
                    action@,
                ),
    {
        let key = fresh_key();
        let now = now_micros();
        self.receive_at(store, registry, event, key, now)
    }

    /// Relays `payload` to the other participant: it is handed to that
    /// user's channel, if there is one, and to no other. The session goes
    /// on where the payload was taken or dropped, and ends with a delivery
    /// failure where the channel refused it.
    pub fn relay(&mut self, registry: &mut WsManager, payload: String) -> (action: SessionAction)
        requires
            old(self).wf(),
            old(self)@.state == SessionState::Streaming,
            old(registry).wf(),
        ensures
            final(self).wf(),
            final(registry).wf(),
            concludes(
                old(self)@,
                old(registry)@,
                Ok(payload@),
                final(self)@,
                final(registry)@,
                action@,
            ),
    {
        let ghost before = registry@;
        let ghost session = self@;
        let ghost text = payload@;
        let sent = registry.send_to(self.recipient_key.clone(), payload);
        let ghost routed = registry@;
        let ghost accepted = choose|accepted: bool|
            routed == #[trigger] before.routed(session.recipient_key(), text, accepted) && sent
                == before.route_result(session.recipient_key(), accepted);
        match sent {
            Ok(()) => {
                assert(relays(
                    session,
                    before,
                    Ok(text),
                    accepted,
                    self@,
                    registry@,
                    SessionActionView::Continue,
                ));
                SessionAction::Continue
            },
            Err(e) => {
                let action = self.finish(registry, Err(e));
                assert(relays(session, before, Ok(text), accepted, self@, registry@, action@));
                action
            },
        }
    }

    /// Handles one event of a streaming session, where a message that the
    /// event creates gets the identifier `message:key` and the time is
    /// `now`.
    ///
    /// A frame that is no text is ignored. A payload from the session's own
    /// channel is handed on to be written to the remote end. A text frame
    /// is read as an event, recorded in the store and relayed to the other
    /// participant, in this order. The session ends, and its entry leaves
    /// the registry, when either side of the connection has closed, when a
    /// text frame is no event, when the store refuses the event, when the
    /// payload cannot be written, or when the other participant's channel
    /// refuses it.
    pub fn step_at(
        &mut self,
        store: &mut MessageStore,
        registry: &mut WsManager,
        event: SessionEvent,
        key: String,
        now: i64,
    ) -> (action: SessionAction)
        requires
            old(self).wf(),
            old(self)@.state == SessionState::Streaming,
            old(store).wf(),
            old(registry).wf(),
        ensures
            final(self).wf(),
            final(store).wf(),
            final(registry).wf(),
            step_post(
                old(self)@,
                old(store)@,
                old(registry)@,
                event@,
                key@,
                now,
                final(self)@,
                final(store)@,
                final(registry)@,
                action@,
            ),
    {
        match self.receive_at(store, registry, event, key, now) {
            SessionAction::Relay { payload, stored } => self.relay(registry, payload),
            SessionAction::Continue => SessionAction::Continue,
            SessionAction::Forward(payload) => SessionAction::Forward(payload),
            SessionAction::Close(result) => SessionAction::Close(result),
        }
    }

    /// Handles one event of a streaming session, reading the clock and
    /// drawing a fresh identifier for a message that the event creates.
    pub fn step(&mut self, store: &mut MessageStore, registry: &mut WsManager, event: SessionEvent) -> (action:
        SessionAction)
        requires
            old(self).wf(),
            old(self)@.state == SessionState::Streaming,
            old(store).wf(),
            old(registry).wf(),
        ensures
            final(self).wf(),
            final(store).wf(),
            final(registry).wf(),
            exists|key: Seq<char>, now: i64| #[trigger]
                step_post(
                    old(self)@,
                    old(store)@,
                    old(registry)@,
                    event@,
                    key,
                    now,
                    final(self)@,
                    final(store)@,
                    final(registry)@,
                    action@,
                ),
    {
        let key = fresh_key();
        let now = now_micros();
        self.step_at(store, registry, event, key, now)
    }
}

} // verus!
