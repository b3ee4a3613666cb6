//! The request/response operations of the chat service.
//!
//! Each operation that needs the time or a fresh identifier comes in two
//! forms: one that takes both as arguments and says exactly what it does
//! with them, and one that reads the clock and draws the identifier itself.

use vstd::prelude::*;
use vstd::string::*;
use crate::chat::model::{
    sql_texts, text_views, things_to_sql, ConversationResponse, ConversationView, Message,
    MessageRequest, MessageResponse, MessageResponseView, MessageStatus, MessageView,
};
use crate::chat::session::{ChatSession, SessionState};
use crate::chat::store::{
    arrival_position, conversation_id, is_between, lemma_pair_key_symmetric,
    lemma_pair_key_tells_texts, message_id, message_views, pair_key_of, MessageStore, StoreView,
};
use crate::db::{fresh_key, is_record_text, lemma_thing_of_text, parse_thing, thing_of, Thing};
use crate::error::{fails_with, AppError, AppResult};
use crate::jwt::AuthUser;
use crate::text::option_text;
use crate::time::{datetime_micros, datetime_text, format_datetime, now_micros, parse_datetime};

verus! {

/// The page size where the caller names none.
pub const DEFAULT_PAGE_LIMIT: u32 = 20;

/// Why a conversation between the caller `me` and the user `uid` under
/// `key` cannot be created, if it cannot: [`AppError::Unauthorized`] where
/// the caller's identifier names no user, [`AppError::NotFound`] where the
/// other identifier names none, then what the store refuses: a
/// conversation with oneself, a second conversation of the pair, and an
/// identifier that is in use.
pub open spec fn conversation_refusal(
    store: StoreView,
    uid: Seq<char>,
    me: Seq<char>,
    key: Seq<char>,
) -> Option<AppError> {
    if !is_record_text(me) {
        Some(AppError::Unauthorized)
    } else if !is_record_text(uid) {
        Some(AppError::NotFound)
    } else {
        store.create_refusal(conversation_id(key), thing_of(uid), thing_of(me))
    }
}

/// The conversation that is created between the caller `me` and the user
/// `uid` under `key` at `now`.
pub open spec fn created_conversation(
    uid: Seq<char>,
    me: Seq<char>,
    key: Seq<char>,
    now: i64,
) -> ConversationView {
    ConversationView {
        id: conversation_id(key),
        created_at: now,
        pair_key: pair_key_of(thing_of(uid).text(), thing_of(me).text()),
        participants: seq![thing_of(uid), thing_of(me)],
    }
}

/// The conversation of two identifiers is filed under the pair key of the
/// identifiers as they stand, which tells the two apart from every other
/// pair.
pub proof fn lemma_conversation_key(uid: Seq<char>, me: Seq<char>, key: Seq<char>, now: i64)
    requires
        is_record_text(uid),
        is_record_text(me),
    ensures
        created_conversation(uid, me, key, now).pair_key == pair_key_of(uid, me),
        created_conversation(uid, me, key, now).pair_key == pair_key_of(me, uid),
        forall|other: Seq<char>, mine: Seq<char>|
            #[trigger] pair_key_of(other, mine) == pair_key_of(uid, me) ==> (other == uid && mine
                == me) || (other == me && mine == uid),
{
    lemma_thing_of_text(uid);
    lemma_thing_of_text(me);
    lemma_pair_key_symmetric(uid, me);
    assert forall|other: Seq<char>, mine: Seq<char>|
        #[trigger] pair_key_of(other, mine) == pair_key_of(uid, me) implies (other == uid && mine
        == me) || (other == me && mine == uid) by {
        lemma_pair_key_tells_texts(other, mine, uid, me);
    }
}

/// What creating a conversation between `uid` and `me` under `key` at `now`
/// does to the store and reports.
pub open spec fn create_conversation_post(
    before: StoreView,
    uid: Seq<char>,
    me: Seq<char>,
    key: Seq<char>,
    now: i64,
    after: StoreView,
    r: AppResult<ConversationResponse>,
) -> bool {
    match conversation_refusal(before, uid, me, key) {
        Some(refusal) => after == before && fails_with(r, refusal),
        None => {
            &&& r matches Ok(response) && response@ == created_conversation(
                uid,
                me,
                key,
                now,
            ).response()
            &&& after == (StoreView {
                conversations: before.conversations.push(created_conversation(uid, me, key, now)),
                ..before
            })
        },
    }
}

/// Creates the conversation between the caller and the user `uid`, under
/// the identifier `conversation:key`, at time `now`.
pub fn create_conversation_at(
    uid: &str,
    auth_user: &AuthUser,
    store: &mut MessageStore,
    key: String,
    now: i64,
) -> (r: AppResult<ConversationResponse>)
    requires
        old(store).wf(),
    ensures
        final(store).wf(),
        create_conversation_post(
            old(store)@,
            uid@,
            auth_user.user_id@,
            key@,
            now,
            final(store)@,
            r,
        ),
{
    let me = match parse_thing(auth_user.user_id.as_str()) {
        Ok(me) => me,
        Err(_) => {
            return Err(AppError::Unauthorized);
        },
    };
    let other = match parse_thing(uid) {
        Ok(other) => other,
        Err(_) => {
            return Err(AppError::NotFound);
        },
    };
    match store.create_conversation(key, other, me, now) {
        Ok(conversation) => Ok(ConversationResponse::from(conversation)),
        Err(e) => Err(e),
    }
}

/// Creates the conversation between the caller and the user `uid`, now and
/// under a fresh identifier.
pub fn create_conversation(uid: &str, auth_user: &AuthUser, store: &mut MessageStore) -> (r:
    AppResult<ConversationResponse>)
    requires
        old(store).wf(),
    ensures
        final(store).wf(),
        exists|key: Seq<char>, now: i64| #[trigger]
            create_conversation_post(
                old(store)@,
                uid@,
                auth_user.user_id@,
                key,
                now,
                final(store)@,
                r,
            ),
{
    let key = fresh_key();
    let now = now_micros();
    create_conversation_at(uid, auth_user, store, key, now)
}

/// Whether the users `uid` and `me` have a conversation. An identifier
/// that is no record identifier names no user, and so no conversation.
pub open spec fn has_conversation_of(store: StoreView, uid: Seq<char>, me: Seq<char>) -> bool {
    is_record_text(uid) && is_record_text(me) && store.has_pair(thing_of(uid), thing_of(me))
}

/// The conversation between the caller and the user `uid`, or
/// [`AppError::NotFound`] where the two have none.
pub fn get_conversation_of_user(uid: &str, auth_user: &AuthUser, store: &MessageStore) -> (r:
    AppResult<ConversationResponse>)
    requires
        store.wf(),
    ensures
        r is Ok <==> has_conversation_of(store@, uid@, auth_user.user_id@),
        r matches Err(e) ==> e == AppError::NotFound,
        r matches Ok(response) ==> exists|i: int|
            0 <= i < store@.conversations.len() && response@ == (
            #[trigger] store@.conversations[i]).response() && is_between(
                store@.conversations[i],
                thing_of(uid@),
                thing_of(auth_user.user_id@),
            ),
{
    let other = match parse_thing(uid) {
        Ok(other) => other,
        Err(_) => {
            return Err(AppError::NotFound);
        },
    };
    let me = match parse_thing(auth_user.user_id.as_str()) {
        Ok(me) => me,
        Err(_) => {
            return Err(AppError::NotFound);
        },
    };
    match store.get_conversation(&other, &me) {
        Ok(conversation) => {
            let ghost found = conversation@;
            assert(store@.conversations.contains(found));
            let ghost i = choose|i: int|
                0 <= i < store@.conversations.len() && store@.conversations[i] == found;
            let response = ConversationResponse::from(conversation);
            assert(response@ == store@.conversations[i].response());
            Ok(response)
        },
        Err(e) => Err(e),
    }
}

/// Why a message of the user `me` into the conversation `conversation`
/// under `key` cannot be stored, if it cannot: [`AppError::NotFound`] where
/// the conversation does not resolve, [`AppError::Unauthorized`] where the
/// user does not take part in it, [`AppError::Conflict`] where the
/// identifier is in use, in this order. An identifier that is no record
/// identifier names nothing.
pub open spec fn message_refusal(
    store: StoreView,
    conversation: Seq<char>,
    me: Seq<char>,
    key: Seq<char>,
) -> Option<AppError> {
    if !is_record_text(conversation) || !store.has_conversation(thing_of(conversation)) {
        Some(AppError::NotFound)
    } else if !is_record_text(me) {
        Some(AppError::Unauthorized)
    } else {
        store.save_refusal(message_id(key), thing_of(conversation), thing_of(me))
    }
}

/// What storing the message `text` of the user `me` in the conversation
/// `conversation`, under `key` at `now`, does to the store and reports.
pub open spec fn save_message_post(
    before: StoreView,
    conversation: Seq<char>,
    text: Seq<char>,
    me: Seq<char>,
    key: Seq<char>,
    now: i64,
    after: StoreView,
    r: AppResult<Message>,
) -> bool {
    match message_refusal(before, conversation, me, key) {
        Some(refusal) => after == before && fails_with(r, refusal),
        None => {
            let stored = MessageView {
                id: message_id(key),
                conversation_id: thing_of(conversation),
                created_at: now,
                read_at: None,
                sender_id: thing_of(me),
                status: MessageStatus::Sent,
                text,
            };
            &&& r matches Ok(message) && message@ == stored
            &&& after == (StoreView {
                messages: before.messages.insert(arrival_position(before.messages, now), stored),
                ..before
            })
        },
    }
}

/// Stores the message that `req` asks for, sent by the user `auth_user`,
/// under the identifier `message:key`, at time `now`.
pub fn save_message_at(
    store: &mut MessageStore,
    req: MessageRequest,
    auth_user: String,
    key: String,
    now: i64,
) -> (r: AppResult<Message>)
    requires
        old(store).wf(),
    ensures
        final(store).wf(),
        save_message_post(
            old(store)@,
            req.conversation_id@,
            req.text@,
            auth_user@,
            key@,
            now,
            final(store)@,
            r,
        ),
{
    let conversation = match parse_thing(req.conversation_id.as_str()) {
        Ok(conversation) => conversation,
        Err(_) => {
            return Err(AppError::NotFound);
        },
    };
    if !store.has_conversation(&conversation) {
        return Err(AppError::NotFound);
    }
    let me = match parse_thing(auth_user.as_str()) {
        Ok(me) => me,
        Err(_) => {
            return Err(AppError::Unauthorized);
        },
    };
    store.save_message(key, conversation, me, req.text, now)
}

/// Stores the message that `req` asks for, sent by the user `auth_user`,
/// now and under a fresh identifier.
pub fn save_message(store: &mut MessageStore, req: MessageRequest, auth_user: String) -> (r:
    AppResult<Message>)
    requires
        old(store).wf(),
    ensures
        final(store).wf(),
        exists|key: Seq<char>, now: i64| #[trigger]
            save_message_post(
                old(store)@,
                req.conversation_id@,
                req.text@,
                auth_user@,
                key,
                now,
                final(store)@,
                r,
            ),
{
    let key = fresh_key();
    let now = now_micros();
    save_message_at(store, req, auth_user, key, now)
}

/// What a request to send a message does to the store and reports: what
/// storing the message does, with the stored message reported as a response.
pub open spec fn send_message_post(
    before: StoreView,
    conversation: Seq<char>,
    text: Seq<char>,
    me: Seq<char>,
    key: Seq<char>,
    now: i64,
    after: StoreView,
    r: AppResult<MessageResponse>,
) -> bool {
    exists|stored: AppResult<Message>|
        {
            &&& #[trigger] save_message_post(before, conversation, text, me, key, now, after, stored)
            &&& match stored {
                Ok(message) => r matches Ok(response) && response@ == message@.response(),
                Err(refusal) => fails_with(r, refusal),
            }
        }
}

/// Stores the message that `req` asks for on behalf of the caller, now and
/// under a fresh identifier, and reports it.
pub fn send_message_request(req: MessageRequest, store: &mut MessageStore, auth_user: AuthUser) -> (r:
    AppResult<MessageResponse>)
    requires
        old(store).wf(),
    ensures
        final(store).wf(),
        exists|key: Seq<char>, now: i64| #[trigger]
            send_message_post(
                old(store)@,
                req.conversation_id@,
                req.text@,
                auth_user.user_id@,
                key,
                now,
                final(store)@,
                r,
            ),
{
    let ghost conversation = req.conversation_id@;
    let ghost text = req.text@;
    let stored = save_message(store, req, auth_user.user_id);
    let ghost (key, now) = choose|key: Seq<char>, now: i64| #[trigger]
        save_message_post(
            old(store)@,
            conversation,
            text,
            auth_user.user_id@,
            key,
            now,
            store@,
            stored,
        );
    let r = match stored {
        Ok(message) => Ok(MessageResponse::from(message)),
        Err(e) => Err(e),
    };
    assert(send_message_post(
        old(store)@,
        conversation,
        text,
        auth_user.user_id@,
        key,
        now,
        store@,
        r,
    ));
    r
}

/// The responses that report the messages of a page, in order.
pub open spec fn response_views(messages: Seq<MessageView>) -> Seq<MessageResponseView> {
    messages.map_values(|m: MessageView| m.response())
}

/// The views of a list of responses, in order.
pub open spec fn message_response_views(responses: Seq<MessageResponse>) -> Seq<
    MessageResponseView,
> {
    responses.map_values(|r: MessageResponse| r@)
}

/// Why a page of `conid` cannot be reported to the user `me`, if it cannot:
/// a conversation that does not exist or does not count the caller among
/// its participants, then a cursor that is no timestamp.
pub open spec fn page_refusal(
    store: StoreView,
    conid: Seq<char>,
    cursor: Option<Seq<char>>,
    me: Seq<char>,
) -> Option<AppError> {
    if member_refusal(store, conid, me) is Some {
        member_refusal(store, conid, me)
    } else if cursor is Some && datetime_micros(cursor->0) is None {
        Some(AppError::InvalidCursor)
    } else {
        None
    }
}

/// The time that a cursor stands for.
pub open spec fn cursor_time(cursor: Option<Seq<char>>) -> Option<i64> {
    match cursor {
        Some(text) => datetime_micros(text),
        None => None,
    }
}

/// The page size asked for.
pub open spec fn page_limit(limit: Option<u32>) -> nat {
    match limit {
        Some(limit) => limit as nat,
        None => DEFAULT_PAGE_LIMIT as nat,
    }
}

/// A page of the history of the conversation `conid`, for a caller who takes
/// part in it: the newest messages first, at most `limit` of them (20 where
/// none is given), and with a cursor only those created before it.
pub fn get_messages(
    conid: &str,
    cursor: Option<String>,
    limit: Option<u32>,
    store: &MessageStore,
    auth_user: &AuthUser,
) -> (r: AppResult<Vec<MessageResponse>>)
    requires
        store.wf(),
    ensures
        match page_refusal(store@, conid@, option_text(cursor), auth_user.user_id@) {
            Some(refusal) => fails_with(r, refusal),
            None => r matches Ok(page) && message_response_views(page@) == response_views(
                store@.page(thing_of(conid@), cursor_time(option_text(cursor)), page_limit(limit)),
            ),
        },
{
    match verify_member(store, String::from_str(conid), auth_user.user_id.clone()) {
        Ok(_) => {},
        Err(e) => {
            return Err(e);
        },
    }
    let conversation = match parse_thing(conid) {
        Ok(conversation) => conversation,
        Err(_) => {
            return Err(AppError::Unauthorized);
        },
    };
    let limit = match limit {
        Some(limit) => limit,
        None => DEFAULT_PAGE_LIMIT,
    };
    let before = match cursor {
        Some(text) => match parse_datetime(text.as_str()) {
            Some(before) => Some(before),
            None => {
                return Err(AppError::InvalidCursor);
            },
        },
        None => None,
    };
    let messages = store.get_messages(&conversation, before, limit);
    let ghost page = message_views(messages@);
    let mut responses: Vec<MessageResponse> = Vec::new();
    let mut i: usize = 0;
    while i < messages.len()
        invariant
            i <= messages.len(),
            responses.len() == i,
            page == message_views(messages@),
            forall|j: int| 0 <= j < i ==> responses@[j]@ == page[j].response(),
        decreases messages.len() - i,
    {
        responses.push(MessageResponse::from(messages[i].duplicate()));
        i += 1;
    }
    assert(message_response_views(responses@) =~= response_views(page));
    Ok(responses)
}

/// Whether the user `me` takes part in the conversation `conid`. An
/// identifier that is no record identifier names no conversation and no
/// user.
pub open spec fn takes_part(store: StoreView, conid: Seq<char>, me: Seq<char>) -> bool {
    is_record_text(conid) && is_record_text(me) && store.is_member(thing_of(conid), thing_of(me))
}

/// Why the user `me` is refused as a member of the conversation `conid`, if
/// they are: [`AppError::Unauthorized`], where the conversation does not
/// exist or does not count them among its participants.
pub open spec fn member_refusal(store: StoreView, conid: Seq<char>, me: Seq<char>) -> Option<
    AppError,
> {
    if takes_part(store, conid, me) {
        None
    } else {
        Some(AppError::Unauthorized)
    }
}

/// The participants of the conversation `conid`, written as text, for a
/// user who is one of them.
pub fn verify_member(store: &MessageStore, conid: String, user_id: String) -> (r: AppResult<
    Vec<String>,
>)
    requires
        store.wf(),
    ensures
        match member_refusal(store@, conid@, user_id@) {
            Some(refusal) => fails_with(r, refusal),
            None => r is Ok,
        },
        r matches Ok(participants) ==> exists|i: int|
            0 <= i < store@.conversations.len() && (#[trigger] store@.conversations[i]).id
                == thing_of(conid@) && text_views(participants@) == sql_texts(
                store@.conversations[i].participants,
            ),
{
    let conversation = match parse_thing(conid.as_str()) {
        Ok(conversation) => conversation,
        Err(_) => {
            return Err(AppError::Unauthorized);
        },
    };
    let me = match parse_thing(user_id.as_str()) {
        Ok(me) => me,
        Err(_) => {
            return Err(AppError::Unauthorized);
        },
    };
    match store.verify_member(&conversation, &me) {
        Ok(participants) => Ok(things_to_sql(&participants)),
        Err(e) => Err(e),
    }
}

/// Whether `id` names a stored message. An identifier that is no record
/// identifier names none.
pub open spec fn names_message(store: StoreView, id: Seq<char>) -> bool {
    is_record_text(id) && store.has_message(thing_of(id))
}

/// Decides [`names_message`].
pub fn message_exists(store: &MessageStore, id: &str) -> (found: bool)
    requires
        store.wf(),
    ensures
        found == names_message(store@, id@),
{
    match parse_thing(id) {
        Ok(id) => store.has_message(&id),
        Err(_) => false,
    }
}

/// What recording that the message `msg_id` was delivered does to the store
/// and reports.
pub open spec fn mark_delivered_outcome(store: StoreView, msg_id: Seq<char>) -> (
    StoreView,
    AppResult<()>,
) {
    if names_message(store, msg_id) {
        (store.delivered(thing_of(msg_id)), Ok(()))
    } else {
        (store, Err(AppError::NotFound))
    }
}

/// Records that the message `msg_id` was delivered: its status becomes
/// `Delivered` where it was `Sent` and stays what it was otherwise. Fails
/// with [`AppError::NotFound`] where `msg_id` names no message.
pub fn mark_delivered(store: &mut MessageStore, msg_id: String) -> (r: AppResult<()>)
    requires
        old(store).wf(),
    ensures
        final(store).wf(),
        (final(store)@, r) == mark_delivered_outcome(old(store)@, msg_id@),
{
    let id = match parse_thing(msg_id.as_str()) {
        Ok(id) => id,
        Err(_) => {
            return Err(AppError::NotFound);
        },
    };
    match store.mark_delivered(&id) {
        Ok(()) => Ok(()),
        Err(e) => Err(e),
    }
}

/// What recording that the message `message_id` was read at `now` does to
/// the store, and the read time that is reported, as text. Where the
/// message does not exist or the time cannot be written, nothing is
/// recorded.
pub open spec fn mark_seen_outcome(store: StoreView, message_id: Seq<char>, now: i64) -> (
    StoreView,
    AppResult<Seq<char>>,
) {
    if !names_message(store, message_id) {
        (store, Err(AppError::NotFound))
    } else {
        match datetime_text(now) {
            Some(text) => (store.seen(thing_of(message_id), now), Ok(text)),
            None => (store, Err(AppError::EncodeFailed)),
        }
    }
}

/// The view of a result that holds a text.
pub open spec fn text_result(r: AppResult<String>) -> AppResult<Seq<char>> {
    match r {
        Ok(text) => Ok(text@),
        Err(e) => Err(e),
    }
}

/// Records that the message `message_id` was read at `now`, and reports
/// that time as text.
pub fn mark_seen_at(store: &mut MessageStore, message_id: String, now: i64) -> (r: AppResult<
    String,
>)
    requires
        old(store).wf(),
    ensures
        final(store).wf(),
        (final(store)@, text_result(r)) == mark_seen_outcome(old(store)@, message_id@, now),
{
    let id = match parse_thing(message_id.as_str()) {
        Ok(id) => id,
        Err(_) => {
            return Err(AppError::NotFound);
        },
    };
    if !store.has_message(&id) {
        return Err(AppError::NotFound);
    }
    let text = match format_datetime(now) {
        Some(text) => text,
        None => {
            return Err(AppError::EncodeFailed);
        },
    };
    match store.mark_seen(&id, now) {
        Ok(_) => Ok(text),
        Err(e) => Err(e),
    }
}

/// Records that the message `message_id` was read now, and reports that
/// time as text.
pub fn mark_seen(store: &mut MessageStore, message_id: String) -> (r: AppResult<String>)
    requires
        old(store).wf(),
    ensures
        final(store).wf(),
        exists|now: i64|
            (final(store)@, text_result(r)) == #[trigger] mark_seen_outcome(
                old(store)@,
                message_id@,
                now,
            ),
{
    let now = now_micros();
    mark_seen_at(store, message_id, now)
}

/// The message that is stored for `message`, sent by `user_id` into the
/// conversation `conid` under `key` at `now`.
pub open spec fn sent_message(
    message: Seq<char>,
    conid: Seq<char>,
    user_id: Seq<char>,
    key: Seq<char>,
    now: i64,
) -> MessageView {
    MessageView {
        id: message_id(key),
        conversation_id: thing_of(conid),
        created_at: now,
        read_at: None,
        sender_id: thing_of(user_id),
        status: MessageStatus::Sent,
        text: message,
    }
}

/// What sending `message` into the conversation `conid` on behalf of the
/// user `user_id` does to the store, and the payload that is reported: the
/// stored message in the form in which messages are reported, as text.
/// Where the message is refused or cannot be written, nothing is stored.
pub open spec fn send_message_outcome(
    store: StoreView,
    message: Seq<char>,
    conid: Seq<char>,
    user_id: Seq<char>,
    key: Seq<char>,
    now: i64,
) -> (StoreView, AppResult<Seq<char>>) {
    match message_refusal(store, conid, user_id, key) {
        Some(refusal) => (store, Err(refusal)),
        None => {
            let stored = sent_message(message, conid, user_id, key, now);
            match stored.response().text() {
                Some(payload) => (
                    StoreView {
                        messages: store.messages.insert(
                            arrival_position(store.messages, now),
                            stored,
                        ),
                        ..store
                    },
                    Ok(payload),
                ),
                None => (store, Err(AppError::EncodeFailed)),
            }
        },
    }
}

/// Stores `message` as sent by `user_id` into the conversation `conid`,
/// under the identifier `message:key` at time `now`, and writes the stored
/// message as the payload for the other participant. The payload is
/// written first, so that a message that cannot be written is not stored.
pub fn send_message_at(
    store: &mut MessageStore,
    message: String,
    conid: String,
    user_id: String,
    key: String,
    now: i64,
) -> (r: AppResult<String>)
    requires
        old(store).wf(),
    ensures
        final(store).wf(),
        (final(store)@, text_result(r)) == send_message_outcome(
            old(store)@,
            message@,
            conid@,
            user_id@,
            key@,
            now,
        ),
{
    let conversation = match parse_thing(conid.as_str()) {
        Ok(conversation) => conversation,
        Err(_) => {
            return Err(AppError::NotFound);
        },
    };
    if !store.has_conversation(&conversation) {
        return Err(AppError::NotFound);
    }
    let sender = match parse_thing(user_id.as_str()) {
        Ok(sender) => sender,
        Err(_) => {
            return Err(AppError::Unauthorized);
        },
    };
    let id = Thing { table: String::from_str("message"), key: key.clone() };
    match store.save_refusal(&id, &conversation, &sender) {
        Some(refusal) => {
            return Err(refusal);
        },
        None => {},
    }
    let draft = Message {
        id,
        conversation_id: conversation,
        created_at: now,
        read_at: None,
        sender_id: sender,
        status: MessageStatus::Sent,
        text: message.clone(),
    };
    let payload = match MessageResponse::from(draft).encode() {
        Ok(payload) => payload,
        Err(e) => {
            return Err(e);
        },
    };
    match save_message_at(
        store,
        MessageRequest { conversation_id: conid, text: message },
        user_id,
        key,
        now,
    ) {
        Ok(_) => Ok(payload),
        Err(e) => Err(e),
    }
}

/// Stores `message` as sent by `user_id` into the conversation `conid`, now
/// and under a fresh identifier, and writes the stored message as the
/// payload for the other participant.
pub fn send_message(store: &mut MessageStore, message: String, conid: String, user_id: String) -> (r:
    AppResult<String>)
    requires
        old(store).wf(),
    ensures
        final(store).wf(),
        exists|key: Seq<char>, now: i64|
            (final(store)@, text_result(r)) == #[trigger] send_message_outcome(
                old(store)@,
                message@,
                conid@,
                user_id@,
                key,
                now,
            ),
{
    let key = fresh_key();
    let now = now_micros();
    send_message_at(store, message, conid, user_id, key, now)
}

/// Opens a chat session for the caller on the conversation `conid`: the
/// caller must take part in the conversation, and the session then knows
/// the other participant. Nothing is registered yet. Fails with
/// [`AppError::Unauthorized`] where the conversation does not exist or the
/// caller does not take part in it.
pub fn ws(conid: &str, store: &MessageStore, auth_user: &AuthUser) -> (r: AppResult<ChatSession>)
    requires
        store.wf(),
    ensures
        r is Ok <==> takes_part(store@, conid@, auth_user.user_id@),
        r matches Ok(session) ==> {
            &&& session.wf()
            &&& session@.state == SessionState::Authorized
            &&& session@.conversation_id == conid@
            &&& session@.user_id == auth_user.user_id@
            &&& session@.recipient != session@.user()
            &&& store@.is_member(session@.conversation(), session@.recipient)
        },
        r matches Err(e) ==> e == AppError::Unauthorized,
{
    let mut session = match ChatSession::connecting(conid, auth_user.user_id.as_str()) {
        Ok(session) => session,
        Err(e) => {
            return Err(e);
        },
    };
    match session.authorize(store) {
        Ok(()) => Ok(session),
        Err(e) => Err(e),
    }
}

} // verus!
