//! The message store: conversations keyed by the unordered pair of their
//! participants, and messages kept in order of their creation time.

use vstd::prelude::*;
use vstd::string::*;
use crate::chat::model::{
    duplicate_things, thing_views, Conversation, ConversationView, Message, MessageStatus,
    MessageView,
};
use crate::db::{Thing, ThingView};
use crate::error::{AppError, AppResult, ValidationIssue};
use crate::db::lemma_text_tells_thing;
use crate::text::{
    join, joined, lemma_joined_unambiguous, lemma_text_le_antisymmetric, lemma_text_le_total,
    text_before, text_le,
};

verus! {

/// The key under which the conversation of two users is filed: the two
/// identifiers in dictionary order, joined by an underscore so that both
/// can be told from the key.
pub open spec fn pair_key_of(a: Seq<char>, b: Seq<char>) -> Seq<char> {
    if text_le(a, b) {
        joined(a, b)
    } else {
        joined(b, a)
    }
}

/// The pair key does not depend on the order in which the two users are
/// named.
pub proof fn lemma_pair_key_symmetric(a: Seq<char>, b: Seq<char>)
    ensures
        pair_key_of(a, b) == pair_key_of(b, a),
{
    lemma_text_le_total(a, b);
    if text_le(a, b) && text_le(b, a) {
        lemma_text_le_antisymmetric(a, b);
    }
}

/// The pair key tells the pair: identifiers that give the same key are the
/// same two identifiers, in one order or the other.
pub proof fn lemma_pair_key_tells_texts(a: Seq<char>, b: Seq<char>, c: Seq<char>, d: Seq<char>)
    requires
        pair_key_of(a, b) == pair_key_of(c, d),
    ensures
        (a == c && b == d) || (a == d && b == c),
{
    if text_le(a, b) {
        if text_le(c, d) {
            lemma_joined_unambiguous(a, b, c, d);
        } else {
            lemma_joined_unambiguous(a, b, d, c);
        }
    } else {
        if text_le(c, d) {
            lemma_joined_unambiguous(b, a, c, d);
        } else {
            lemma_joined_unambiguous(b, a, d, c);
        }
    }
}

/// Different pairs of users have different pair keys, and the same pair
/// has the same key in either order: for users whose tables hold no colon,
/// as every user has that an identifier was read as, two pairs have the
/// same key exactly when they are the same pair.
pub proof fn lemma_pair_key_tells_pair(a: ThingView, b: ThingView, c: ThingView, d: ThingView)
    requires
        a.plain(),
        b.plain(),
        c.plain(),
        d.plain(),
    ensures
        pair_key_of(a.text(), b.text()) == pair_key_of(c.text(), d.text()) <==> (a == c && b == d)
            || (a == d && b == c),
{
    lemma_pair_key_symmetric(a.text(), b.text());
    if pair_key_of(a.text(), b.text()) == pair_key_of(c.text(), d.text()) {
        lemma_pair_key_tells_texts(a.text(), b.text(), c.text(), d.text());
        if a.text() == c.text() && b.text() == d.text() {
            lemma_text_tells_thing(a, c);
            lemma_text_tells_thing(b, d);
        } else {
            lemma_text_tells_thing(a, d);
            lemma_text_tells_thing(b, c);
        }
    }
}

/// The key under which the conversation of `a` and `b` is filed.
pub fn pair_key(a: &Thing, b: &Thing) -> (key: String)
    ensures
        key@ == pair_key_of(a@.text(), b@.text()),
{
    let x = a.text();
    let y = b.text();
    if text_before(x.as_str(), y.as_str()) {
        join(x.as_str(), y.as_str())
    } else {
        join(y.as_str(), x.as_str())
    }
}

/// The identifier of the conversation with the given key.
pub open spec fn conversation_id(key: Seq<char>) -> ThingView {
    ThingView { table: "conversation"@, key }
}

/// The identifier of the message with the given key.
pub open spec fn message_id(key: Seq<char>) -> ThingView {
    ThingView { table: "message"@, key }
}

/// Whether `user` is among `participants`.
pub fn names_thing(participants: &Vec<Thing>, user: &Thing) -> (found: bool)
    ensures
        found == thing_views(participants@).contains(user@),
{
    let mut i: usize = 0;
    while i < participants.len()
        invariant
            i <= participants.len(),
            forall|j: int| 0 <= j < i ==> thing_views(participants@)[j] != user@,
        decreases participants.len() - i,
    {
        if participants[i].same(user) {
            assert(thing_views(participants@)[i as int] == user@);
            return true;
        }
        i += 1;
    }
    false
}

/// Whether `c` is a conversation between `a` and `b`, in either order.
pub open spec fn is_between(c: ConversationView, a: ThingView, b: ThingView) -> bool {
    c.participants == seq![a, b] || c.participants == seq![b, a]
}

/// The mathematical value of a [`MessageStore`].
pub ghost struct StoreView {
    pub conversations: Seq<ConversationView>,
    pub messages: Seq<MessageView>,
}

impl StoreView {
    /// Whether `a` and `b` have a conversation, in whatever order they are
    /// named.
    pub open spec fn has_pair(self, a: ThingView, b: ThingView) -> bool {
        exists|i: int|
            0 <= i < self.conversations.len() && is_between(#[trigger] self.conversations[i], a, b)
    }

    /// Whether a conversation has the identifier `id`.
    pub open spec fn has_conversation(self, id: ThingView) -> bool {
        exists|i: int| 0 <= i < self.conversations.len() && (#[trigger] self.conversations[i]).id == id
    }

    /// Whether the conversation `id` exists and counts `user` among its
    /// participants.
    pub open spec fn is_member(self, id: ThingView, user: ThingView) -> bool {
        exists|i: int|
            0 <= i < self.conversations.len() && (#[trigger] self.conversations[i]).id == id
                && self.conversations[i].participants.contains(user)
    }

    /// Whether a message has the identifier `id`.
    pub open spec fn has_message(self, id: ThingView) -> bool {
        exists|i: int| 0 <= i < self.messages.len() && (#[trigger] self.messages[i]).id == id
    }

    /// Whether a conversation is sound: two distinct participants, filed
    /// under their pair key.
    pub open spec fn conversation_ok(c: ConversationView) -> bool {
        &&& c.participants.len() == 2
        &&& c.participants[0] != c.participants[1]
        &&& c.pair_key == pair_key_of(c.participants[0].text(), c.participants[1].text())
    }

    /// The invariant of the store.
    pub open spec fn wf(self) -> bool {
        // No identifier is in use twice, and no two users have two
        // conversations.
        &&& forall|i: int, j: int|
            0 <= i < j < self.conversations.len() ==> (#[trigger] self.conversations[i]).id != (
            #[trigger] self.conversations[j]).id
        &&& forall|i: int, j: int|
            0 <= i < j < self.conversations.len() ==> !is_between(
                #[trigger] self.conversations[j],
                (#[trigger] self.conversations[i]).participants[0],
                self.conversations[i].participants[1],
            )
        &&& forall|i: int, j: int|
            0 <= i < j < self.messages.len() ==> (#[trigger] self.messages[i]).id != (
            #[trigger] self.messages[j]).id
        // Every conversation is sound.
        &&& forall|i: int|
            0 <= i < self.conversations.len() ==> Self::conversation_ok(
                #[trigger] self.conversations[i],
            )
        // Every message was sent into an existing conversation by one of
        // its participants.
        &&& forall|i: int|
            0 <= i < self.messages.len() ==> self.is_member(
                (#[trigger] self.messages[i]).conversation_id,
                self.messages[i].sender_id,
            )
        // Messages are kept from oldest to newest.
        &&& oldest_first(self.messages)
        // A message has a read time exactly when it was seen.
        &&& forall|i: int|
            0 <= i < self.messages.len() ==> ((#[trigger] self.messages[i]).read_at is Some
                <==> self.messages[i].status == MessageStatus::Seen)
    }

    /// Why a conversation between `a` and `b` under the identifier `id`
    /// cannot be created, if it cannot.
    pub open spec fn create_refusal(self, id: ThingView, a: ThingView, b: ThingView) -> Option<
        AppError,
    > {
        if a == b {
            Some(AppError::Validation(ValidationIssue::SelfConversation))
        } else if self.has_pair(a, b) || self.has_conversation(id) {
            Some(AppError::Conflict)
        } else {
            None
        }
    }

    /// Why a message from `sender` into `conversation` under the identifier
    /// `id` cannot be stored, if it cannot.
    pub open spec fn save_refusal(self, id: ThingView, conversation: ThingView, sender: ThingView)
        -> Option<AppError> {
        if !self.has_conversation(conversation) {
            Some(AppError::NotFound)
        } else if !self.is_member(conversation, sender) {
            Some(AppError::Unauthorized)
        } else if self.has_message(id) {
            Some(AppError::Conflict)
        } else {
            None
        }
    }

    /// Why a conversation that was stored before cannot be taken in, if it
    /// cannot: [`AppError::PersistenceError`] where it is not sound, else
    /// [`AppError::Conflict`] where its identifier or its pair is in use.
    pub open spec fn conversation_load_refusal(self, c: ConversationView) -> Option<AppError> {
        if !Self::conversation_ok(c) {
            Some(AppError::PersistenceError)
        } else if self.has_pair(c.participants[0], c.participants[1]) || self.has_conversation(
            c.id,
        ) {
            Some(AppError::Conflict)
        } else {
            None
        }
    }

    /// Why a message that was stored before cannot be taken in, if it
    /// cannot: [`AppError::PersistenceError`] where its read time and its
    /// status do not agree, else what refuses a new message.
    pub open spec fn message_load_refusal(self, m: MessageView) -> Option<AppError> {
        if m.read_at is Some != (m.status == MessageStatus::Seen) {
            Some(AppError::PersistenceError)
        } else {
            self.save_refusal(m.id, m.conversation_id, m.sender_id)
        }
    }

    /// The position of the message `id`.
    pub open spec fn position(self, id: ThingView) -> int {
        choose|i: int| 0 <= i < self.messages.len() && (#[trigger] self.messages[i]).id == id
    }

    /// The store after the message `id` was acknowledged as delivered.
    pub open spec fn delivered(self, id: ThingView) -> StoreView {
        StoreView {
            messages: self.messages.update(
                self.position(id),
                self.messages[self.position(id)].delivered(),
            ),
            ..self
        }
    }

    /// The store after the message `id` was acknowledged as read at `now`.
    pub open spec fn seen(self, id: ThingView, now: i64) -> StoreView {
        StoreView {
            messages: self.messages.update(
                self.position(id),
                self.messages[self.position(id)].seen(now),
            ),
            ..self
        }
    }

    /// The page of `conversation` before `cursor`, of at most `limit`
    /// messages.
    pub open spec fn page(self, conversation: ThingView, cursor: Option<i64>, limit: nat) -> Seq<
        MessageView,
    > {
        page_of(self.messages, conversation, cursor, limit)
    }
}

/// Where a message created at `now` is filed among `messages`: behind every
/// message that is not newer.
pub open spec fn arrival_position(messages: Seq<MessageView>, now: i64) -> int
    decreases messages.len(),
{
    if messages.len() == 0 {
        0
    } else if messages.last().created_at <= now {
        messages.len() as int
    } else {
        arrival_position(messages.drop_last(), now)
    }
}

/// Whether messages are kept from oldest to newest.
pub open spec fn oldest_first(messages: Seq<MessageView>) -> bool {
    forall|i: int, j: int|
        0 <= i < j < messages.len() ==> (#[trigger] messages[i]).created_at <= (
        #[trigger] messages[j]).created_at
}

/// Among messages kept from oldest to newest, the arrival position parts
/// those that are not newer than `now` from those that are.
pub proof fn lemma_arrival_position(messages: Seq<MessageView>, now: i64)
    requires
        oldest_first(messages),
    ensures
        0 <= arrival_position(messages, now) <= messages.len(),
        forall|j: int|
            0 <= j < arrival_position(messages, now) ==> (#[trigger] messages[j]).created_at <= now,
        forall|j: int|
            arrival_position(messages, now) <= j < messages.len() ==> (
            #[trigger] messages[j]).created_at > now,
    decreases messages.len(),
{
    if messages.len() > 0 && messages.last().created_at > now {
        let rest = messages.drop_last();
        assert forall|i: int, j: int| 0 <= i < j < rest.len() implies (#[trigger] rest[i]).created_at
            <= (#[trigger] rest[j]).created_at by {
            assert(rest[i] == messages[i]);
            assert(rest[j] == messages[j]);
        }
        lemma_arrival_position(rest, now);
        let p = arrival_position(rest, now);
        assert forall|j: int| 0 <= j < p implies (#[trigger] messages[j]).created_at <= now by {
            assert(rest[j] == messages[j]);
        }
        assert forall|j: int| p <= j < messages.len() implies (#[trigger] messages[j]).created_at
            > now by {
            if j < rest.len() {
                assert(rest[j] == messages[j]);
            }
        }
    }
}

/// Whether a message belongs on a page of `conversation` before `cursor`.
pub open spec fn on_page(m: MessageView, conversation: ThingView, cursor: Option<i64>) -> bool {
    &&& m.conversation_id == conversation
    &&& cursor matches Some(before) ==> m.created_at < before
}

/// The newest `limit` messages of `conversation` that are older than
/// `cursor`, newest first, out of messages kept from oldest to newest.
pub open spec fn page_of(
    messages: Seq<MessageView>,
    conversation: ThingView,
    cursor: Option<i64>,
    limit: nat,
) -> Seq<MessageView>
    decreases messages.len(),
{
    if messages.len() == 0 || limit == 0 {
        Seq::empty()
    } else if on_page(messages.last(), conversation, cursor) {
        seq![messages.last()] + page_of(
            messages.drop_last(),
            conversation,
            cursor,
            (limit - 1) as nat,
        )
    } else {
        page_of(messages.drop_last(), conversation, cursor, limit)
    }
}

/// The store after a conversation between `a` and `b` was created under
/// `id` at `now`.
pub open spec fn with_conversation(
    store: StoreView,
    id: ThingView,
    a: ThingView,
    b: ThingView,
    now: i64,
) -> StoreView {
    StoreView {
        conversations: store.conversations.push(
            ConversationView {
                id,
                created_at: now,
                pair_key: pair_key_of(a.text(), b.text()),
                participants: seq![a, b],
            },
        ),
        ..store
    }
}

/// A conversation that the store accepts is from then on the one
/// conversation of its two users: the store stays sound and holds exactly
/// one conversation between them, and a second one is refused as a
/// conflict, in whatever order the two are named and under whatever
/// identifier.
pub proof fn lemma_new_conversation(
    store: StoreView,
    id: ThingView,
    a: ThingView,
    b: ThingView,
    now: i64,
    again: ThingView,
)
    requires
        store.wf(),
        store.create_refusal(id, a, b) is None,
    ensures
        with_conversation(store, id, a, b, now).wf(),
        with_conversation(store, id, a, b, now).has_pair(a, b),
        with_conversation(store, id, a, b, now).has_pair(b, a),
        forall|i: int|
            0 <= i < with_conversation(store, id, a, b, now).conversations.len() && is_between(
                #[trigger] with_conversation(store, id, a, b, now).conversations[i],
                a,
                b,
            ) ==> i == store.conversations.len(),
        with_conversation(store, id, a, b, now).create_refusal(again, a, b) == Some(
            AppError::Conflict,
        ),
        with_conversation(store, id, a, b, now).create_refusal(again, b, a) == Some(
            AppError::Conflict,
        ),
        pair_key_of(a.text(), b.text()) == pair_key_of(b.text(), a.text()),
{
    let after = with_conversation(store, id, a, b, now);
    let last = store.conversations.len() as int;
    let created = after.conversations[last];
    assert(created.participants == seq![a, b]);
    assert(is_between(created, a, b));
    assert(is_between(created, b, a));
    lemma_pair_key_symmetric(a.text(), b.text());
    assert forall|i: int| 0 <= i < after.messages.len() implies after.is_member(
        (#[trigger] after.messages[i]).conversation_id,
        after.messages[i].sender_id,
    ) by {
        let m = store.messages[i];
        assert(store.is_member(m.conversation_id, m.sender_id));
        let k = choose|k: int|
            0 <= k < store.conversations.len() && (#[trigger] store.conversations[k]).id
                == m.conversation_id && store.conversations[k].participants.contains(m.sender_id);
        assert(after.conversations[k] == store.conversations[k]);
    }
    assert forall|i: int, j: int| 0 <= i < j < after.conversations.len() implies !is_between(
        #[trigger] after.conversations[j],
        (#[trigger] after.conversations[i]).participants[0],
        after.conversations[i].participants[1],
    ) by {
        let earlier = store.conversations[i];
        assert(after.conversations[i] == earlier);
        assert(StoreView::conversation_ok(earlier));
        if j == last {
            if is_between(created, earlier.participants[0], earlier.participants[1]) {
                assert(earlier.participants =~= seq![a, b] || earlier.participants =~= seq![b, a]);
                assert(is_between(earlier, a, b));
            }
        } else {
            assert(after.conversations[j] == store.conversations[j]);
        }
    }
    assert forall|i: int, j: int| 0 <= i < j < after.conversations.len() implies (
    #[trigger] after.conversations[i]).id != (#[trigger] after.conversations[j]).id by {
        assert(after.conversations[i] == store.conversations[i]);
        if j < last {
            assert(after.conversations[j] == store.conversations[j]);
        }
    }
    assert forall|i: int| 0 <= i < after.conversations.len() implies StoreView::conversation_ok(
        #[trigger] after.conversations[i],
    ) by {
        if i < last {
            assert(after.conversations[i] == store.conversations[i]);
        }
    }
    assert forall|i: int|
        0 <= i < after.conversations.len() && is_between(
            #[trigger] after.conversations[i],
            a,
            b,
        ) implies i == last by {
        if i < last {
            assert(after.conversations[i] == store.conversations[i]);
        }
    }
}

/// Membership depends on the conversations alone.
proof fn lemma_member_by_conversations(a: StoreView, b: StoreView, id: ThingView, user: ThingView)
    requires
        a.conversations == b.conversations,
        a.is_member(id, user),
    ensures
        b.is_member(id, user),
{
    let k = choose|k: int|
        0 <= k < a.conversations.len() && (#[trigger] a.conversations[k]).id == id
            && a.conversations[k].participants.contains(user);
    assert(b.conversations[k].id == id && b.conversations[k].participants.contains(user));
}

/// Filing a new message at its arrival position keeps the store sound.
pub proof fn lemma_insert_keeps_wf(before: StoreView, m: MessageView)
    requires
        before.wf(),
        before.is_member(m.conversation_id, m.sender_id),
        !before.has_message(m.id),
        m.read_at is Some <==> m.status == MessageStatus::Seen,
    ensures
        (StoreView {
            messages: before.messages.insert(arrival_position(before.messages, m.created_at), m),
            ..before
        }).wf(),
{
    let p = arrival_position(before.messages, m.created_at);
    lemma_arrival_position(before.messages, m.created_at);
    let after = StoreView { messages: before.messages.insert(p, m), ..before };
    assert forall|i: int| 0 <= i < after.messages.len() implies after.is_member(
        (#[trigger] after.messages[i]).conversation_id,
        after.messages[i].sender_id,
    ) by {
        if i < p {
            assert(after.messages[i] == before.messages[i]);
            assert(before.is_member(before.messages[i].conversation_id, before.messages[i].sender_id));
        } else if i > p {
            assert(after.messages[i] == before.messages[i - 1]);
            assert(before.is_member(
                before.messages[i - 1].conversation_id,
                before.messages[i - 1].sender_id,
            ));
        }
        lemma_member_by_conversations(
            before,
            after,
            after.messages[i].conversation_id,
            after.messages[i].sender_id,
        );
    }
    assert forall|i: int, j: int| 0 <= i < j < after.messages.len() implies (
    #[trigger] after.messages[i]).id != (#[trigger] after.messages[j]).id by {
        let a: int = if i < p { i } else { i - 1 };
        let b: int = if j < p { j } else { j - 1 };
        if i != p && j != p {
            assert(after.messages[i] == before.messages[a]);
            assert(after.messages[j] == before.messages[b]);
        } else if i == p {
            assert(after.messages[j] == before.messages[b]);
        } else {
            assert(after.messages[i] == before.messages[a]);
        }
    }
    assert forall|i: int, j: int| 0 <= i < j < after.messages.len() implies (
    #[trigger] after.messages[i]).created_at <= (#[trigger] after.messages[j]).created_at by {
        let a: int = if i < p { i } else { i - 1 };
        let b: int = if j < p { j } else { j - 1 };
        if i != p {
            assert(after.messages[i] == before.messages[a]);
        }
        if j != p {
            assert(after.messages[j] == before.messages[b]);
        }
    }
    assert forall|i: int| 0 <= i < after.messages.len() implies ((
    #[trigger] after.messages[i]).read_at is Some <==> after.messages[i].status
        == MessageStatus::Seen) by {
        if i < p {
            assert(after.messages[i] == before.messages[i]);
        } else if i > p {
            assert(after.messages[i] == before.messages[i - 1]);
        }
    }
}

/// Replacing a message by one that differs from it in status and read time
/// at most keeps the store sound.
pub proof fn lemma_update_keeps_wf(before: StoreView, at: int, m: MessageView)
    requires
        before.wf(),
        0 <= at < before.messages.len(),
        m.id == before.messages[at].id,
        m.conversation_id == before.messages[at].conversation_id,
        m.sender_id == before.messages[at].sender_id,
        m.created_at == before.messages[at].created_at,
        m.read_at is Some <==> m.status == MessageStatus::Seen,
    ensures
        (StoreView { messages: before.messages.update(at, m), ..before }).wf(),
{
    let after = StoreView { messages: before.messages.update(at, m), ..before };
    assert forall|i: int| 0 <= i < after.messages.len() implies after.is_member(
        (#[trigger] after.messages[i]).conversation_id,
        after.messages[i].sender_id,
    ) by {
        assert(before.is_member(before.messages[i].conversation_id, before.messages[i].sender_id));
        lemma_member_by_conversations(
            before,
            after,
            after.messages[i].conversation_id,
            after.messages[i].sender_id,
        );
    }
    assert forall|i: int, j: int| 0 <= i < j < after.messages.len() implies (
    #[trigger] after.messages[i]).id != (#[trigger] after.messages[j]).id by {
        assert(before.messages[i].id != before.messages[j].id);
    }
    assert forall|i: int, j: int| 0 <= i < j < after.messages.len() implies (
    #[trigger] after.messages[i]).created_at <= (#[trigger] after.messages[j]).created_at by {
        assert(before.messages[i].created_at <= before.messages[j].created_at);
    }
    assert forall|i: int| 0 <= i < after.messages.len() implies ((
    #[trigger] after.messages[i]).read_at is Some <==> after.messages[i].status
        == MessageStatus::Seen) by {
        if i != at {
            assert(after.messages[i] == before.messages[i]);
        }
    }
}

/// A page holds at most `limit` messages, each of them a stored message of
/// the conversation that is older than the cursor.
pub proof fn lemma_page_sound(
    messages: Seq<MessageView>,
    conversation: ThingView,
    cursor: Option<i64>,
    limit: nat,
)
    ensures
        page_of(messages, conversation, cursor, limit).len() <= limit,
        forall|k: int|
            0 <= k < page_of(messages, conversation, cursor, limit).len() ==> {
                &&& on_page(
                    #[trigger] page_of(messages, conversation, cursor, limit)[k],
                    conversation,
                    cursor,
                )
                &&& messages.contains(page_of(messages, conversation, cursor, limit)[k])
            },
    decreases messages.len(),
{
    if messages.len() > 0 && limit > 0 {
        let rest = messages.drop_last();
        let page = page_of(messages, conversation, cursor, limit);
        if on_page(messages.last(), conversation, cursor) {
            let tail = page_of(rest, conversation, cursor, (limit - 1) as nat);
            lemma_page_sound(rest, conversation, cursor, (limit - 1) as nat);
            assert forall|k: int| 0 <= k < page.len() implies on_page(
                #[trigger] page[k],
                conversation,
                cursor,
            ) && messages.contains(page[k]) by {
                if k == 0 {
                    assert(messages[messages.len() - 1] == page[0]);
                } else {
                    assert(page[k] == tail[k - 1]);
                    let j = choose|j: int| 0 <= j < rest.len() && rest[j] == tail[k - 1];
                    assert(messages[j] == page[k]);
                }
            }
        } else {
            lemma_page_sound(rest, conversation, cursor, limit);
            assert forall|k: int| 0 <= k < page.len() implies on_page(
                #[trigger] page[k],
                conversation,
                cursor,
            ) && messages.contains(page[k]) by {
                let j = choose|j: int| 0 <= j < rest.len() && rest[j] == page[k];
                assert(messages[j] == page[k]);
            }
        }
    }
}

/// Whether no two messages of `conversation` were created at the same time.
pub open spec fn distinct_times(messages: Seq<MessageView>, conversation: ThingView) -> bool {
    forall|i: int, j: int|
        0 <= i < j < messages.len() && (#[trigger] messages[i]).conversation_id == conversation && (
        #[trigger] messages[j]).conversation_id == conversation ==> messages[i].created_at
            != messages[j].created_at
}

/// Out of messages kept from oldest to newest a page comes newest first:
/// creation times never increase along it, and where no two messages of the
/// conversation share a creation time they strictly decrease.
pub proof fn lemma_page_newest_first(
    messages: Seq<MessageView>,
    conversation: ThingView,
    cursor: Option<i64>,
    limit: nat,
)
    requires
        oldest_first(messages),
    ensures
        forall|a: int, b: int|
            0 <= a < b < page_of(messages, conversation, cursor, limit).len() ==> (#[trigger] page_of(
                messages,
                conversation,
                cursor,
                limit,
            )[a]).created_at >= (#[trigger] page_of(
                messages,
                conversation,
                cursor,
                limit,
            )[b]).created_at,
        distinct_times(messages, conversation) ==> forall|a: int, b: int|
            0 <= a < b < page_of(messages, conversation, cursor, limit).len() ==> (#[trigger] page_of(
                messages,
                conversation,
                cursor,
                limit,
            )[a]).created_at > (#[trigger] page_of(
                messages,
                conversation,
                cursor,
                limit,
            )[b]).created_at,
    decreases messages.len(),
{
    if messages.len() > 0 && limit > 0 {
        let rest = messages.drop_last();
        let page = page_of(messages, conversation, cursor, limit);
        assert forall|i: int, j: int| 0 <= i < j < rest.len() implies (#[trigger] rest[i]).created_at
            <= (#[trigger] rest[j]).created_at by {
            assert(rest[i] == messages[i]);
            assert(rest[j] == messages[j]);
        }
        if distinct_times(messages, conversation) {
            assert forall|i: int, j: int|
                0 <= i < j < rest.len() && (#[trigger] rest[i]).conversation_id == conversation && (
                #[trigger] rest[j]).conversation_id == conversation implies rest[i].created_at
                != rest[j].created_at by {
                assert(rest[i] == messages[i]);
                assert(rest[j] == messages[j]);
            }
        }
        if on_page(messages.last(), conversation, cursor) {
            let tail = page_of(rest, conversation, cursor, (limit - 1) as nat);
            lemma_page_newest_first(rest, conversation, cursor, (limit - 1) as nat);
            lemma_page_sound(rest, conversation, cursor, (limit - 1) as nat);
            let top = messages.len() - 1;
            assert forall|a: int, b: int| 0 <= a < b < page.len() implies (#[trigger] page[a]).created_at
                >= (#[trigger] page[b]).created_at && (distinct_times(messages, conversation)
                ==> page[a].created_at > page[b].created_at) by {
                assert(page[b] == tail[b - 1]);
                if a == 0 {
                    let j = choose|j: int| 0 <= j < rest.len() && rest[j] == tail[b - 1];
                    assert(messages[j] == page[b]);
                    assert(messages[top] == page[0]);
                    assert(messages[j].created_at <= messages[top].created_at);
                    assert(on_page(tail[b - 1], conversation, cursor));
                } else {
                    assert(page[a] == tail[a - 1]);
                }
            }
        } else {
            lemma_page_newest_first(rest, conversation, cursor, limit);
        }
    }
}

/// A page of a sound store holds at most `limit` messages, all of the
/// conversation asked for and all created before the cursor, and runs from
/// newest to oldest.
pub proof fn lemma_page_of_store(
    store: StoreView,
    conversation: ThingView,
    before: i64,
    limit: nat,
)
    requires
        store.wf(),
    ensures
        store.page(conversation, Some(before), limit).len() <= limit,
        forall|k: int|
            0 <= k < store.page(conversation, Some(before), limit).len() ==> {
                &&& (#[trigger] store.page(conversation, Some(before), limit)[k]).created_at < before
                &&& store.page(conversation, Some(before), limit)[k].conversation_id == conversation
                &&& store.messages.contains(store.page(conversation, Some(before), limit)[k])
            },
        forall|a: int, b: int|
            0 <= a < b < store.page(conversation, Some(before), limit).len() ==> (
            #[trigger] store.page(conversation, Some(before), limit)[a]).created_at >= (
            #[trigger] store.page(conversation, Some(before), limit)[b]).created_at,
        distinct_times(store.messages, conversation) ==> forall|a: int, b: int|
            0 <= a < b < store.page(conversation, Some(before), limit).len() ==> (
            #[trigger] store.page(conversation, Some(before), limit)[a]).created_at > (
            #[trigger] store.page(conversation, Some(before), limit)[b]).created_at,
{
    lemma_page_sound(store.messages, conversation, Some(before), limit);
    lemma_page_newest_first(store.messages, conversation, Some(before), limit);
}

/// In a sound store a message is found at one position only.
pub proof fn lemma_position_unique(store: StoreView, at: int)
    requires
        store.wf(),
        0 <= at < store.messages.len(),
    ensures
        store.position(store.messages[at].id) == at,
{
    let id = store.messages[at].id;
    let p = store.position(id);
    assert(store.messages[p].id == id);
    if p < at {
        assert(store.messages[p].id != store.messages[at].id);
    }
    if at < p {
        assert(store.messages[at].id != store.messages[p].id);
    }
}

/// An acknowledgement never moves a message backwards in its lifecycle and
/// touches no other message; in particular a delivery acknowledgement that
/// arrives after a read acknowledgement leaves the store as it is.
pub proof fn lemma_acknowledgements_monotone(store: StoreView, id: ThingView, now: i64)
    requires
        store.wf(),
        store.has_message(id),
    ensures
        store.delivered(id).wf(),
        store.seen(id, now).wf(),
        store.delivered(id).messages.len() == store.messages.len(),
        store.seen(id, now).messages.len() == store.messages.len(),
        forall|i: int|
            0 <= i < store.messages.len() ==> (#[trigger] store.messages[i]).status.rank()
                <= store.delivered(id).messages[i].status.rank(),
        forall|i: int|
            0 <= i < store.messages.len() ==> (#[trigger] store.messages[i]).status.rank()
                <= store.seen(id, now).messages[i].status.rank(),
        store.seen(id, now).messages[store.position(id)].status == MessageStatus::Seen,
        store.seen(id, now).delivered(id) == store.seen(id, now),
{
    let p = store.position(id);
    assert(0 <= p < store.messages.len() && store.messages[p].id == id);
    let m = store.messages[p];
    lemma_update_keeps_wf(store, p, m.delivered());
    lemma_update_keeps_wf(store, p, m.seen(now));
    let seen = store.seen(id, now);
    assert(seen.messages[p].id == id);
    lemma_position_unique(seen, p);
    assert(seen.delivered(id).messages =~= seen.messages);
}

/// The views of a list of conversations, in order.
pub open spec fn conversation_views(conversations: Seq<Conversation>) -> Seq<ConversationView> {
    conversations.map_values(|c: Conversation| c@)
}

/// The views of a list of messages, in order.
pub open spec fn message_views(messages: Seq<Message>) -> Seq<MessageView> {
    messages.map_values(|m: Message| m@)
}

/// The store of conversations and messages.
pub struct MessageStore {
    conversations: Vec<Conversation>,
    messages: Vec<Message>,
}

impl View for MessageStore {
    type V = StoreView;

    closed spec fn view(&self) -> StoreView {
        StoreView {
            conversations: conversation_views(self.conversations@),
            messages: message_views(self.messages@),
        }
    }
}

impl MessageStore {
    /// Whether the store's invariant holds.
    pub open spec fn wf(&self) -> bool {
        self@.wf()
    }

    /// An empty store.
    pub fn new() -> (store: Self)
        ensures
            store.wf(),
            store@.conversations.len() == 0,
            store@.messages.len() == 0,
    {
        MessageStore { conversations: Vec::new(), messages: Vec::new() }
    }

    /// How many conversations the store holds.
    pub fn conversation_count(&self) -> (n: usize)
        ensures
            n == self@.conversations.len(),
    {
        self.conversations.len()
    }

    /// How many messages the store holds.
    pub fn message_count(&self) -> (n: usize)
        ensures
            n == self@.messages.len(),
    {
        self.messages.len()
    }

    /// Whether a conversation has the identifier `id`.
    pub fn has_conversation(&self, id: &Thing) -> (found: bool)
        ensures
            found == self@.has_conversation(id@),
    {
        self.find_conversation(id).is_some()
    }

    /// Whether a message has the identifier `id`.
    pub fn has_message(&self, id: &Thing) -> (found: bool)
        requires
            self.wf(),
        ensures
            found == self@.has_message(id@),
    {
        self.find_message(id).is_some()
    }

    /// Why a message from `sender` into `conversation` under the identifier
    /// `id` cannot be stored, if it cannot.
    pub fn save_refusal(&self, id: &Thing, conversation: &Thing, sender: &Thing) -> (refusal:
        Option<AppError>)
        requires
            self.wf(),
        ensures
            refusal == self@.save_refusal(id@, conversation@, sender@),
    {
        let at = match self.find_conversation(conversation) {
            Some(at) => at,
            None => {
                return Some(AppError::NotFound);
            },
        };
        assert(self@.conversations[at as int] == self.conversations@[at as int]@);
        if !names_thing(&self.conversations[at].participants, sender) {
            proof {
                assert forall|k: int|
                    0 <= k < self@.conversations.len() && (#[trigger] self@.conversations[k]).id
                        == conversation@ implies !self@.conversations[k].participants.contains(
                    sender@,
                ) by {
                    assert(k == at);
                }
            }
            return Some(AppError::Unauthorized);
        }
        assert(self@.is_member(conversation@, sender@));
        if self.find_message(id).is_some() {
            Some(AppError::Conflict)
        } else {
            None
        }
    }

    /// Takes in a conversation that was stored before, as it stands. A
    /// conversation that is not sound (two distinct participants, filed
    /// under their pair key) is refused with
    /// [`AppError::PersistenceError`], one whose identifier or pair is in
    /// use with [`AppError::Conflict`].
    pub fn load_conversation(&mut self, conversation: Conversation) -> (r: AppResult<()>)
        requires
            old(self).wf(),
        ensures
            final(self).wf(),
            final(self)@.messages == old(self)@.messages,
            match old(self)@.conversation_load_refusal(conversation@) {
                Some(refusal) => r == Err::<(), AppError>(refusal) && final(self)@ == old(self)@,
                None => r is Ok && final(self)@.conversations == old(self)@.conversations.push(
                    conversation@,
                ),
            },
    {
        if conversation.participants.len() != 2 {
            return Err(AppError::PersistenceError);
        }
        proof {
            assert(conversation@.participants[0] == conversation.participants@[0]@);
            assert(conversation@.participants[1] == conversation.participants@[1]@);
        }
        if conversation.participants[0].same(&conversation.participants[1]) {
            return Err(AppError::PersistenceError);
        }
        let key = pair_key(&conversation.participants[0], &conversation.participants[1]);
        if key != conversation.pair_key {
            return Err(AppError::PersistenceError);
        }
        let taken = self.find_pair(&conversation.participants[0], &conversation.participants[1]);
        if taken.is_some() || self.find_conversation(&conversation.id).is_some() {
            return Err(AppError::Conflict);
        }
        let ghost row = conversation@;
        self.conversations.push(conversation);
        proof {
            assert(self@.conversations =~= old(self)@.conversations.push(row));
            assert(self@.messages =~= old(self)@.messages);
            assert(row.participants =~= seq![row.participants[0], row.participants[1]]);
            lemma_new_conversation(
                old(self)@,
                row.id,
                row.participants[0],
                row.participants[1],
                row.created_at,
                row.id,
            );
        }
        Ok(())
    }

    /// Takes in a message that was stored before, as it stands, behind
    /// every stored message that is not newer. A message whose read time
    /// and status do not agree is refused with
    /// [`AppError::PersistenceError`], any other as a new message would be.
    pub fn load_message(&mut self, message: Message) -> (r: AppResult<()>)
        requires
            old(self).wf(),
        ensures
            final(self).wf(),
            final(self)@.conversations == old(self)@.conversations,
            match old(self)@.message_load_refusal(message@) {
                Some(refusal) => r == Err::<(), AppError>(refusal) && final(self)@ == old(self)@,
                None => r is Ok && final(self)@.messages == old(self)@.messages.insert(
                    arrival_position(old(self)@.messages, message.created_at),
                    message@,
                ),
            },
    {
        let seen = match message.status {
            MessageStatus::Seen => true,
            _ => false,
        };
        if message.read_at.is_some() != seen {
            return Err(AppError::PersistenceError);
        }
        match self.save_refusal(&message.id, &message.conversation_id, &message.sender_id) {
            Some(refusal) => {
                return Err(refusal);
            },
            None => {},
        }
        let p = self.arrival(message.created_at);
        let ghost row = message@;
        self.messages.insert(p, message);
        proof {
            assert(self@.messages =~= old(self)@.messages.insert(p as int, row));
            assert(self@.conversations =~= old(self)@.conversations);
            lemma_insert_keeps_wf(old(self)@, row);
        }
        Ok(())
    }

    /// Where a message created at `now` is filed.
    fn arrival(&self, now: i64) -> (p: usize)
        requires
            self.wf(),
        ensures
            p == arrival_position(self@.messages, now),
            p <= self@.messages.len(),
    {
        let mut p: usize = self.messages.len();
        while p > 0 && self.messages[p - 1].created_at > now
            invariant
                p <= self.messages.len(),
                forall|j: int| p <= j < self.messages.len() ==> (#[trigger] self@.messages[j]).created_at
                    > now,
            decreases p,
        {
            p -= 1;
        }
        proof {
            lemma_arrival_position(self@.messages, now);
            let q = arrival_position(self@.messages, now);
            if q < p {
                assert(self@.messages[p - 1].created_at <= now);
                assert(self@.messages[q].created_at > now);
            }
            if p < q {
                assert(self@.messages[p as int].created_at <= now);
            }
        }
        p
    }

    /// The message `id`, or [`AppError::NotFound`] where there is none.
    pub fn get_message(&self, id: &Thing) -> (r: AppResult<Message>)
        requires
            self.wf(),
        ensures
            r is Ok <==> self@.has_message(id@),
            r matches Ok(m) ==> m@ == self@.messages[self@.position(id@)] && m@.id == id@,
            r matches Err(e) ==> e == AppError::NotFound,
    {
        match self.find_message(id) {
            Some(at) => {
                assert(self@.messages[at as int] == self.messages@[at as int]@);
                Ok(self.messages[at].duplicate())
            },
            None => Err(AppError::NotFound),
        }
    }

    /// The position of the conversation between `a` and `b`, if there is
    /// one.
    fn find_pair(&self, a: &Thing, b: &Thing) -> (at: Option<usize>)
        requires
            self.wf(),
        ensures
            at matches Some(i) ==> i < self@.conversations.len() && is_between(
                self@.conversations[i as int],
                a@,
                b@,
            ),
            at is None ==> !self@.has_pair(a@, b@),
    {
        let mut i: usize = 0;
        while i < self.conversations.len()
            invariant
                self.wf(),
                i <= self.conversations.len(),
                forall|j: int| 0 <= j < i ==> !is_between(#[trigger] self@.conversations[j], a@, b@),
            decreases self.conversations.len() - i,
        {
            let c = &self.conversations[i];
            proof {
                assert(self@.conversations[i as int] == c@);
                assert(StoreView::conversation_ok(self@.conversations[i as int]));
                assert(c@.participants[0] == c.participants@[0]@);
                assert(c@.participants[1] == c.participants@[1]@);
            }
            let forward = c.participants[0].same(a) && c.participants[1].same(b);
            let backward = c.participants[0].same(b) && c.participants[1].same(a);
            if forward || backward {
                proof {
                    if forward {
                        assert(c@.participants =~= seq![a@, b@]);
                    } else {
                        assert(c@.participants =~= seq![b@, a@]);
                    }
                }
                return Some(i);
            }
            proof {
                if c@.participants == seq![a@, b@] {
                    assert(seq![a@, b@][0] == a@ && seq![a@, b@][1] == b@);
                }
                if c@.participants == seq![b@, a@] {
                    assert(seq![b@, a@][0] == b@ && seq![b@, a@][1] == a@);
                }
            }
            i += 1;
        }
        None
    }

    /// The position of the conversation `id`, if there is one.
    fn find_conversation(&self, id: &Thing) -> (at: Option<usize>)
        ensures
            at matches Some(i) ==> i < self@.conversations.len() && self@.conversations[i as int].id
                == id@,
            at is None ==> !self@.has_conversation(id@),
    {
        let mut i: usize = 0;
        while i < self.conversations.len()
            invariant
                i <= self.conversations.len(),
                forall|j: int| 0 <= j < i ==> (#[trigger] self@.conversations[j]).id != id@,
            decreases self.conversations.len() - i,
        {
            if self.conversations[i].id.same(id) {
                return Some(i);
            }
            i += 1;
        }
        None
    }

    /// Creates the conversation between `a` and `b` under the identifier
    /// `conversation:key`, at time `now`. Two users have at most one
    /// conversation, whatever the order in which they are named: a second
    /// one is refused with [`AppError::Conflict`], and so is an identifier
    /// that is in use. Conversations of other pairs never stand in the way. A conversation of a user with themselves is refused
    /// as a validation failure.
    pub fn create_conversation(&mut self, key: String, a: Thing, b: Thing, now: i64) -> (r:
        AppResult<Conversation>)
        requires
            old(self).wf(),
        ensures
            final(self).wf(),
            final(self)@.messages == old(self)@.messages,
            match r {
                Ok(c) => {
                    &&& old(self)@.create_refusal(conversation_id(key@), a@, b@) is None
                    &&& c@ == (ConversationView {
                        id: conversation_id(key@),
                        created_at: now,
                        pair_key: pair_key_of(a@.text(), b@.text()),
                        participants: seq![a@, b@],
                    })
                    &&& final(self)@.conversations == old(self)@.conversations.push(c@)
                },
                Err(e) => {
                    &&& old(self)@.create_refusal(conversation_id(key@), a@, b@) == Some(e)
                    &&& final(self)@ == old(self)@
                },
            },
    {
        if a.same(&b) {
            return Err(AppError::Validation(ValidationIssue::SelfConversation));
        }
        let id = Thing { table: String::from_str("conversation"), key };
        if self.find_pair(&a, &b).is_some() || self.find_conversation(&id).is_some() {
            return Err(AppError::Conflict);
        }
        let pair = pair_key(&a, &b);
        let mut participants: Vec<Thing> = Vec::new();
        participants.push(a);
        participants.push(b);
        let conversation = Conversation { id, created_at: now, pair_key: pair, participants };
        assert(conversation@.participants =~= seq![a@, b@]);
        let copy = conversation.duplicate();
        self.conversations.push(conversation);
        proof {
            assert(self@.conversations =~= old(self)@.conversations.push(copy@));
            assert(self@.messages =~= old(self)@.messages);
            lemma_new_conversation(old(self)@, copy@.id, a@, b@, now, copy@.id);
        }
        Ok(copy)
    }

    /// The conversation of `a` and `b`, whatever the order in which they are
    /// named, or [`AppError::NotFound`] where they have none.
    pub fn get_conversation(&self, a: &Thing, b: &Thing) -> (r: AppResult<Conversation>)
        requires
            self.wf(),
        ensures
            r is Ok <==> self@.has_pair(a@, b@),
            r matches Ok(c) ==> self@.conversations.contains(c@) && is_between(c@, a@, b@),
            r matches Err(e) ==> e == AppError::NotFound,
    {
        match self.find_pair(a, b) {
            Some(i) => {
                assert(self@.conversations[i as int] == self.conversations@[i as int]@);
                Ok(self.conversations[i].duplicate())
            },
            None => Err(AppError::NotFound),
        }
    }

    /// The participants of the conversation `conversation`, where it exists
    /// and `user` is one of them; [`AppError::Unauthorized`] otherwise.
    pub fn verify_member(&self, conversation: &Thing, user: &Thing) -> (r: AppResult<Vec<Thing>>)
        requires
            self.wf(),
        ensures
            r is Ok <==> self@.is_member(conversation@, user@),
            r matches Ok(participants) ==> {
                &&& thing_views(participants@).len() == 2
                &&& thing_views(participants@).contains(user@)
                &&& exists|i: int|
                    0 <= i < self@.conversations.len() && (#[trigger] self@.conversations[i]).id
                        == conversation@ && self@.conversations[i].participants == thing_views(
                        participants@,
                    )
            },
            r matches Err(e) ==> e == AppError::Unauthorized,
    {
        match self.find_conversation(conversation) {
            Some(i) => {
                assert(self@.conversations[i as int] == self.conversations@[i as int]@);
                if names_thing(&self.conversations[i].participants, user) {
                    Ok(duplicate_things(&self.conversations[i].participants))
                } else {
                    proof {
                        assert forall|k: int|
                            0 <= k < self@.conversations.len() && (
                            #[trigger] self@.conversations[k]).id == conversation@ implies !self@.conversations[k].participants.contains(
                        user@) by {
                            assert(k == i);
                        }
                    }
                    Err(AppError::Unauthorized)
                }
            },
            None => Err(AppError::Unauthorized),
        }
    }

    /// The position of the message `id`, if there is one.
    fn find_message(&self, id: &Thing) -> (at: Option<usize>)
        requires
            self.wf(),
        ensures
            at matches Some(i) ==> i < self@.messages.len() && self@.messages[i as int].id == id@
                && i == self@.position(id@),
            at is Some <==> self@.has_message(id@),
    {
        let mut i: usize = 0;
        while i < self.messages.len()
            invariant
                self.wf(),
                i <= self.messages.len(),
                forall|j: int| 0 <= j < i ==> (#[trigger] self@.messages[j]).id != id@,
            decreases self.messages.len() - i,
        {
            if self.messages[i].id.same(id) {
                assert(self@.messages[i as int].id == id@);
                assert(self@.position(id@) == i);
                return Some(i);
            }
            i += 1;
        }
        None
    }

    /// Stores a message of `sender` into `conversation` under the
    /// identifier `message:key`, created at `now` with status `Sent`, behind
    /// every stored message that is not newer. A conversation that does not
    /// exist is refused with [`AppError::NotFound`], a sender who does not
    /// take part in it with [`AppError::Unauthorized`], an identifier that
    /// is in use with [`AppError::Conflict`].
    pub fn save_message(
        &mut self,
        key: String,
        conversation: Thing,
        sender: Thing,
        text: String,
        now: i64,
    ) -> (r: AppResult<Message>)
        requires
            old(self).wf(),
        ensures
            final(self).wf(),
            final(self)@.conversations == old(self)@.conversations,
            match r {
                Ok(m) => {
                    &&& old(self)@.save_refusal(message_id(key@), conversation@, sender@) is None
                    &&& m@ == (MessageView {
                        id: message_id(key@),
                        conversation_id: conversation@,
                        created_at: now,
                        read_at: None,
                        sender_id: sender@,
                        status: MessageStatus::Sent,
                        text: text@,
                    })
                    &&& final(self)@.messages == old(self)@.messages.insert(
                        arrival_position(old(self)@.messages, now),
                        m@,
                    )
                },
                Err(e) => {
                    &&& old(self)@.save_refusal(message_id(key@), conversation@, sender@) == Some(e)
                    &&& final(self)@ == old(self)@
                },
            },
    {
        let id = Thing { table: String::from_str("message"), key };
        match self.save_refusal(&id, &conversation, &sender) {
            Some(refusal) => {
                return Err(refusal);
            },
            None => {},
        }
        let p = self.arrival(now);
        let message = Message {
            id,
            conversation_id: conversation,
            created_at: now,
            read_at: None,
            sender_id: sender,
            status: MessageStatus::Sent,
            text,
        };
        let copy = message.duplicate();
        self.messages.insert(p, message);
        proof {
            assert(self@.messages =~= old(self)@.messages.insert(p as int, copy@));
            assert(self@.conversations =~= old(self)@.conversations);
            lemma_insert_keeps_wf(old(self)@, copy@);
        }
        Ok(copy)
    }

    /// Replaces the message at position `at` by `message`, which differs
    /// from it in status and read time at most.
    fn replace_message(&mut self, at: usize, message: Message)
        requires
            old(self).wf(),
            at < old(self)@.messages.len(),
            message@.id == old(self)@.messages[at as int].id,
            message@.conversation_id == old(self)@.messages[at as int].conversation_id,
            message@.sender_id == old(self)@.messages[at as int].sender_id,
            message@.created_at == old(self)@.messages[at as int].created_at,
            message@.read_at is Some <==> message@.status == MessageStatus::Seen,
        ensures
            final(self).wf(),
            final(self)@.conversations == old(self)@.conversations,
            final(self)@.messages == old(self)@.messages.update(at as int, message@),
    {
        let ghost replacement = message@;
        self.messages[at] = message;
        proof {
            assert(self@.messages =~= old(self)@.messages.update(at as int, replacement));
            assert(self@.conversations =~= old(self)@.conversations);
            lemma_update_keeps_wf(old(self)@, at as int, replacement);
        }
    }

    /// Records that the message `id` was delivered: its status becomes
    /// `Delivered` where it was `Sent`, and stays what it was otherwise. A
    /// message that does not exist is refused with [`AppError::NotFound`].
    pub fn mark_delivered(&mut self, id: &Thing) -> (r: AppResult<()>)
        requires
            old(self).wf(),
        ensures
            final(self).wf(),
            r is Ok <==> old(self)@.has_message(id@),
            r is Ok ==> final(self)@ == old(self)@.delivered(id@),
            r matches Err(e) ==> e == AppError::NotFound && final(self)@ == old(self)@,
    {
        match self.find_message(id) {
            Some(at) => {
                assert(self@.messages[at as int] == self.messages@[at as int]@);
                let current = self.messages[at].duplicate();
                let updated = Message { status: current.status.delivered(), ..current };
                self.replace_message(at, updated);
                Ok(())
            },
            None => Err(AppError::NotFound),
        }
    }

    /// Records that the message `id` was read at `now`: its status becomes
    /// `Seen` and its read time `now`, whatever they were. Returns the read
    /// time recorded. A message that does not exist is refused with
    /// [`AppError::NotFound`].
    pub fn mark_seen(&mut self, id: &Thing, now: i64) -> (r: AppResult<i64>)
        requires
            old(self).wf(),
        ensures
            final(self).wf(),
            r is Ok <==> old(self)@.has_message(id@),
            r matches Ok(read_at) ==> read_at == now && final(self)@ == old(self)@.seen(id@, now),
            r matches Err(e) ==> e == AppError::NotFound && final(self)@ == old(self)@,
    {
        match self.find_message(id) {
            Some(at) => {
                assert(self@.messages[at as int] == self.messages@[at as int]@);
                let current = self.messages[at].duplicate();
                let updated = Message {
                    status: current.status.seen(),
                    read_at: Some(now),
                    ..current
                };
                self.replace_message(at, updated);
                Ok(now)
            },
            None => Err(AppError::NotFound),
        }
    }

    /// The newest `limit` messages of `conversation`, newest first; with a
    /// cursor, only messages created before it count.
    pub fn get_messages(&self, conversation: &Thing, cursor: Option<i64>, limit: u32) -> (page:
        Vec<Message>)
        requires
            self.wf(),
        ensures
            message_views(page@) == self@.page(conversation@, cursor, limit as nat),
    {
        let mut page: Vec<Message> = Vec::new();
        let mut i: usize = self.messages.len();
        let mut left: u32 = limit;
        assert(self@.messages.take(i as int) =~= self@.messages);
        while i > 0 && left > 0
            invariant
                i <= self.messages.len(),
                left <= limit,
                message_views(page@) + page_of(
                    self@.messages.take(i as int),
                    conversation@,
                    cursor,
                    left as nat,
                ) == self@.page(conversation@, cursor, limit as nat),
            decreases i,
        {
            let ghost rest = self@.messages.take(i as int);
            assert(rest.last() == self.messages@[i - 1]@);
            assert(rest.drop_last() =~= self@.messages.take(i - 1));
            i -= 1;
            let candidate = &self.messages[i];
            let older = match cursor {
                Some(before) => candidate.created_at < before,
                None => true,
            };
            if older && candidate.conversation_id.same(conversation) {
                let ghost so_far = message_views(page@);
                page.push(candidate.duplicate());
                left -= 1;
                assert(message_views(page@) =~= so_far + seq![candidate@]);
                assert((so_far + seq![candidate@]) + page_of(
                    self@.messages.take(i as int),
                    conversation@,
                    cursor,
                    left as nat,
                ) =~= so_far + (seq![candidate@] + page_of(
                    self@.messages.take(i as int),
                    conversation@,
                    cursor,
                    left as nat,
                )));
            }
        }
        assert(message_views(page@) =~= self@.page(conversation@, cursor, limit as nat));
        page
    }
}

} // verus!
