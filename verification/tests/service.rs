use chat_core::chat::chat_service::{
    create_conversation, create_conversation_at, get_conversation_of_user, get_messages,
    mark_delivered, mark_seen, mark_seen_at, message_exists, save_message, save_message_at,
    send_message, send_message_at, send_message_request, verify_member, DEFAULT_PAGE_LIMIT,
};
use chat_core::chat::model::{
    Conversation, ConversationResponse, Message, MessageRequest, MessageResponse, MessageStatus,
};
use chat_core::chat::store::MessageStore;
use chat_core::db::Thing;
use chat_core::error::AppError;
use chat_core::jwt::AuthUser;

fn auth(key: &str) -> AuthUser {
    AuthUser { user_id: format!("users:{}", key) }
}

fn request(text: &str) -> MessageRequest {
    MessageRequest { conversation_id: "conversation:c1".to_string(), text: text.to_string() }
}

fn store_with_conversation() -> MessageStore {
    let mut store = MessageStore::new();
    create_conversation_at("users:bob", &auth("alice"), &mut store, "c1".to_string(), 100).unwrap();
    store
}

#[test]
fn conversation_is_created_between_caller_and_other_user() {
    let mut store = MessageStore::new();
    let c =
        create_conversation_at("users:bob", &auth("alice"), &mut store, "c1".to_string(), 100)
            .unwrap();
    assert_eq!(c.id, "conversation:c1");
    assert_eq!(c.created_at, 100);
    assert_eq!(c.pair_key, "users:alice_users:bob");
    assert_eq!(c.participants, vec!["users:bob".to_string(), "users:alice".to_string()]);
    assert_eq!(store.conversation_count(), 1);
}

#[test]
fn pair_gets_a_single_conversation_whoever_asks() {
    let mut store = MessageStore::new();
    let first =
        create_conversation_at("users:bob", &auth("alice"), &mut store, "c1".to_string(), 100)
            .unwrap();
    let second =
        create_conversation_at("users:alice", &auth("bob"), &mut store, "c2".to_string(), 200);
    assert_eq!(second.err(), Some(AppError::Conflict));
    assert_eq!(store.conversation_count(), 1);
    let found = get_conversation_of_user("users:alice", &auth("bob"), &store).unwrap();
    assert_eq!(found.id, first.id);
    assert_eq!(found.pair_key, first.pair_key);
    let found = get_conversation_of_user("users:bob", &auth("alice"), &store).unwrap();
    assert_eq!(found.id, first.id);
}

#[test]
fn conversation_needs_identifiers_that_name_users() {
    let mut store = MessageStore::new();
    let r = create_conversation_at("bob", &auth("alice"), &mut store, "c1".to_string(), 100);
    assert_eq!(r.err(), Some(AppError::NotFound));
    let caller = AuthUser { user_id: "alice".to_string() };
    let r = create_conversation_at("users:bob", &caller, &mut store, "c1".to_string(), 100);
    assert_eq!(r.err(), Some(AppError::Unauthorized));
    let r = create_conversation_at("bob", &caller, &mut store, "c1".to_string(), 100);
    assert_eq!(r.err(), Some(AppError::Unauthorized));
    assert_eq!(store.conversation_count(), 0);
}

#[test]
fn conversation_is_created_now_under_a_fresh_key() {
    let mut store = MessageStore::new();
    let first = create_conversation("users:bob", &auth("alice"), &mut store).unwrap();
    let second = create_conversation("users:carol", &auth("alice"), &mut store).unwrap();
    assert!(first.id.starts_with("conversation:k"));
    assert!(second.id.starts_with("conversation:k"));
    assert_ne!(first.id, second.id);
    assert!(first.created_at > 1_600_000_000_000_000);
    assert_eq!(first.pair_key, "users:alice_users:bob");
}

#[test]
fn lookup_of_a_missing_conversation_is_not_found() {
    let store = store_with_conversation();
    let r = get_conversation_of_user("users:carol", &auth("alice"), &store);
    assert_eq!(r.err(), Some(AppError::NotFound));
    let r = get_conversation_of_user("carol", &auth("alice"), &store);
    assert_eq!(r.err(), Some(AppError::NotFound));
    let nameless = AuthUser { user_id: "alice".to_string() };
    let r = get_conversation_of_user("users:bob", &nameless, &store);
    assert_eq!(r.err(), Some(AppError::NotFound));
}

#[test]
fn saved_message_is_returned_as_stored() {
    let mut store = store_with_conversation();
    let m = save_message_at(
        &mut store,
        request("hello"),
        "users:alice".to_string(),
        "m1".to_string(),
        500,
    )
    .unwrap();
    assert_eq!(m.id.key, "m1");
    assert_eq!(m.text, "hello");
    assert_eq!(m.status, MessageStatus::Sent);
    assert_eq!(m.created_at, 500);
    assert_eq!(store.message_count(), 1);
}

#[test]
fn saving_fails_as_the_store_does() {
    let mut store = store_with_conversation();
    let bad = MessageRequest { conversation_id: "c1".to_string(), text: "x".to_string() };
    let r = save_message_at(&mut store, bad, "users:alice".to_string(), "m1".to_string(), 500);
    assert_eq!(r.err(), Some(AppError::NotFound));
    let r = save_message_at(&mut store, request("x"), "alice".to_string(), "m1".to_string(), 500);
    assert_eq!(r.err(), Some(AppError::Unauthorized));
    let bad = MessageRequest { conversation_id: "c1".to_string(), text: "x".to_string() };
    let r = save_message_at(&mut store, bad, "alice".to_string(), "m1".to_string(), 500);
    assert_eq!(r.err(), Some(AppError::NotFound));
    let missing =
        MessageRequest { conversation_id: "conversation:c9".to_string(), text: "x".to_string() };
    let r = save_message_at(&mut store, missing, "users:alice".to_string(), "m1".to_string(), 500);
    assert_eq!(r.err(), Some(AppError::NotFound));
    let r =
        save_message_at(&mut store, request("x"), "users:carol".to_string(), "m1".to_string(), 500);
    assert_eq!(r.err(), Some(AppError::Unauthorized));
    assert_eq!(store.message_count(), 0);
}

#[test]
fn message_is_saved_now_under_a_fresh_key() {
    let mut store = store_with_conversation();
    let a = save_message(&mut store, request("a"), "users:alice".to_string()).unwrap();
    let b = save_message(&mut store, request("b"), "users:bob".to_string()).unwrap();
    assert_eq!(a.id.table, "message");
    assert_ne!(a.id.key, b.id.key);
    assert!(a.created_at <= b.created_at);
    assert_eq!(store.message_count(), 2);
}

#[test]
fn send_request_reports_the_stored_message() {
    let mut store = store_with_conversation();
    let r = send_message_request(request("hello"), &mut store, auth("bob")).unwrap();
    assert!(r.id.starts_with("message:k"));
    assert_eq!(r.conversation_id, "conversation:c1");
    assert_eq!(r.sender_id, "users:bob");
    assert_eq!(r.status, MessageStatus::Sent);
    assert_eq!(r.read_at, None);
    assert_eq!(r.text, "hello");
    let r = send_message_request(request("hello"), &mut store, auth("carol"));
    assert_eq!(r.err(), Some(AppError::Unauthorized));
}

fn store_with_history(count: i64) -> MessageStore {
    let mut store = store_with_conversation();
    for i in 0..count {
        save_message_at(
            &mut store,
            request(&format!("t{}", i)),
            "users:alice".to_string(),
            format!("m{}", i),
            1_700_000_000_000_000 + i * 1_000_000,
        )
        .unwrap();
    }
    store
}

fn texts(page: &Vec<MessageResponse>) -> Vec<String> {
    page.iter().map(|m| m.text.clone()).collect()
}

#[test]
fn history_defaults_to_twenty_messages() {
    assert_eq!(DEFAULT_PAGE_LIMIT, 20);
    let store = store_with_history(25);
    let page = get_messages("conversation:c1", None, None, &store, &auth("bob")).unwrap();
    assert_eq!(page.len(), 20);
    assert_eq!(page[0].text, "t24");
    assert_eq!(page[19].text, "t5");
}

#[test]
fn history_honours_limit_and_cursor() {
    let store = store_with_history(5);
    let page = get_messages("conversation:c1", None, Some(2), &store, &auth("bob")).unwrap();
    assert_eq!(texts(&page), vec!["t4", "t3"]);
    let cursor = Some("2023-11-14T22:13:23Z".to_string());
    let page = get_messages("conversation:c1", cursor, Some(2), &store, &auth("bob")).unwrap();
    assert_eq!(texts(&page), vec!["t2", "t1"]);
    let cursor = Some("2023-11-14T22:13:20Z".to_string());
    let page = get_messages("conversation:c1", cursor, None, &store, &auth("alice")).unwrap();
    assert!(page.is_empty());
}

#[test]
fn history_reports_identifiers_as_text() {
    let store = store_with_history(1);
    let page = get_messages("conversation:c1", None, None, &store, &auth("bob")).unwrap();
    assert_eq!(page[0].id, "message:m0");
    assert_eq!(page[0].conversation_id, "conversation:c1");
    assert_eq!(page[0].sender_id, "users:alice");
    assert_eq!(page[0].created_at, 1_700_000_000_000_000);
}

#[test]
fn history_is_for_participants_only() {
    let store = store_with_history(3);
    let r = get_messages("conversation:c1", None, None, &store, &auth("carol"));
    assert_eq!(r.err(), Some(AppError::Unauthorized));
    let r = get_messages("conversation:c9", None, None, &store, &auth("alice"));
    assert_eq!(r.err(), Some(AppError::Unauthorized));
    let r = get_messages("c1", None, None, &store, &auth("alice"));
    assert_eq!(r.err(), Some(AppError::Unauthorized));
    let nameless = AuthUser { user_id: "alice".to_string() };
    let r = get_messages("conversation:c1", None, None, &store, &nameless);
    assert_eq!(r.err(), Some(AppError::Unauthorized));
}

#[test]
fn cursor_must_be_a_timestamp() {
    let store = store_with_history(3);
    let cursor = Some("yesterday".to_string());
    let r = get_messages("conversation:c1", cursor, None, &store, &auth("alice"));
    assert_eq!(r.err(), Some(AppError::InvalidCursor));
    // A stranger learns nothing about the cursor.
    let cursor = Some("yesterday".to_string());
    let r = get_messages("conversation:c1", cursor, None, &store, &auth("carol"));
    assert_eq!(r.err(), Some(AppError::Unauthorized));
}

#[test]
fn responses_write_identifiers_as_text() {
    let conversation = Conversation {
        id: Thing { table: "conversation".to_string(), key: "c1".to_string() },
        created_at: 7,
        pair_key: "p".to_string(),
        participants: vec![
            Thing { table: "users".to_string(), key: "a".to_string() },
            Thing { table: "users".to_string(), key: "two words".to_string() },
        ],
    };
    let r = ConversationResponse::from(conversation);
    assert_eq!(r.id, "conversation:c1");
    assert_eq!(r.created_at, 7);
    assert_eq!(r.pair_key, "p");
    assert_eq!(r.participants, vec!["users:a".to_string(), "users:`two words`".to_string()]);

    let message = Message {
        id: Thing { table: "message".to_string(), key: "m1".to_string() },
        conversation_id: Thing { table: "conversation".to_string(), key: "c1".to_string() },
        created_at: 5,
        read_at: Some(9),
        sender_id: Thing { table: "users".to_string(), key: "a".to_string() },
        status: MessageStatus::Seen,
        text: "hi".to_string(),
    };
    let r = MessageResponse::from(message);
    assert_eq!(r.id, "message:m1");
    assert_eq!(r.conversation_id, "conversation:c1");
    assert_eq!(r.sender_id, "users:a");
    assert_eq!(r.created_at, 5);
    assert_eq!(r.read_at, Some(9));
    assert_eq!(r.status, MessageStatus::Seen);
    assert_eq!(r.text, "hi");
}

#[test]
fn status_moves_forward_only() {
    assert_eq!(MessageStatus::Sent.delivered(), MessageStatus::Delivered);
    assert_eq!(MessageStatus::Delivered.delivered(), MessageStatus::Delivered);
    assert_eq!(MessageStatus::Seen.delivered(), MessageStatus::Seen);
    assert_eq!(MessageStatus::Sent.seen(), MessageStatus::Seen);
    assert_eq!(MessageStatus::Delivered.seen(), MessageStatus::Seen);
    assert_eq!(MessageStatus::Seen.seen(), MessageStatus::Seen);
    assert_eq!(MessageStatus::Sent.name(), "Sent");
    assert_eq!(MessageStatus::Delivered.name(), "Delivered");
    assert_eq!(MessageStatus::Seen.name(), "Seen");
}

#[test]
fn membership_is_reported_with_the_participants() {
    let store = store_with_conversation();
    let participants =
        verify_member(&store, "conversation:c1".to_string(), "users:alice".to_string()).unwrap();
    assert_eq!(participants, vec!["users:bob".to_string(), "users:alice".to_string()]);
}

#[test]
fn membership_is_refused_as_unauthorized() {
    let store = store_with_conversation();
    for (conid, user) in [
        ("conversation:c1", "users:carol"),
        ("conversation:c9", "users:alice"),
        ("abc", "users:a"),
        ("conversation:c1", "alice"),
        ("", ""),
    ] {
        let r = verify_member(&store, conid.to_string(), user.to_string());
        assert_eq!(r.err(), Some(AppError::Unauthorized));
    }
}

#[test]
fn sent_message_is_reported_as_its_payload() {
    let mut store = store_with_conversation();
    let payload = send_message_at(
        &mut store,
        "hi".to_string(),
        "conversation:c1".to_string(),
        "users:alice".to_string(),
        "m1".to_string(),
        1_700_000_000_000_000,
    )
    .unwrap();
    let value: serde_json::Value = serde_json::from_str(&payload).unwrap();
    assert_eq!(value["text"].as_str(), Some("hi"));
    assert_eq!(value["status"].as_str(), Some("Sent"));
    assert_eq!(value["sender_id"].as_str(), Some("users:alice"));
    assert_eq!(value["conversation_id"].as_str(), Some("conversation:c1"));
    assert_eq!(value["id"].as_str(), Some("message:m1"));
    assert!(value["read_at"].is_null());
    assert_eq!(store.message_count(), 1);
}

#[test]
fn message_that_cannot_be_written_is_not_stored() {
    let mut store = store_with_conversation();
    let r = send_message_at(
        &mut store,
        "hi".to_string(),
        "conversation:c1".to_string(),
        "users:alice".to_string(),
        "m1".to_string(),
        i64::MAX,
    );
    assert_eq!(r.err(), Some(AppError::EncodeFailed));
    assert_eq!(store.message_count(), 0);
}

#[test]
fn refused_message_has_no_payload() {
    let mut store = store_with_conversation();
    let send = |store: &mut MessageStore, conid: &str, user: &str| {
        send_message_at(
            store,
            "hi".to_string(),
            conid.to_string(),
            user.to_string(),
            "m1".to_string(),
            5,
        )
    };
    assert_eq!(send(&mut store, "conversation:c9", "users:alice").err(), Some(AppError::NotFound));
    assert_eq!(send(&mut store, "c1", "users:alice").err(), Some(AppError::NotFound));
    assert_eq!(
        send(&mut store, "conversation:c1", "users:carol").err(),
        Some(AppError::Unauthorized)
    );
    assert_eq!(send(&mut store, "conversation:c1", "alice").err(), Some(AppError::Unauthorized));
    assert_eq!(store.message_count(), 0);
    assert!(send(&mut store, "conversation:c1", "users:alice").is_ok());
    assert_eq!(send(&mut store, "conversation:c1", "users:alice").err(), Some(AppError::Conflict));
    assert_eq!(store.message_count(), 1);
}

#[test]
fn message_is_sent_now_under_a_fresh_key() {
    let mut store = store_with_conversation();
    let payload = send_message(
        &mut store,
        "hi".to_string(),
        "conversation:c1".to_string(),
        "users:bob".to_string(),
    )
    .unwrap();
    let value: serde_json::Value = serde_json::from_str(&payload).unwrap();
    assert!(value["id"].as_str().unwrap().starts_with("message:k"));
    assert_eq!(value["status"].as_str(), Some("Sent"));
    assert_eq!(store.message_count(), 1);
}

#[test]
fn acknowledgements_by_identifier_text() {
    let mut store = store_with_history(1);
    assert!(message_exists(&store, "message:m0"));
    assert!(!message_exists(&store, "message:m9"));
    assert!(!message_exists(&store, "m0"));
    assert_eq!(mark_delivered(&mut store, "message:m0".to_string()), Ok(()));
    assert_eq!(mark_delivered(&mut store, "message:m9".to_string()), Err(AppError::NotFound));
    assert_eq!(mark_delivered(&mut store, "m0".to_string()), Err(AppError::NotFound));
    assert_eq!(
        mark_seen_at(&mut store, "message:m0".to_string(), 1_700_000_000_000_000),
        Ok("2023-11-14T22:13:20Z".to_string())
    );
    assert_eq!(
        mark_seen_at(&mut store, "message:m9".to_string(), 5),
        Err(AppError::NotFound)
    );
    assert_eq!(mark_seen_at(&mut store, "m0".to_string(), 5), Err(AppError::NotFound));
    assert!(mark_seen(&mut store, "message:m0".to_string()).unwrap().starts_with("20"));
}

#[test]
fn read_time_that_cannot_be_written_is_not_recorded() {
    let mut store = store_with_history(1);
    let r = mark_seen_at(&mut store, "message:m0".to_string(), i64::MAX);
    assert_eq!(r, Err(AppError::EncodeFailed));
    let page = get_messages("conversation:c1", None, None, &store, &auth("bob")).unwrap();
    assert_eq!(page[0].status, MessageStatus::Sent);
    assert_eq!(page[0].read_at, None);
}
