use chat_core::chat::model::{MessageResponse, MessageStatus, WsEvent};
use chat_core::error::AppError;
use chat_core::json::{find_text, null_member, text_member, JsonMember};

fn same_event(a: &WsEvent, b: &WsEvent) -> bool {
    match (a, b) {
        (WsEvent::Message { message: x }, WsEvent::Message { message: y }) => x == y,
        (WsEvent::Delivered { message_id: x }, WsEvent::Delivered { message_id: y }) => x == y,
        (WsEvent::Seen { message_id: x }, WsEvent::Seen { message_id: y }) => x == y,
        _ => false,
    }
}

#[test]
fn message_event_is_written_with_its_tag_first() {
    let event = WsEvent::Message { message: "hi".to_string() };
    assert_eq!(event.encode().unwrap(), r#"{"type":"message","message":"hi"}"#);
}

#[test]
fn delivered_event_is_written_with_its_tag_first() {
    let event = WsEvent::Delivered { message_id: "message:m1".to_string() };
    assert_eq!(event.encode().unwrap(), r#"{"type":"delivered","message_id":"message:m1"}"#);
}

#[test]
fn seen_event_is_written_with_its_tag_first() {
    let event = WsEvent::Seen { message_id: "message:m1".to_string() };
    assert_eq!(event.encode().unwrap(), r#"{"type":"seen","message_id":"message:m1"}"#);
}

#[test]
fn text_is_escaped_when_written() {
    let event = WsEvent::Message { message: "say \"hi\"\n\\".to_string() };
    assert_eq!(event.encode().unwrap(), r#"{"type":"message","message":"say \"hi\"\n\\"}"#);
}

#[test]
fn events_are_read_from_their_wire_form() {
    let event = WsEvent::decode(r#"{"type":"message","message":"hi"}"#).unwrap();
    assert!(same_event(&event, &WsEvent::Message { message: "hi".to_string() }));
    let event = WsEvent::decode(r#"{"type":"delivered","message_id":"message:m1"}"#).unwrap();
    assert!(same_event(&event, &WsEvent::Delivered { message_id: "message:m1".to_string() }));
    let event = WsEvent::decode(r#"{"type":"seen","message_id":"message:m1"}"#).unwrap();
    assert!(same_event(&event, &WsEvent::Seen { message_id: "message:m1".to_string() }));
}

#[test]
fn members_may_come_in_any_order_and_with_company() {
    let event = WsEvent::decode(r#" { "message" : "hi", "extra": 1, "type" : "message" } "#).unwrap();
    assert!(same_event(&event, &WsEvent::Message { message: "hi".to_string() }));
}

#[test]
fn every_variant_survives_a_round_trip() {
    let events = vec![
        WsEvent::Message { message: "hi".to_string() },
        WsEvent::Message { message: String::new() },
        WsEvent::Message { message: "line\nbreak \"quoted\" \\ é ✓ \u{1F600}".to_string() },
        WsEvent::Delivered { message_id: "message:m1".to_string() },
        WsEvent::Seen { message_id: "message:`a-b`".to_string() },
    ];
    for event in events {
        let text = event.encode().unwrap();
        let back = WsEvent::decode(&text).unwrap();
        assert!(same_event(&event, &back));
    }
}

#[test]
fn members_round_trip_without_the_text() {
    let event = WsEvent::Seen { message_id: "message:m1".to_string() };
    let back = WsEvent::from_members(&event.to_members()).unwrap();
    assert!(same_event(&event, &back));
}

#[test]
fn unknown_tag_is_a_protocol_error() {
    let r = WsEvent::decode(r#"{"type":"typing","message":"hi"}"#);
    assert_eq!(r.unwrap_err(), AppError::ProtocolError);
    let r = WsEvent::decode(r#"{"type":"Message","message":"hi"}"#);
    assert_eq!(r.unwrap_err(), AppError::ProtocolError);
}

#[test]
fn missing_parts_are_a_protocol_error() {
    for text in [
        r#"{"message":"hi"}"#,
        r#"{"type":"message"}"#,
        r#"{"type":"message","message_id":"m"}"#,
        r#"{"type":"delivered","message":"hi"}"#,
        r#"{"type":"seen"}"#,
        r#"{}"#,
    ] {
        assert_eq!(WsEvent::decode(text).unwrap_err(), AppError::ProtocolError);
    }
}

#[test]
fn values_of_the_wrong_kind_are_a_protocol_error() {
    for text in [
        r#"{"type":"message","message":5}"#,
        r#"{"type":"message","message":null}"#,
        r#"{"type":1,"message":"hi"}"#,
        r#"{"type":"seen","message_id":["m"]}"#,
    ] {
        assert_eq!(WsEvent::decode(text).unwrap_err(), AppError::ProtocolError);
    }
}

#[test]
fn text_that_is_no_object_is_a_protocol_error() {
    for text in ["", "hi", "[]", "\"message\"", "{", r#"{"type":"message","message":"hi"} x"#] {
        assert_eq!(WsEvent::decode(text).unwrap_err(), AppError::ProtocolError);
    }
}

#[test]
fn find_text_takes_the_first_member_of_that_name() {
    let members: Vec<JsonMember> = vec![
        text_member("a", "1"),
        null_member("b"),
        text_member("c", "3"),
        text_member("a", "4"),
    ];
    assert_eq!(find_text(&members, "a"), Some("1".to_string()));
    assert_eq!(find_text(&members, "b"), None);
    assert_eq!(find_text(&members, "c"), Some("3".to_string()));
    assert_eq!(find_text(&members, "d"), None);
}

fn response() -> MessageResponse {
    MessageResponse {
        id: "message:m1".to_string(),
        conversation_id: "conversation:c1".to_string(),
        created_at: 1_700_000_000_000_000,
        read_at: None,
        sender_id: "users:alice".to_string(),
        status: MessageStatus::Sent,
        text: "hi".to_string(),
    }
}

#[test]
fn unread_message_is_written_with_a_null_read_time() {
    assert_eq!(
        response().encode().unwrap(),
        concat_parts(&[
            r#"{"id":"message:m1","conversation_id":"conversation:c1","#,
            r#""created_at":"2023-11-14T22:13:20Z","read_at":null,"#,
            r#""sender_id":"users:alice","status":"Sent","text":"hi"}"#,
        ])
    );
}

#[test]
fn read_message_is_written_with_both_times() {
    let mut r = response();
    r.status = MessageStatus::Seen;
    r.read_at = Some(1_700_000_000_123_456);
    assert_eq!(
        r.encode().unwrap(),
        concat_parts(&[
            r#"{"id":"message:m1","conversation_id":"conversation:c1","#,
            r#""created_at":"2023-11-14T22:13:20Z","read_at":"2023-11-14T22:13:20.123456Z","#,
            r#""sender_id":"users:alice","status":"Seen","text":"hi"}"#,
        ])
    );
}

#[test]
fn delivered_message_is_written_with_its_status() {
    let mut r = response();
    r.status = MessageStatus::Delivered;
    let text = r.encode().unwrap();
    let value: serde_json::Value = serde_json::from_str(&text).unwrap();
    assert_eq!(value["status"], serde_json::Value::String("Delivered".to_string()));
}

#[test]
fn message_with_a_time_out_of_range_cannot_be_written() {
    let mut r = response();
    r.created_at = i64::MAX;
    assert_eq!(r.encode().unwrap_err(), AppError::EncodeFailed);
    let mut r = response();
    r.read_at = Some(i64::MIN);
    assert_eq!(r.encode().unwrap_err(), AppError::EncodeFailed);
}

fn concat_parts(parts: &[&str]) -> String {
    let mut all = String::new();
    for part in parts {
        all.push_str(part);
    }
    all
}
