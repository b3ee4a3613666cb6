use chat_core::error::AppError;
use chat_core::ws::{delivery_result, WsManager};
use tokio::sync::mpsc::error::TryRecvError;
use tokio::sync::mpsc::unbounded_channel;

#[test]
fn route_reaches_the_registered_channel() {
    let mut manager = WsManager::new();
    let (tx, mut rx) = unbounded_channel::<String>();
    manager.connect("users:bob".to_string(), tx);
    assert_eq!(manager.send_to("users:bob".to_string(), "hello".to_string()), Ok(()));
    assert_eq!(rx.try_recv(), Ok("hello".to_string()));
    assert_eq!(rx.try_recv(), Err(TryRecvError::Empty));
}

#[test]
fn second_connection_replaces_the_first() {
    let mut manager = WsManager::new();
    let (first, mut first_rx) = unbounded_channel::<String>();
    let (second, mut second_rx) = unbounded_channel::<String>();
    manager.connect("users:bob".to_string(), first);
    manager.connect("users:bob".to_string(), second);
    assert_eq!(manager.send_to("users:bob".to_string(), "one".to_string()), Ok(()));
    assert_eq!(manager.send_to("users:bob".to_string(), "two".to_string()), Ok(()));
    assert_eq!(second_rx.try_recv(), Ok("one".to_string()));
    assert_eq!(second_rx.try_recv(), Ok("two".to_string()));
    // The first channel got nothing, and its sender is gone with the entry.
    assert_eq!(first_rx.try_recv(), Err(TryRecvError::Disconnected));
}

#[test]
fn route_to_absent_user_is_a_silent_drop() {
    let mut manager = WsManager::new();
    let (tx, mut rx) = unbounded_channel::<String>();
    manager.connect("users:bob".to_string(), tx);
    assert_eq!(manager.send_to("users:carol".to_string(), "hello".to_string()), Ok(()));
    assert_eq!(rx.try_recv(), Err(TryRecvError::Empty));
}

#[test]
fn route_on_empty_registry_succeeds() {
    let mut manager = WsManager::new();
    assert_eq!(manager.send_to("users:nobody".to_string(), "x".to_string()), Ok(()));
}

#[test]
fn route_to_dead_consumer_is_a_delivery_failure() {
    let mut manager = WsManager::new();
    let (tx, rx) = unbounded_channel::<String>();
    manager.connect("users:bob".to_string(), tx);
    drop(rx);
    assert_eq!(
        manager.send_to("users:bob".to_string(), "hello".to_string()),
        Err(AppError::DeliveryFailed)
    );
}

#[test]
fn disconnect_removes_the_entry_and_is_idempotent() {
    let mut manager = WsManager::new();
    let (tx, mut rx) = unbounded_channel::<String>();
    manager.connect("users:bob".to_string(), tx);
    manager.disconnect("users:bob");
    manager.disconnect("users:bob");
    manager.disconnect("users:never");
    assert_eq!(manager.send_to("users:bob".to_string(), "hello".to_string()), Ok(()));
    assert_eq!(rx.try_recv(), Err(TryRecvError::Disconnected));
}

#[test]
fn disconnect_leaves_other_users_alone() {
    let mut manager = WsManager::new();
    let (bob, mut bob_rx) = unbounded_channel::<String>();
    let (carol, mut carol_rx) = unbounded_channel::<String>();
    manager.connect("users:bob".to_string(), bob);
    manager.connect("users:carol".to_string(), carol);
    manager.disconnect("users:bob");
    assert_eq!(manager.send_to("users:carol".to_string(), "hi".to_string()), Ok(()));
    assert_eq!(carol_rx.try_recv(), Ok("hi".to_string()));
    assert_eq!(bob_rx.try_recv(), Err(TryRecvError::Disconnected));
}

#[test]
fn delivery_result_maps_the_channel_answer() {
    assert_eq!(delivery_result(true), Ok(()));
    assert_eq!(delivery_result(false), Err(AppError::DeliveryFailed));
}
