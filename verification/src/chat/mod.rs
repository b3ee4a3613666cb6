//! Conversations, messages and the operations on them.

pub mod chat_service;
pub mod model;
pub mod session;
pub mod store;
pub mod wire;
