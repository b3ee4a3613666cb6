//! The verified core of a small social service.
//!
//! Its centre is one-to-one chat: record identifiers, the lifecycle of a
//! message, a store of conversations and messages with cursor pagination,
//! the wire form of the events on a chat stream, a registry of who is
//! connected, and the engine that drives one connection. Beside it stand
//! the rules of the user and post services: what a login or a registration
//! must hold, what tokens claim, which uploads are accepted.
//!
//! Every function states what it does over a mathematical model of its data.
//! What other crates compute (JSON, timestamps, the written form of record
//! identifiers, email and pattern rules, the presence map and its channels)
//! is reached through a handful of small functions whose contracts say what
//! is taken on trust.

pub mod chat;
pub mod common_service;
pub mod db;
pub mod error;
pub mod json;
pub mod jwt;
pub mod posts;
pub mod text;
pub mod time;
pub mod users;
pub mod ws;
