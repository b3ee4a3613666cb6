//! Users: their records, and what a login or a registration must hold.

pub mod model;
pub mod user_service;
