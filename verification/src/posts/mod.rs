//! Posts and likes.

pub mod model;
pub mod post_service;
