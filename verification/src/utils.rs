//! Credential hashing, session tokens and the constants both share.

pub mod auth;
pub mod constants;
pub mod password_hash;
