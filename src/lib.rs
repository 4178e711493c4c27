//! Credential and session management for an authentication service: validated
//! credential values, user / revoked-token / second-factor stores, password
//! hashing, session tokens, and the login protocol that ties them together.

// Credential values and errors.
pub mod error;
pub mod email;
pub mod password;
pub mod two_fa;
pub mod user;

// Stores: their contracts, in-memory backends, and TTL-cache records.
pub mod data_stores;
pub mod hashmap_user_store;
pub mod hashset_banned_token_store;
pub mod hashmap_two_fa_code_store;
pub mod cache_records;

// Password hashing, session tokens, email delivery, and the login protocol.
pub mod password_hasher;
pub mod auth;
pub mod email_client;
pub mod routes;

pub mod laws;
