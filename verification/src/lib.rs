//! A small messaging backend: identities register, log in and exchange short
//! text messages.
//!
//! The crate holds the session authority (bearer tokens), the login workflow
//! that keeps one session per username, the message store with its keyset
//! query, and the request handlers as functions on plain values.

pub mod application;
pub mod auth;
pub mod infrastructure;
pub mod model;
