//! The session authority: bearer tokens and the check of a caller's identity.

pub mod error;
pub mod jwt;
pub mod middleware;
pub mod token;
