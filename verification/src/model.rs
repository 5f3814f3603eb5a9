//! The data model and the services that work on it.

pub mod error;
pub mod login;
pub mod message;
pub mod message_service;
pub mod password;
pub mod repository;
pub mod user;
pub mod user_service;
