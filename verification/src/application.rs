//! The request handlers, as functions from the services and the values of a
//! request to the answer.

pub mod app;
pub mod health_handler;
pub mod message_handler;
pub mod user_handler;
