//! The stores behind the services, each as a narrow interface with an
//! implementation that keeps its rows in memory.

pub mod error;
pub mod login_repository;
pub mod message_repository;
pub mod user_repository;
