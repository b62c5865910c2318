//! What the service takes from its clients, and what it tells them.

pub mod config;
pub mod error;
pub mod handlers;
