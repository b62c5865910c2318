//! The statements that are sent to the database.

pub mod admin;
pub mod builder;
pub mod general;
