//! Versioned password hashing and verification, with what the services
//! around it share: the context of a request, the configuration, the pages
//! and addresses of mail, and the text of the statements for the database.

pub mod config;
pub mod ctx;
pub mod email;
pub mod pass;
pub mod query;
pub mod utils;
pub mod web;
