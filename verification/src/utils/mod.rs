//! What the other modules share.

pub mod b64;
pub mod email;
pub mod envs;
pub mod text;
