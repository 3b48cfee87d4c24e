//! Relay logic between browser clients and a Codex app-server.

pub mod ids;

pub mod json;
pub mod protocol;
pub mod channels;
pub mod session;
pub mod browser;
pub mod laws;
pub mod banner;
