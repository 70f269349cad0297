//! Registration broker for a chat server's shared-secret admin registration:
//! credential validation, per-client rate limiting, the keyed MAC of the
//! upstream protocol, and the decisions of the request pipeline.

pub mod client;
pub mod clock;
pub mod config;
pub mod handler;
pub mod limiter;
pub mod mac;
pub mod text;
pub mod validate;
