//! Talking to Jellyfin servers: the client's error model, request building and
//! the pool of server connections.
pub mod api;
pub mod client;
pub mod error;
pub mod http;
pub mod manager;
