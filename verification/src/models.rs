//! The data model: what the Jellyfin API sends and accepts, and the client's own
//! records of servers, users, media and preferences.
pub mod api;
pub mod config;
pub mod jellyfin;
pub mod media;
pub mod query;
pub mod request;
pub mod response;
pub mod server;
pub mod user;
