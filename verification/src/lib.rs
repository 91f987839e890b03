//! Crabfin: the verified core of a desktop client for Jellyfin media servers.
//!
//! The library holds the client's data model, its configuration rules, its
//! request-building and error-classification logic, and the small text
//! formatting routines those depend on.
pub mod api;
pub mod auth;
pub mod client;
pub mod config;
pub mod credentials;
pub mod error;
pub mod keyed;
pub mod models;
pub mod services;
pub mod state;
pub mod text;
pub mod ui;
pub mod utils;
