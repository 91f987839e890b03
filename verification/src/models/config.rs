//! The application's configuration: its servers, the active one, the sessions kept for
//! them and its preferences; and the state of its connection to a server.
use vstd::prelude::*;
use crate::keyed::{keyed_map, keys_distinct};
use super::server::ServerConfig;
use super::user::UserSession;

verus! {

/// Application preferences.
#[derive(Debug, Clone, Copy)]
pub struct AppPreferences {
    /// Auto-connect to last used server
    pub auto_connect: bool,
    /// Remember login credentials
    pub remember_credentials: bool,
    /// Enable hardware acceleration
    pub hardware_acceleration: bool,
}

impl Default for AppPreferences {
    /// Auto-connect and hardware acceleration on; credentials not remembered.
    fn default() -> (p: AppPreferences)
        ensures
            p.auto_connect,
            !p.remember_credentials,
            p.hardware_acceleration,
    {
        AppPreferences { auto_connect: true, remember_credentials: false, hardware_acceleration: true }
    }
}

/// Main application configuration. (The window and display settings, which hold
/// floating-point sizes, are kept by the application.)
#[derive(Debug, Clone)]
pub struct AppConfig {
    /// List of configured servers
    pub servers: Vec<ServerConfig>,
    /// ID of the currently active server
    pub active_server_id: Option<String>,
    /// User sessions as (server id, session) entries
    pub sessions: Vec<(String, UserSession)>,
    /// Application preferences
    pub preferences: AppPreferences,
}

impl AppConfig {
    /// The configuration's invariant: at most one session per server.
    pub open spec fn wf(&self) -> bool {
        keys_distinct(self.sessions@)
    }

    /// The sessions, by server id.
    pub open spec fn sessions_view(&self) -> Map<Seq<char>, UserSession> {
        keyed_map(self.sessions@)
    }
}

impl Default for AppConfig {
    /// No servers, no active server, no sessions, default preferences.
    fn default() -> (c: AppConfig)
        ensures
            c.wf(),
            c.servers@.len() == 0,
            c.active_server_id is None,
            c.sessions@.len() == 0,
            c.preferences.auto_connect && !c.preferences.remember_credentials && c.preferences.hardware_acceleration,
    {
        AppConfig {
            servers: Vec::new(),
            active_server_id: None,
            sessions: Vec::new(),
            preferences: AppPreferences::default(),
        }
    }
}

/// Connection status enumeration.
#[derive(Debug, Clone, PartialEq, Eq)]
pub enum ConnectionStatus {
    /// Not connected to any server
    Disconnected,
    /// Attempting to connect
    Connecting,
    /// Successfully connected
    Connected,
    /// Connection failed
    Failed(String),
}

impl ConnectionStatus {
    /// Whether two statuses are the same: the same variant and, for failures, the same
    /// message.
    pub fn same_as(&self, other: &ConnectionStatus) -> (b: bool)
        ensures
            b == match (*self, *other) {
                (ConnectionStatus::Disconnected, ConnectionStatus::Disconnected) => true,
                (ConnectionStatus::Connecting, ConnectionStatus::Connecting) => true,
                (ConnectionStatus::Connected, ConnectionStatus::Connected) => true,
                (ConnectionStatus::Failed(a), ConnectionStatus::Failed(b)) => a@ == b@,
                _ => false,
            },
    {
        match (self, other) {
            (ConnectionStatus::Disconnected, ConnectionStatus::Disconnected) => true,
            (ConnectionStatus::Connecting, ConnectionStatus::Connecting) => true,
            (ConnectionStatus::Connected, ConnectionStatus::Connected) => true,
            (ConnectionStatus::Failed(a), ConnectionStatus::Failed(b)) => crate::text::same_text(a.as_str(), b.as_str()),
            _ => false,
        }
    }
}

} // verus!
