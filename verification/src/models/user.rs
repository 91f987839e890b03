//! The client's record of a signed-in user, and user profile data.
use vstd::prelude::*;

verus! {

/// User session information.
#[derive(Debug, PartialEq, Eq)]
pub struct UserSession {
    /// Server ID this session belongs to
    pub server_id: String,
    /// User ID
    pub user_id: String,
    /// Username
    pub username: String,
    /// Access token for API requests
    pub access_token: String,
    /// Refresh token (if available)
    pub refresh_token: Option<String>,
    /// Session expiry timestamp (Unix seconds)
    pub expires_at: Option<i64>,
}

impl Clone for UserSession {
    fn clone(&self) -> (r: Self)
        ensures
            r == *self,
    {
        UserSession {
            server_id: self.server_id.clone(),
            user_id: self.user_id.clone(),
            username: self.username.clone(),
            access_token: self.access_token.clone(),
            refresh_token: self.refresh_token.clone(),
            expires_at: self.expires_at,
        }
    }
}

impl UserSession {
    /// A session without refresh token or expiry.
    pub fn new(server_id: String, user_id: String, username: String, access_token: String) -> (r: UserSession)
        ensures
            r == (UserSession { server_id, user_id, username, access_token, refresh_token: None, expires_at: None }),
    {
        UserSession { server_id, user_id, username, access_token, refresh_token: None, expires_at: None }
    }

    /// Whether the session has expired at `now` (Unix seconds): it has an expiry and `now`
    /// has reached it.
    pub open spec fn expired_at(&self, now: i64) -> bool {
        match self.expires_at {
            Some(t) => now >= t,
            None => false,
        }
    }

    /// Whether the session has expired at `now` (Unix seconds).
    pub fn is_expired_at(&self, now: i64) -> (r: bool)
        ensures
            r == self.expired_at(now),
    {
        match self.expires_at {
            Some(t) => now >= t,
            None => false,
        }
    }

    /// Whether the session has expired according to the system clock.
    pub fn is_expired(&self) -> (r: bool)
        ensures
            self.expires_at is None ==> !r,
            exists|now: i64| r == self.expired_at(now),
    {
        let now = crate::utils::current_timestamp();
        self.is_expired_at(now)
    }
}

/// User preferences.
#[derive(Debug, Clone)]
pub struct UserPreferences {
    /// Preferred language
    pub language: String,
    /// Preferred video quality
    pub video_quality: String,
    /// Audio language preference
    pub audio_language: Option<String>,
    /// Subtitle language preference
    pub subtitle_language: Option<String>,
}

/// User profile information.
#[derive(Debug, Clone)]
pub struct UserProfile {
    /// User ID
    pub id: String,
    /// Username
    pub name: String,
    /// Display name
    pub display_name: Option<String>,
    /// User avatar image URL
    pub avatar_url: Option<String>,
    /// Whether user is administrator
    pub is_admin: bool,
    /// User preferences
    pub preferences: UserPreferences,
}

} // verus!
