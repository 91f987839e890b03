//! A plain API client over the HTTP client: the paths of its requests, the headers they
//! carry, and the error a failed answer becomes.
//!
//! Sending the requests and reading the JSON answers is the application's part.
use vstd::prelude::*;
use crate::text::concat;
use super::error::TransportFailure;
use super::http::{ApiError, HttpClient};

verus! {

/// API client for a Jellyfin server.
#[derive(Clone)]
pub struct JellyfinClient {
    http_client: HttpClient,
}

impl JellyfinClient {
    /// The HTTP client underneath.
    pub closed spec fn http_view(&self) -> HttpClient {
        self.http_client
    }

    /// A client for the server at `server_url` (trailing slashes removed) whose requests
    /// time out after thirty seconds and send the user agent `Crabfin/0.1.0`; fails only when the HTTP transport cannot be built.
    pub fn new(server_url: String) -> (r: Result<JellyfinClient, TransportFailure>)
        ensures
            r matches Ok(c) ==> c.http_view().base_view() == crate::text::trim_end_char(server_url@, '/')
                && crate::ui::theme::wallpaper_monitor::duration_nanos_of(c.http_view().timeout_view())
                == super::http::DEFAULT_TIMEOUT_SECS * 1_000_000_000
                && c.http_view().agent_view() == super::http::crabfin_user_agent(),
    {
        match HttpClient::new(server_url) {
            Ok(http_client) => Ok(JellyfinClient { http_client }),
            Err(e) => Err(e),
        }
    }

    /// The server URL.
    pub fn server_url(&self) -> (r: &str)
        ensures
            r@ == self.http_view().base_view(),
    {
        self.http_client.base_url()
    }

    /// The HTTP client underneath.
    pub fn http(&self) -> (r: &HttpClient)
        ensures
            *r == self.http_view(),
    {
        &self.http_client
    }

    /// The path of a user's information.
    pub fn user_path(user_id: &str) -> (p: String)
        ensures
            p@ == "/Users/"@ + user_id@,
    {
        concat("/Users/", user_id)
    }
}

/// The value of the authorization header for an access token: `Bearer` and the token.
pub fn bearer_header(access_token: &str) -> (h: String)
    ensures
        h@ == "Bearer "@ + access_token@,
{
    concat("Bearer ", access_token)
}

/// The error for a failed answer, given its status code and how the status is written
/// (code and reason phrase), and the answer's body read as JSON when it is JSON.
pub fn failed_request_error(status_text: &str, details: Option<serde_json::Value>) -> (e: ApiError)
    ensures
        e.message@ == "Request failed with status "@ + status_text@,
        e.code matches Some(c) && c@ == status_text@,
        e.details == details,
{
    ApiError {
        message: concat("Request failed with status ", status_text),
        code: Some(status_text.to_string()),
        details,
    }
}

/// The result of a sign-in.
#[derive(Debug, Clone)]
pub struct AuthenticationResult {
    pub user: UserInfo,
    pub access_token: String,
    pub server_id: String,
}

/// Server information structure.
#[derive(Debug, Clone)]
pub struct ServerInfo {
    pub id: String,
    pub name: String,
    pub version: String,
    pub operating_system: Option<String>,
}

/// User information structure.
#[derive(Debug, Clone)]
pub struct UserInfo {
    pub id: String,
    pub name: String,
    pub server_id: Option<String>,
    pub has_password: Option<bool>,
    pub has_configured_password: Option<bool>,
}

} // verus!
