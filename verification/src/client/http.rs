//! The HTTP client behind API requests: its base URL and timeout, and how a request path
//! becomes a full URL.
use vstd::prelude::*;
use crate::text::{concat3, trim_end_char, trim_end_matches_char, trim_start_char, trim_start_matches_char};
use super::error::TransportFailure;
use crate::ui::theme::wallpaper_monitor::duration_nanos_of;

verus! {

#[verifier::external_type_specification]
#[verifier::external_body]
pub struct ExReqwestClient(reqwest::Client);

#[verifier::external_type_specification]
#[verifier::external_body]
pub struct ExJsonValue(serde_json::Value);

/// Builds an HTTP client (`reqwest::ClientBuilder::build`) whose requests time out after
/// `timeout` and carry `user_agent` as their User-Agent header, and hands it back with the
/// timeout and user agent it was built with.
///
/// Building can fail (no TLS backend or resolver can be set up, or the user agent is no
/// valid header value); the failure is handed back as the transport describes it. Nothing
/// is stated of when it fails: that rests on the machine.
#[verifier::external_body]
pub(crate) fn build_http_client(timeout: std::time::Duration, user_agent: &str) -> (r: Result<
    (reqwest::Client, std::time::Duration, String),
    TransportFailure,
>)
    ensures
        r matches Ok((_, t, ua)) ==> t == timeout && ua@ == user_agent@,
{
    reqwest::ClientBuilder::new().timeout(timeout).user_agent(user_agent).build().map(
        |c| (c, timeout, user_agent.to_string()),
    ).map_err(
        |e| TransportFailure { message: e.to_string(), is_timeout: e.is_timeout(), is_connect: e.is_connect() },
    )
}

/// The user agent this library's HTTP clients send.
pub open spec fn crabfin_user_agent() -> Seq<char> {
    "Crabfin/0.1.0"@
}

/// A duration of whole seconds (`Duration::from_secs`): it holds `secs` times a billion
/// nanoseconds.
pub assume_specification[ core::time::Duration::from_secs ](secs: u64) -> (d: core::time::Duration)
    ensures
        duration_nanos_of(d) == secs * 1_000_000_000,
;

/// A copy of a duration (`Duration` is `Copy`, and its `clone` is that copy).
pub assume_specification[ <core::time::Duration as Clone>::clone ](d: &core::time::Duration) -> (r: core::time::Duration)
    ensures
        r == *d,
;

/// A handle on the same HTTP client (`reqwest::Client::clone` shares the connection
/// pool); nothing is stated of it.
pub assume_specification[ <reqwest::Client as Clone>::clone ](c: &reqwest::Client) -> reqwest::Client;

/// The seconds after which a request times out unless told otherwise.
pub const DEFAULT_TIMEOUT_SECS: u64 = 30;

/// The URL of `path` under `base`: the base, one slash, and the path without its leading
/// slashes.
pub open spec fn joined_url(base: Seq<char>, path: Seq<char>) -> Seq<char> {
    base + "/"@ + trim_start_char(path, '/')
}

/// HTTP client wrapper for Jellyfin API requests.
#[derive(Clone)]
pub struct HttpClient {
    client: reqwest::Client,
    base_url: String,
    timeout: std::time::Duration,
    user_agent: String,
}

impl HttpClient {
    /// The base URL, without trailing slashes.
    pub closed spec fn base_view(&self) -> Seq<char> {
        self.base_url@
    }

    /// The request timeout the transport was built with.
    pub closed spec fn timeout_view(&self) -> std::time::Duration {
        self.timeout
    }

    /// The user agent the transport was built with.
    pub closed spec fn agent_view(&self) -> Seq<char> {
        self.user_agent@
    }

    /// A client for `base_url` (trailing slashes removed) whose requests time out after
    /// thirty seconds; fails only when the transport cannot be built.
    pub fn new(base_url: String) -> (r: Result<HttpClient, TransportFailure>)
        ensures
            r matches Ok(c) ==> c.base_view() == trim_end_char(base_url@, '/')
                && duration_nanos_of(c.timeout_view()) == DEFAULT_TIMEOUT_SECS * 1_000_000_000
                && c.agent_view() == crabfin_user_agent(),
    {
        let timeout = std::time::Duration::from_secs(DEFAULT_TIMEOUT_SECS);
        Self::with_timeout(base_url, timeout)
    }

    /// A client for `base_url` (trailing slashes removed) whose transport is built with
    /// `timeout` and the user agent `Crabfin/0.1.0`; fails only when the transport cannot be
    /// built.
    pub fn with_timeout(base_url: String, timeout: std::time::Duration) -> (r: Result<HttpClient, TransportFailure>)
        ensures
            r matches Ok(c) ==> c.base_view() == trim_end_char(base_url@, '/') && c.timeout_view() == timeout
                && c.agent_view() == crabfin_user_agent(),
    {
        proof {
            reveal_strlit("Crabfin/0.1.0");
        }
        match build_http_client(timeout, "Crabfin/0.1.0") {
            Ok((client, built_timeout, user_agent)) => Ok(
                HttpClient {
                    client,
                    base_url: trim_end_matches_char(base_url.as_str(), '/'),
                    timeout: built_timeout,
                    user_agent,
                },
            ),
            Err(e) => Err(e),
        }
    }

    /// The base URL.
    pub fn base_url(&self) -> (r: &str)
        ensures
            r@ == self.base_view(),
    {
        self.base_url.as_str()
    }

    /// The request timeout.
    pub fn timeout(&self) -> (r: std::time::Duration)
        ensures
            r == self.timeout_view(),
    {
        self.timeout
    }

    /// The user agent the transport sends.
    pub fn user_agent(&self) -> (r: &str)
        ensures
            r@ == self.agent_view(),
    {
        self.user_agent.as_str()
    }

    /// The underlying transport.
    pub fn client(&self) -> &reqwest::Client {
        &self.client
    }

    /// The full URL of a request path: the base URL, one slash, and the path without its
    /// leading slashes.
    pub fn build_url(&self, path: &str) -> (r: String)
        ensures
            r@ == joined_url(self.base_view(), path@),
    {
        let trimmed = trim_start_matches_char(path, '/');
        concat3(self.base_url.as_str(), "/", trimmed.as_str())
    }
}

/// A request body with the headers to send with it.
#[derive(Debug, Clone)]
pub struct ApiRequest<T> {
    pub data: T,
    pub headers: Option<Vec<(String, String)>>,
}

/// A response body with its status and headers.
#[derive(Debug, Clone)]
pub struct ApiResponse<T> {
    pub data: T,
    pub status: u16,
    pub headers: Vec<(String, String)>,
}

/// Error response from the Jellyfin API.
#[derive(Debug, Clone)]
pub struct ApiError {
    pub message: String,
    pub code: Option<String>,
    pub details: Option<serde_json::Value>,
}

impl ApiError {
    /// The text of the error: `API Error: ` and the message.
    pub open spec fn text(&self) -> Seq<char> {
        "API Error: "@ + self.message@
    }

    /// The text of the error.
    pub fn to_string(&self) -> (s: String)
        ensures
            s@ == self.text(),
    {
        crate::text::concat("API Error: ", self.message.as_str())
    }
}

} // verus!
