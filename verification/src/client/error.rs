//! Errors that talking to a server can end in, and how they are retried and reported.
use vstd::prelude::*;
use crate::text::{concat, concat3, u64_text, decimal};

pub mod utils;

verus! {

/// What the client knows of a failure of the HTTP transport.
#[derive(Debug, Clone)]
pub struct TransportFailure {
    /// The transport's description of the failure.
    pub message: String,
    /// Whether the failure was a timeout.
    pub is_timeout: bool,
    /// Whether the failure happened while connecting.
    pub is_connect: bool,
}

/// What the client knows of a failure to read or write JSON.
#[derive(Debug, Clone)]
pub struct JsonFailure {
    /// The JSON library's description of the failure.
    pub message: String,
}

/// Comprehensive error type for API operations.
#[derive(Debug, Clone)]
pub enum CrabfinError {
    /// Network-related errors (connection failures, timeouts, etc.)
    Network(TransportFailure),
    /// Authentication and authorization failures
    Authentication { message: String },
    /// Server-side errors with HTTP status codes
    Server { status: u16, message: String },
    /// JSON parsing and serialization errors
    Parsing(JsonFailure),
    /// Invalid server URL or malformed URLs
    InvalidUrl(String),
    /// API rate limiting errors
    RateLimit { message: String, retry_after: Option<u64> },
    /// Server is unavailable or unreachable
    ServerUnavailable { message: String },
    /// Invalid API response format
    InvalidResponse { message: String },
    /// Configuration errors
    Configuration(String),
    /// Generic API errors with optional error codes
    Api { message: String, code: Option<String> },
}

impl CrabfinError {
    /// How this error is described.
    pub open spec fn text(&self) -> Seq<char> {
        match self {
            CrabfinError::Network(e) => "Network error: "@ + e.message@,
            CrabfinError::Authentication { message } => "Authentication failed: "@ + message@,
            CrabfinError::Server { status, message } =>
                "Server error: "@ + decimal(*status as nat) + " - "@ + message@,
            CrabfinError::Parsing(e) => "Parsing error: "@ + e.message@,
            CrabfinError::InvalidUrl(url) => "Invalid server URL: "@ + url@,
            CrabfinError::RateLimit { message, .. } => "Rate limited: "@ + message@,
            CrabfinError::ServerUnavailable { message } => "Server unavailable: "@ + message@,
            CrabfinError::InvalidResponse { message } => "Invalid response format: "@ + message@,
            CrabfinError::Configuration(message) => "Configuration error: "@ + message@,
            CrabfinError::Api { message, .. } => "API error: "@ + message@,
        }
    }

    /// The description of this error.
    pub fn to_string(&self) -> (s: String)
        ensures
            s@ == self.text(),
    {
        match self {
            CrabfinError::Network(e) => concat("Network error: ", e.message.as_str()),
            CrabfinError::Authentication { message } => concat("Authentication failed: ", message.as_str()),
            CrabfinError::Server { status, message } => {
                let code = u64_text(*status as u64);
                let mut s = concat3("Server error: ", code.as_str(), " - ");
                s.append(message.as_str());
                s
            },
            CrabfinError::Parsing(e) => concat("Parsing error: ", e.message.as_str()),
            CrabfinError::InvalidUrl(url) => concat("Invalid server URL: ", url.as_str()),
            CrabfinError::RateLimit { message, .. } => concat("Rate limited: ", message.as_str()),
            CrabfinError::ServerUnavailable { message } => concat("Server unavailable: ", message.as_str()),
            CrabfinError::InvalidResponse { message } => concat("Invalid response format: ", message.as_str()),
            CrabfinError::Configuration(message) => concat("Configuration error: ", message.as_str()),
            CrabfinError::Api { message, .. } => concat("API error: ", message.as_str()),
        }
    }

    /// An authentication error with the given message.
    pub fn authentication(message: &str) -> (e: CrabfinError)
        ensures
            e matches CrabfinError::Authentication { message: m } && m@ == message@,
    {
        CrabfinError::Authentication { message: String::from_str(message) }
    }

    /// A server error with the given status and message.
    pub fn server(status: u16, message: String) -> (e: CrabfinError)
        ensures
            e == (CrabfinError::Server { status, message }),
    {
        CrabfinError::Server { status, message }
    }

    /// A rate-limit error with the given message and suggested wait in seconds.
    pub fn rate_limit(message: &str, retry_after: Option<u64>) -> (e: CrabfinError)
        ensures
            e matches CrabfinError::RateLimit { message: m, retry_after: r } && m@ == message@ && r == retry_after,
    {
        CrabfinError::RateLimit { message: String::from_str(message), retry_after }
    }

    /// A server-unavailable error with the given message.
    pub fn server_unavailable(message: &str) -> (e: CrabfinError)
        ensures
            e matches CrabfinError::ServerUnavailable { message: m } && m@ == message@,
    {
        CrabfinError::ServerUnavailable { message: String::from_str(message) }
    }

    /// An invalid-response error with the given message.
    pub fn invalid_response(message: &str) -> (e: CrabfinError)
        ensures
            e matches CrabfinError::InvalidResponse { message: m } && m@ == message@,
    {
        CrabfinError::InvalidResponse { message: String::from_str(message) }
    }

    /// A configuration error with the given message.
    pub fn configuration(message: &str) -> (e: CrabfinError)
        ensures
            e matches CrabfinError::Configuration(m) && m@ == message@,
    {
        CrabfinError::Configuration(String::from_str(message))
    }

    /// A generic API error with the given message and optional code.
    pub fn api(message: &str, code: Option<String>) -> (e: CrabfinError)
        ensures
            e matches CrabfinError::Api { message: m, code: c } && m@ == message@ && c == code,
    {
        CrabfinError::Api { message: String::from_str(message), code }
    }

    /// Whether the operation that failed with this error can be retried.
    pub open spec fn retryable(&self) -> bool {
        match self {
            CrabfinError::Network(e) => e.is_timeout || e.is_connect,
            CrabfinError::Server { status, .. } => *status >= 500,
            CrabfinError::RateLimit { .. } => true,
            CrabfinError::ServerUnavailable { .. } => true,
            _ => false,
        }
    }

    /// Whether the operation that failed with this error can be retried: timeouts and
    /// connection failures, 5xx server errors, rate limiting and unavailable servers.
    pub fn is_retryable(&self) -> (r: bool)
        ensures
            r == self.retryable(),
    {
        match self {
            CrabfinError::Network(e) => {
                if e.is_timeout {
                    return true;
                }
                if e.is_connect {
                    return true;
                }
                false
            },
            CrabfinError::Server { status, .. } => *status >= 500,
            CrabfinError::RateLimit { .. } => true,
            CrabfinError::ServerUnavailable { .. } => true,
            _ => false,
        }
    }

    /// The recommended wait, in seconds, before retrying.
    pub open spec fn delay(&self) -> Option<u64> {
        match self {
            CrabfinError::RateLimit { retry_after, .. } => *retry_after,
            CrabfinError::Network(_) => Some(1),
            CrabfinError::Server { status, .. } => if *status >= 500 { Some(2) } else { None },
            CrabfinError::ServerUnavailable { .. } => Some(5),
            _ => None,
        }
    }

    /// The recommended wait, in seconds, before retrying: the server's own suggestion
    /// when rate limited, 1 for network errors, 2 for 5xx errors, 5 for unavailable servers.
    pub fn retry_delay(&self) -> (r: Option<u64>)
        ensures
            r == self.delay(),
    {
        match self {
            CrabfinError::RateLimit { retry_after, .. } => *retry_after,
            CrabfinError::Network(_) => Some(1),
            CrabfinError::Server { status, .. } => if *status >= 500 { Some(2) } else { None },
            CrabfinError::ServerUnavailable { .. } => Some(5),
            _ => None,
        }
    }

    /// Whether this is an authentication error.
    pub fn is_authentication_error(&self) -> (r: bool)
        ensures
            r == (self is Authentication),
    {
        match self {
            CrabfinError::Authentication { .. } => true,
            _ => false,
        }
    }

    /// Whether this is a network error.
    pub fn is_network_error(&self) -> (r: bool)
        ensures
            r == (self is Network),
    {
        match self {
            CrabfinError::Network(_) => true,
            _ => false,
        }
    }

    /// Whether this is a server error.
    pub fn is_server_error(&self) -> (r: bool)
        ensures
            r == (self is Server),
    {
        match self {
            CrabfinError::Server { .. } => true,
            _ => false,
        }
    }

    /// The HTTP status of a server error.
    pub fn status_code(&self) -> (r: Option<u16>)
        ensures
            r == match self {
                CrabfinError::Server { status, .. } => Some(*status),
                _ => None,
            },
    {
        match self {
            CrabfinError::Server { status, .. } => Some(*status),
            _ => None,
        }
    }
}

/// The error body that a server sends with a failed request, as far as the client reads it.
#[derive(Debug, Clone)]
pub struct ApiErrorResponse {
    /// Error message from the server
    pub message: Option<String>,
    /// Error code from the server
    pub error_code: Option<String>,
    /// The `RetryAfter` detail, when the server sent one as a non-negative integer
    pub retry_after: Option<u64>,
}

impl ApiErrorResponse {
    /// How this response is described: its message, or a generic text.
    pub open spec fn text(&self) -> Seq<char> {
        match self.message {
            Some(m) => m@,
            None => "Unknown API error"@,
        }
    }

    /// The description of this response.
    pub fn to_string(&self) -> (s: String)
        ensures
            s@ == self.text(),
    {
        match &self.message {
            Some(m) => m.clone(),
            None => String::from_str("Unknown API error"),
        }
    }
}

} // verus!
