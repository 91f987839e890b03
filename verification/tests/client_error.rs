use crabfin::client::error::utils::{extract_auth_error_details, is_server_unreachable, response_to_error};
use crabfin::client::error::{ApiErrorResponse, CrabfinError, JsonFailure, TransportFailure};

#[test]
fn test_error_retryability() {
    let network_error = CrabfinError::server_unavailable("Connection timeout");
    assert!(network_error.is_retryable());

    let server_error = CrabfinError::server(500, "Internal server error".to_string());
    assert!(server_error.is_retryable());

    let client_error = CrabfinError::server(400, "Bad request".to_string());
    assert!(!client_error.is_retryable());

    let auth_error = CrabfinError::authentication("Invalid credentials");
    assert!(!auth_error.is_retryable());

    let rate_limit_error = CrabfinError::rate_limit("Too many requests", Some(60));
    assert!(rate_limit_error.is_retryable());
}

#[test]
fn test_retry_delay() {
    let rate_limit_error = CrabfinError::rate_limit("Too many requests", Some(60));
    assert_eq!(rate_limit_error.retry_delay(), Some(60));

    let server_error = CrabfinError::server(500, "Internal server error".to_string());
    assert_eq!(server_error.retry_delay(), Some(2));

    let auth_error = CrabfinError::authentication("Invalid credentials");
    assert_eq!(auth_error.retry_delay(), None);
}

#[test]
fn test_error_type_checks() {
    let auth_error = CrabfinError::authentication("Invalid credentials");
    assert!(auth_error.is_authentication_error());
    assert!(!auth_error.is_network_error());
    assert!(!auth_error.is_server_error());

    let server_error = CrabfinError::server(500, "Internal server error".to_string());
    assert!(!server_error.is_authentication_error());
    assert!(!server_error.is_network_error());
    assert!(server_error.is_server_error());
    assert_eq!(server_error.status_code(), Some(500));
}

#[test]
fn network_failures_are_retryable_and_unreachable() {
    let timeout = CrabfinError::Network(TransportFailure {
        message: "operation timed out".to_string(),
        is_timeout: true,
        is_connect: false,
    });
    assert!(timeout.is_retryable());
    assert!(timeout.is_network_error());
    assert!(is_server_unreachable(&timeout));
    assert_eq!(timeout.status_code(), None);
}

#[test]
fn error_texts() {
    assert_eq!(
        CrabfinError::server(503, "down".to_string()).to_string(),
        "Server error: 503 - down"
    );
    assert_eq!(
        CrabfinError::authentication("Invalid credentials").to_string(),
        "Authentication failed: Invalid credentials"
    );
    let parsing = CrabfinError::Parsing(JsonFailure { message: "expected value".to_string() });
    assert!(!parsing.is_retryable());
    assert_eq!(parsing.retry_delay(), None);
}

#[test]
fn rate_limit_without_retry_after_has_no_delay() {
    let e = CrabfinError::rate_limit("slow down", None);
    assert!(e.is_retryable());
    assert_eq!(e.retry_delay(), None);
    assert_eq!(CrabfinError::server_unavailable("x").retry_delay(), Some(5));
}

#[test]
fn response_status_decides_error() {
    let unread = response_to_error(500, "500 Internal Server Error", None, None);
    assert_eq!(unread.status_code(), Some(500));
    assert_eq!(unread.to_string(), "Server error: 500 - Failed to read error response");
    let not_found = response_to_error(404, "404 Not Found", Some("gone".to_string()), None);
    assert!(!not_found.is_retryable());
    let busy = response_to_error(429, "429 Too Many Requests", Some("slow".to_string()), None);
    assert!(busy.is_retryable());
    let broken = response_to_error(502, "502 Bad Gateway", Some("oops".to_string()), None);
    assert!(broken.is_retryable());
    assert!(is_server_unreachable(&broken));
    let unauthorized = response_to_error(
        401,
        "401 Unauthorized",
        Some("{}".to_string()),
        Some(ApiErrorResponse { message: Some("bad token".to_string()), error_code: None, retry_after: None }),
    );
    assert!(unauthorized.is_authentication_error());
    assert!(!unauthorized.is_retryable());
    assert_eq!(extract_auth_error_details(&unauthorized), Some("bad token".to_string()));
}
