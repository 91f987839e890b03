//! Turning failed responses into errors, and deciding how errors are logged.
use vstd::prelude::*;
use super::{ApiErrorResponse, CrabfinError};
use crate::text::{concat, concat3};

verus! {

/// `e` is the error for a failed response with status `status` and message `message`:
/// 401 is an authentication failure, 429 rate limiting (with `retry_after`), 5xx an
/// unavailable server, and any other status a plain server error.
pub open spec fn is_error_for_status(status: u16, message: Seq<char>, retry_after: Option<u64>, e: CrabfinError) -> bool {
    if status == 401 {
        e matches CrabfinError::Authentication { message: m } && m@ == message
    } else if status == 429 {
        e matches CrabfinError::RateLimit { message: m, retry_after: r } && m@ == message && r == retry_after
    } else if 500 <= status <= 599 {
        e matches CrabfinError::ServerUnavailable { message: m } && m@ == message
    } else {
        e matches CrabfinError::Server { status: s, message: m } && s == status && m@ == message
    }
}

fn error_for_status(status: u16, message: String, retry_after: Option<u64>) -> (e: CrabfinError)
    ensures
        is_error_for_status(status, message@, retry_after, e),
{
    if status == 401 {
        CrabfinError::Authentication { message }
    } else if status == 429 {
        CrabfinError::RateLimit { message, retry_after }
    } else if 500 <= status && status <= 599 {
        CrabfinError::ServerUnavailable { message }
    } else {
        CrabfinError::Server { status, message }
    }
}

/// The error for a failed HTTP response.
///
/// `status_text` is how the status is written (code and reason phrase), `body` the
/// response text when it could be read, and `parsed` the body read as the server's
/// error format when it is in that format.
pub fn response_to_error(
    status: u16,
    status_text: &str,
    body: Option<String>,
    parsed: Option<ApiErrorResponse>,
) -> (e: CrabfinError)
    ensures
        match body {
            None => e matches CrabfinError::Server { status: s, message: m }
                && s == status && m@ == "Failed to read error response"@,
            Some(text) => match parsed {
                Some(p) => is_error_for_status(status, p.text(), p.retry_after, e),
                None => is_error_for_status(
                    status,
                    if text@.len() == 0 { "HTTP "@ + status_text@ } else { text@ },
                    None,
                    e,
                ),
            },
        },
{
    match body {
        None => CrabfinError::Server { status, message: String::from_str("Failed to read error response") },
        Some(text) => match parsed {
            Some(p) => {
                let retry_after = p.retry_after;
                let message = p.to_string();
                error_for_status(status, message, retry_after)
            },
            None => {
                let message = if text.as_str().unicode_len() == 0 {
                    concat("HTTP ", status_text)
                } else {
                    text
                };
                error_for_status(status, message, None)
            },
        },
    }
}

/// How loudly an error is logged.
#[derive(Debug, Clone, Copy, PartialEq, Eq)]
pub enum LogSeverity {
    Warning,
    Error,
}

/// How an error met while doing `context` is logged: its severity and its line.
pub open spec fn log_line(error: CrabfinError, context: Seq<char>) -> (LogSeverity, Seq<char>) {
    let (severity, kind) = match error {
        CrabfinError::Network(n) => if n.is_timeout {
            (LogSeverity::Warning, ": Network timeout - "@)
        } else {
            (LogSeverity::Error, ": Network error - "@)
        },
        CrabfinError::Authentication { .. } => (LogSeverity::Warning, ": Authentication error - "@),
        CrabfinError::Server { status, .. } => if status >= 500 {
            (LogSeverity::Error, ": Server error - "@)
        } else {
            (LogSeverity::Warning, ": Client error - "@)
        },
        CrabfinError::RateLimit { .. } => (LogSeverity::Warning, ": Rate limited - "@),
        _ => (LogSeverity::Error, ": Error - "@),
    };
    (severity, context + kind + error.text())
}

/// The severity and line with which an error met while doing `context` is logged.
pub fn log_error(error: &CrabfinError, context: &str) -> (r: (LogSeverity, String))
    ensures
        (r.0, r.1@) == log_line(*error, context@),
{
    let (severity, kind) = match error {
        CrabfinError::Network(n) => if n.is_timeout {
            (LogSeverity::Warning, ": Network timeout - ")
        } else {
            (LogSeverity::Error, ": Network error - ")
        },
        CrabfinError::Authentication { .. } => (LogSeverity::Warning, ": Authentication error - "),
        CrabfinError::Server { status, .. } => if *status >= 500 {
            (LogSeverity::Error, ": Server error - ")
        } else {
            (LogSeverity::Warning, ": Client error - ")
        },
        CrabfinError::RateLimit { .. } => (LogSeverity::Warning, ": Rate limited - "),
        _ => (LogSeverity::Error, ": Error - "),
    };
    let described = error.to_string();
    (severity, concat3(context, kind, described.as_str()))
}

/// Whether an error shows that the server cannot be reached.
pub open spec fn unreachable(error: CrabfinError) -> bool {
    match error {
        CrabfinError::Network(n) => n.is_connect || n.is_timeout,
        CrabfinError::ServerUnavailable { .. } => true,
        CrabfinError::Server { status, .. } => status >= 500,
        _ => false,
    }
}

/// Whether an error shows that the server cannot be reached: a connection failure or
/// timeout, an unavailable server, or a 5xx server error.
pub fn is_server_unreachable(error: &CrabfinError) -> (r: bool)
    ensures
        r == unreachable(*error),
{
    match error {
        CrabfinError::Network(n) => n.is_connect || n.is_timeout,
        CrabfinError::ServerUnavailable { .. } => true,
        CrabfinError::Server { status, .. } => *status >= 500,
        _ => false,
    }
}

/// The message of an authentication failure: that of an authentication error, or of a
/// server error with status 401.
pub fn extract_auth_error_details(error: &CrabfinError) -> (r: Option<String>)
    ensures
        match error {
            CrabfinError::Authentication { message } => r == Some(*message),
            CrabfinError::Server { status, message } => if *status == 401 { r == Some(*message) } else { r is None },
            _ => r is None,
        },
{
    match error {
        CrabfinError::Authentication { message } => Some(message.clone()),
        CrabfinError::Server { status, message } => if *status == 401 { Some(message.clone()) } else { None },
        _ => None,
    }
}

/// An error that shows the server cannot be reached is always worth retrying.
pub proof fn law_unreachable_is_retryable(error: CrabfinError)
    requires
        unreachable(error),
    ensures
        error.retryable(),
{
}

/// A retryable error always comes with a recommended wait, except rate limiting for
/// which the server suggested none.
pub proof fn law_retryable_has_delay(error: CrabfinError)
    requires
        error.retryable(),
        !(error matches CrabfinError::RateLimit { retry_after: None, .. }),
    ensures
        error.delay() is Some,
{
}

/// The error made for a failed response is retryable exactly when the status is 429 or
/// at least 500.
pub proof fn law_response_error_retryable(status: u16, message: Seq<char>, retry_after: Option<u64>, e: CrabfinError)
    requires
        is_error_for_status(status, message, retry_after, e),
    ensures
        e.retryable() == (status == 429 || status >= 500),
{
}

/// Of the errors made for failed responses, only a 401 gives an authentication error; a
/// 429 is rate limiting and a 5xx an unavailable server; every other status gives a server
/// error carrying that same status. The message is kept whatever the status.
pub proof fn law_response_error_kind(status: u16, message: Seq<char>, retry_after: Option<u64>, e: CrabfinError)
    requires
        is_error_for_status(status, message, retry_after, e),
    ensures
        (e is Authentication) <==> status == 401,
        (e is RateLimit) <==> status == 429,
        (e is ServerUnavailable) <==> (500 <= status && status <= 599),
        status != 401 && status != 429 && !(500 <= status && status <= 599) ==>
            (e matches CrabfinError::Server { status: s, message: m } && s == status && m@ == message),
        e is Authentication || e is RateLimit || e is ServerUnavailable || e is Server,
{
}

} // verus!
