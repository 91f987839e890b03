//! The application's error kinds, how each is described, and the message shown to the
//! user for each.
use vstd::prelude::*;
use crate::text::{concat, concat3, u64_text, decimal};

verus! {

/// Application-specific error types.
#[derive(Debug, Clone)]
pub enum AppError {
    /// Network-related errors (connection, timeout, server errors)
    Network(NetworkError),
    /// Authentication errors (invalid credentials, expired tokens)
    Authentication(AuthError),
    /// Data parsing errors (malformed responses)
    DataParsing(DataError),
    /// UI errors (component failures, state inconsistencies)
    UserInterface(UiError),
    /// Configuration errors (invalid settings, missing files)
    Configuration(ConfigError),
}

/// Network error variants.
#[derive(Debug, Clone)]
pub enum NetworkError {
    ConnectionFailed(String),
    Timeout(String),
    ServerError { status: u16, message: String },
    InvalidUrl(String),
    RequestFailed(String),
}

/// Authentication error variants.
#[derive(Debug, Clone)]
pub enum AuthError {
    InvalidCredentials,
    TokenExpired,
    TokenInvalid,
    ServerUnauthorized(String),
    UserNotFound,
    AuthenticationRequired,
}

/// Data parsing error variants.
#[derive(Debug, Clone)]
pub enum DataError {
    JsonParseError(String),
    MissingField(String),
    InvalidFormat(String),
    UnexpectedResponse(String),
}

/// UI error variants.
#[derive(Debug, Clone)]
pub enum UiError {
    ComponentInitializationFailed(String),
    StateInconsistency(String),
    RenderingError(String),
    WindowCreationFailed(String),
}

/// Configuration error variants.
#[derive(Debug, Clone)]
pub enum ConfigError {
    FileNotFound(String),
    InvalidFormat(String),
    PermissionDenied(String),
    WriteFailed(String),
}

impl NetworkError {
    /// How this error is described.
    pub open spec fn text(&self) -> Seq<char> {
        match self {
            NetworkError::ConnectionFailed(url) => "Failed to connect to server: "@ + url@,
            NetworkError::Timeout(url) => "Request timed out for: "@ + url@,
            NetworkError::ServerError { status, message } =>
                "Server error ("@ + decimal(*status as nat) + "): "@ + message@,
            NetworkError::InvalidUrl(url) => "Invalid URL: "@ + url@,
            NetworkError::RequestFailed(reason) => "Request failed: "@ + reason@,
        }
    }

    /// The description of this error.
    pub fn to_string(&self) -> (s: String)
        ensures
            s@ == self.text(),
    {
        match self {
            NetworkError::ConnectionFailed(url) => concat("Failed to connect to server: ", url.as_str()),
            NetworkError::Timeout(url) => concat("Request timed out for: ", url.as_str()),
            NetworkError::ServerError { status, message } => {
                let code = u64_text(*status as u64);
                let mut s = concat3("Server error (", code.as_str(), "): ");
                s.append(message.as_str());
                s
            },
            NetworkError::InvalidUrl(url) => concat("Invalid URL: ", url.as_str()),
            NetworkError::RequestFailed(reason) => concat("Request failed: ", reason.as_str()),
        }
    }
}

impl AuthError {
    /// How this error is described.
    pub open spec fn text(&self) -> Seq<char> {
        match self {
            AuthError::InvalidCredentials => "Invalid username or password"@,
            AuthError::TokenExpired => "Authentication token has expired. Please log in again"@,
            AuthError::TokenInvalid => "Authentication token is invalid"@,
            AuthError::ServerUnauthorized(server) => "Unauthorized access to server: "@ + server@,
            AuthError::UserNotFound => "User not found on the server"@,
            AuthError::AuthenticationRequired => "Authentication is required to access this resource"@,
        }
    }

    /// The description of this error.
    pub fn to_string(&self) -> (s: String)
        ensures
            s@ == self.text(),
    {
        match self {
            AuthError::InvalidCredentials => String::from_str("Invalid username or password"),
            AuthError::TokenExpired => String::from_str("Authentication token has expired. Please log in again"),
            AuthError::TokenInvalid => String::from_str("Authentication token is invalid"),
            AuthError::ServerUnauthorized(server) => concat("Unauthorized access to server: ", server.as_str()),
            AuthError::UserNotFound => String::from_str("User not found on the server"),
            AuthError::AuthenticationRequired => String::from_str("Authentication is required to access this resource"),
        }
    }
}

impl DataError {
    /// How this error is described.
    pub open spec fn text(&self) -> Seq<char> {
        match self {
            DataError::JsonParseError(details) => "Failed to parse JSON response: "@ + details@,
            DataError::MissingField(field) => "Required field '"@ + field@ + "' is missing from response"@,
            DataError::InvalidFormat(details) => "Data format is invalid: "@ + details@,
            DataError::UnexpectedResponse(details) => "Received unexpected response: "@ + details@,
        }
    }

    /// The description of this error.
    pub fn to_string(&self) -> (s: String)
        ensures
            s@ == self.text(),
    {
        match self {
            DataError::JsonParseError(details) => concat("Failed to parse JSON response: ", details.as_str()),
            DataError::MissingField(field) => concat3("Required field '", field.as_str(), "' is missing from response"),
            DataError::InvalidFormat(details) => concat("Data format is invalid: ", details.as_str()),
            DataError::UnexpectedResponse(details) => concat("Received unexpected response: ", details.as_str()),
        }
    }
}

impl UiError {
    /// How this error is described.
    pub open spec fn text(&self) -> Seq<char> {
        match self {
            UiError::ComponentInitializationFailed(component) => "Failed to initialize UI component: "@ + component@,
            UiError::StateInconsistency(details) => "UI state inconsistency detected: "@ + details@,
            UiError::RenderingError(details) => "UI rendering error: "@ + details@,
            UiError::WindowCreationFailed(details) => "Failed to create window: "@ + details@,
        }
    }

    /// The description of this error.
    pub fn to_string(&self) -> (s: String)
        ensures
            s@ == self.text(),
    {
        match self {
            UiError::ComponentInitializationFailed(component) => concat("Failed to initialize UI component: ", component.as_str()),
            UiError::StateInconsistency(details) => concat("UI state inconsistency detected: ", details.as_str()),
            UiError::RenderingError(details) => concat("UI rendering error: ", details.as_str()),
            UiError::WindowCreationFailed(details) => concat("Failed to create window: ", details.as_str()),
        }
    }
}

impl ConfigError {
    /// How this error is described.
    pub open spec fn text(&self) -> Seq<char> {
        match self {
            ConfigError::FileNotFound(path) => "Configuration file not found: "@ + path@,
            ConfigError::InvalidFormat(details) => "Invalid configuration format: "@ + details@,
            ConfigError::PermissionDenied(path) => "Permission denied accessing: "@ + path@,
            ConfigError::WriteFailed(path) => "Failed to write configuration file: "@ + path@,
        }
    }

    /// The description of this error.
    pub fn to_string(&self) -> (s: String)
        ensures
            s@ == self.text(),
    {
        match self {
            ConfigError::FileNotFound(path) => concat("Configuration file not found: ", path.as_str()),
            ConfigError::InvalidFormat(details) => concat("Invalid configuration format: ", details.as_str()),
            ConfigError::PermissionDenied(path) => concat("Permission denied accessing: ", path.as_str()),
            ConfigError::WriteFailed(path) => concat("Failed to write configuration file: ", path.as_str()),
        }
    }
}

impl AppError {
    /// How this error is described: its category, then the description of the inner error.
    pub open spec fn text(&self) -> Seq<char> {
        match self {
            AppError::Network(e) => "Network error: "@ + e.text(),
            AppError::Authentication(e) => "Authentication error: "@ + e.text(),
            AppError::DataParsing(e) => "Data parsing error: "@ + e.text(),
            AppError::UserInterface(e) => "UI error: "@ + e.text(),
            AppError::Configuration(e) => "Configuration error: "@ + e.text(),
        }
    }

    /// The description of this error.
    pub fn to_string(&self) -> (s: String)
        ensures
            s@ == self.text(),
    {
        match self {
            AppError::Network(e) => concat("Network error: ", e.to_string().as_str()),
            AppError::Authentication(e) => concat("Authentication error: ", e.to_string().as_str()),
            AppError::DataParsing(e) => concat("Data parsing error: ", e.to_string().as_str()),
            AppError::UserInterface(e) => concat("UI error: ", e.to_string().as_str()),
            AppError::Configuration(e) => concat("Configuration error: ", e.to_string().as_str()),
        }
    }
}

/// The message shown to the user for an application error.
pub open spec fn user_message(error: AppError) -> Seq<char> {
    match error {
        AppError::Network(NetworkError::ConnectionFailed(_)) =>
            "Unable to connect to the Jellyfin server. Please check your network connection and server URL."@,
        AppError::Network(NetworkError::Timeout(_)) =>
            "The request timed out. Please check your network connection and try again."@,
        AppError::Network(NetworkError::ServerError { status, .. }) =>
            if status == 404 {
                "The requested resource was not found on the server."@
            } else if 500 <= status <= 599 {
                "The server encountered an error. Please try again later."@
            } else {
                "The server returned an error. Please try again."@
            },
        AppError::Network(NetworkError::InvalidUrl(_)) =>
            "The server URL is invalid. Please check the URL format and try again."@,
        AppError::Network(NetworkError::RequestFailed(_)) =>
            "The network request failed. Please check your connection and try again."@,
        AppError::Authentication(AuthError::InvalidCredentials) =>
            "Invalid username or password. Please check your credentials and try again."@,
        AppError::Authentication(AuthError::TokenExpired) =>
            "Your session has expired. Please log in again."@,
        AppError::Authentication(_) =>
            "Authentication failed. Please check your credentials and try again."@,
        AppError::DataParsing(_) =>
            "Failed to process server response. The server may be incompatible or experiencing issues."@,
        AppError::UserInterface(_) =>
            "A user interface error occurred. Please restart the application."@,
        AppError::Configuration(_) =>
            "Configuration error. Please check your settings and try again."@,
    }
}

/// The message shown to the user when an error is not one of the application's own.
pub open spec fn fallback_message() -> Seq<char> {
    "An unexpected error occurred. Please try again."@
}

/// Error handling utilities.
pub struct ErrorHandler;

impl ErrorHandler {
    /// The user-friendly message for an application error.
    pub fn format_user_message(error: &AppError) -> (s: String)
        ensures
            s@ == user_message(*error),
    {
        match error {
            AppError::Network(NetworkError::ConnectionFailed(_)) => String::from_str(
                "Unable to connect to the Jellyfin server. Please check your network connection and server URL.",
            ),
            AppError::Network(NetworkError::Timeout(_)) => String::from_str(
                "The request timed out. Please check your network connection and try again.",
            ),
            AppError::Network(NetworkError::ServerError { status, .. }) => {
                if *status == 404 {
                    String::from_str("The requested resource was not found on the server.")
                } else if 500 <= *status && *status <= 599 {
                    String::from_str("The server encountered an error. Please try again later.")
                } else {
                    String::from_str("The server returned an error. Please try again.")
                }
            },
            AppError::Network(NetworkError::InvalidUrl(_)) => String::from_str(
                "The server URL is invalid. Please check the URL format and try again.",
            ),
            AppError::Network(NetworkError::RequestFailed(_)) => String::from_str(
                "The network request failed. Please check your connection and try again.",
            ),
            AppError::Authentication(AuthError::InvalidCredentials) => String::from_str(
                "Invalid username or password. Please check your credentials and try again.",
            ),
            AppError::Authentication(AuthError::TokenExpired) => String::from_str(
                "Your session has expired. Please log in again.",
            ),
            AppError::Authentication(_) => String::from_str(
                "Authentication failed. Please check your credentials and try again.",
            ),
            AppError::DataParsing(_) => String::from_str(
                "Failed to process server response. The server may be incompatible or experiencing issues.",
            ),
            AppError::UserInterface(_) => String::from_str(
                "A user interface error occurred. Please restart the application.",
            ),
            AppError::Configuration(_) => String::from_str(
                "Configuration error. Please check your settings and try again.",
            ),
        }
    }

    /// The message shown for an error: when the error is one of the application's own
    /// (`Some`), its user-friendly message, else the general fallback.
    pub fn handle_error(error: Option<&AppError>) -> (s: String)
        ensures
            s@ == match error {
                Some(e) => user_message(*e),
                None => fallback_message(),
            },
    {
        match error {
            Some(e) => Self::format_user_message(e),
            None => String::from_str("An unexpected error occurred. Please try again."),
        }
    }

    /// A network error with a description of what was being done.
    pub fn network_error(error: NetworkError, context: &str) -> (e: ContextError)
        ensures
            e.error == AppError::Network(error),
            e.context@ == context@,
    {
        ContextError { error: AppError::Network(error), context: context.to_string() }
    }

    /// An authentication error with a description of what was being done.
    pub fn auth_error(error: AuthError, context: &str) -> (e: ContextError)
        ensures
            e.error == AppError::Authentication(error),
            e.context@ == context@,
    {
        ContextError { error: AppError::Authentication(error), context: context.to_string() }
    }

    /// A data parsing error with a description of what was being done.
    pub fn data_error(error: DataError, context: &str) -> (e: ContextError)
        ensures
            e.error == AppError::DataParsing(error),
            e.context@ == context@,
    {
        ContextError { error: AppError::DataParsing(error), context: context.to_string() }
    }

    /// A user interface error with a description of what was being done.
    pub fn ui_error(error: UiError, context: &str) -> (e: ContextError)
        ensures
            e.error == AppError::UserInterface(error),
            e.context@ == context@,
    {
        ContextError { error: AppError::UserInterface(error), context: context.to_string() }
    }

    /// A configuration error with a description of what was being done.
    pub fn config_error(error: ConfigError, context: &str) -> (e: ContextError)
        ensures
            e.error == AppError::Configuration(error),
            e.context@ == context@,
    {
        ContextError { error: AppError::Configuration(error), context: context.to_string() }
    }
}

/// An application error together with a description of what was being done when it
/// happened.
#[derive(Debug, Clone)]
pub struct ContextError {
    pub error: AppError,
    pub context: String,
}

/// Errors that can be shown to a user as a message.
pub trait UserFriendlyError {
    /// The message shown to the user.
    fn user_message(&self) -> String;
}

impl UserFriendlyError for ContextError {
    fn user_message(&self) -> (s: String)
        ensures
            s@ == user_message(self.error),
    {
        ErrorHandler::handle_error(Some(&self.error))
    }
}

impl UserFriendlyError for AppError {
    fn user_message(&self) -> (s: String)
        ensures
            s@ == user_message(*self),
    {
        ErrorHandler::format_user_message(self)
    }
}

} // verus!
