//! The application's general error type: what went wrong, what the user is told, and
//! whether the application can carry on.
use vstd::prelude::*;
use crate::text::{concat, concat3};

verus! {

/// Application-level errors. (Errors of the file system, of JSON and of HTTP are held as
/// the text those errors display.)
#[derive(Debug, Clone)]
pub enum AppError {
    InitializationError(String),
    ConfigurationError(String),
    NetworkError(String),
    AuthenticationError(String),
    UiError(String),
    ServiceError(String),
    IoError(String),
    JsonError(String),
    HttpError(String),
    Generic(String),
}

/// The message the user is shown for an error.
pub open spec fn user_message_text(e: AppError) -> Seq<char> {
    match e {
        AppError::InitializationError(_) => "Failed to initialize the application. Please try restarting."@,
        AppError::ConfigurationError(_) => "Configuration error. Please check your settings."@,
        AppError::NetworkError(_) => "Network connection error. Please check your internet connection."@,
        AppError::AuthenticationError(_) => "Authentication failed. Please check your credentials."@,
        AppError::UiError(_) => "Interface error occurred. Please try again."@,
        AppError::ServiceError(_) => "Service error occurred. Please try again."@,
        AppError::IoError(_) => "File system error occurred. Please check file permissions."@,
        AppError::JsonError(_) => "Data format error occurred. Please try again."@,
        AppError::HttpError(_) => "Network request failed. Please check your connection."@,
        AppError::Generic(msg) => msg@,
    }
}

impl AppError {
    /// The text of the error.
    pub open spec fn text(&self) -> Seq<char> {
        match self {
            AppError::InitializationError(m) => "Initialization error: "@ + m@,
            AppError::ConfigurationError(m) => "Configuration error: "@ + m@,
            AppError::NetworkError(m) => "Network error: "@ + m@,
            AppError::AuthenticationError(m) => "Authentication error: "@ + m@,
            AppError::UiError(m) => "UI error: "@ + m@,
            AppError::ServiceError(m) => "Service error: "@ + m@,
            AppError::IoError(m) => "IO error: "@ + m@,
            AppError::JsonError(m) => "JSON error: "@ + m@,
            AppError::HttpError(m) => "HTTP error: "@ + m@,
            AppError::Generic(m) => "Generic error: "@ + m@,
        }
    }

    /// The text of the error.
    pub fn to_string(&self) -> (s: String)
        ensures
            s@ == self.text(),
    {
        match self {
            AppError::InitializationError(m) => concat("Initialization error: ", m.as_str()),
            AppError::ConfigurationError(m) => concat("Configuration error: ", m.as_str()),
            AppError::NetworkError(m) => concat("Network error: ", m.as_str()),
            AppError::AuthenticationError(m) => concat("Authentication error: ", m.as_str()),
            AppError::UiError(m) => concat("UI error: ", m.as_str()),
            AppError::ServiceError(m) => concat("Service error: ", m.as_str()),
            AppError::IoError(m) => concat("IO error: ", m.as_str()),
            AppError::JsonError(m) => concat("JSON error: ", m.as_str()),
            AppError::HttpError(m) => concat("HTTP error: ", m.as_str()),
            AppError::Generic(m) => concat("Generic error: ", m.as_str()),
        }
    }

    /// An initialization error.
    pub fn initialization(msg: String) -> (e: AppError)
        ensures
            e == AppError::InitializationError(msg),
    {
        AppError::InitializationError(msg)
    }

    /// A configuration error.
    pub fn configuration(msg: String) -> (e: AppError)
        ensures
            e == AppError::ConfigurationError(msg),
    {
        AppError::ConfigurationError(msg)
    }

    /// A network error.
    pub fn network(msg: String) -> (e: AppError)
        ensures
            e == AppError::NetworkError(msg),
    {
        AppError::NetworkError(msg)
    }

    /// An authentication error.
    pub fn authentication(msg: String) -> (e: AppError)
        ensures
            e == AppError::AuthenticationError(msg),
    {
        AppError::AuthenticationError(msg)
    }

    /// A user interface error.
    pub fn ui(msg: String) -> (e: AppError)
        ensures
            e == AppError::UiError(msg),
    {
        AppError::UiError(msg)
    }

    /// A service error.
    pub fn service(msg: String) -> (e: AppError)
        ensures
            e == AppError::ServiceError(msg),
    {
        AppError::ServiceError(msg)
    }

    /// A generic error.
    pub fn generic(msg: String) -> (e: AppError)
        ensures
            e == AppError::Generic(msg),
    {
        AppError::Generic(msg)
    }

    /// The message the user is shown.
    pub fn user_message(&self) -> (s: String)
        ensures
            s@ == user_message_text(*self),
    {
        match self {
            AppError::InitializationError(_) => String::from_str(
                "Failed to initialize the application. Please try restarting.",
            ),
            AppError::ConfigurationError(_) => String::from_str("Configuration error. Please check your settings."),
            AppError::NetworkError(_) => String::from_str(
                "Network connection error. Please check your internet connection.",
            ),
            AppError::AuthenticationError(_) => String::from_str(
                "Authentication failed. Please check your credentials.",
            ),
            AppError::UiError(_) => String::from_str("Interface error occurred. Please try again."),
            AppError::ServiceError(_) => String::from_str("Service error occurred. Please try again."),
            AppError::IoError(_) => String::from_str("File system error occurred. Please check file permissions."),
            AppError::JsonError(_) => String::from_str("Data format error occurred. Please try again."),
            AppError::HttpError(_) => String::from_str("Network request failed. Please check your connection."),
            AppError::Generic(msg) => msg.clone(),
        }
    }

    /// Whether the application can carry on after the error: after any error but a
    /// failure to initialize.
    pub fn is_recoverable(&self) -> (b: bool)
        ensures
            b == !(*self is InitializationError),
    {
        match self {
            AppError::InitializationError(_) => false,
            _ => true,
        }
    }
}

/// Adding a description of what was being done to the error of a result.
pub trait ErrorContext<T>: Sized {
    /// The result, its error (if any) replaced by a generic error that reads
    /// `context: error`, the context coming from `f`.
    fn with_context<F: FnOnce() -> String>(self, f: F) -> Result<T, AppError>
        requires
            f.requires(()),
    ;

    /// The result, its error (if any) replaced by a generic error that reads
    /// `msg: error`.
    fn context(self, msg: &'static str) -> Result<T, AppError>;
}

impl<T> ErrorContext<T> for Result<T, AppError> {
    fn with_context<F: FnOnce() -> String>(self, f: F) -> (r: Result<T, AppError>)
        ensures
            match self {
                Ok(v) => r == Ok::<T, AppError>(v),
                Err(e) => r matches Err(AppError::Generic(m)) && exists|c: String|
                    f.ensures((), c) && m@ == c@ + ": "@ + e.text(),
            },
    {
        match self {
            Ok(v) => Ok(v),
            Err(e) => {
                let context = f();
                let inner = e.to_string();
                Err(AppError::Generic(concat3(context.as_str(), ": ", inner.as_str())))
            },
        }
    }

    fn context(self, msg: &'static str) -> (r: Result<T, AppError>)
        ensures
            match self {
                Ok(v) => r == Ok::<T, AppError>(v),
                Err(e) => r matches Err(AppError::Generic(m)) && m@ == msg@ + ": "@ + e.text(),
            },
    {
        match self {
            Ok(v) => Ok(v),
            Err(e) => {
                let inner = e.to_string();
                Err(AppError::Generic(concat3(msg, ": ", inner.as_str())))
            },
        }
    }
}

/// The message the user is shown for an error.
pub fn handle_error(error: &AppError) -> (s: String)
    ensures
        s@ == user_message_text(*error),
{
    error.user_message()
}

} // verus!
