//! Logging levels and configuration.
use vstd::prelude::*;

verus! {

/// Log level configuration.
#[derive(Debug, Clone, Copy, PartialEq, Eq)]
pub enum LogLevel {
    /// Trace level (most verbose)
    Trace,
    /// Debug level
    Debug,
    /// Info level
    Info,
    /// Warn level
    Warn,
    /// Error level (least verbose)
    Error,
}

impl LogLevel {
    /// How the level is written in a log filter.
    pub open spec fn text(self) -> Seq<char> {
        match self {
            LogLevel::Trace => "trace"@,
            LogLevel::Debug => "debug"@,
            LogLevel::Info => "info"@,
            LogLevel::Warn => "warn"@,
            LogLevel::Error => "error"@,
        }
    }

    /// How the level is written in a log filter.
    pub fn to_string(self) -> (s: String)
        ensures
            s@ == self.text(),
    {
        match self {
            LogLevel::Trace => String::from_str("trace"),
            LogLevel::Debug => String::from_str("debug"),
            LogLevel::Info => String::from_str("info"),
            LogLevel::Warn => String::from_str("warn"),
            LogLevel::Error => String::from_str("error"),
        }
    }

    /// The log filter that enables this level for the application's own messages.
    pub fn filter_directive(self) -> (s: String)
        ensures
            s@ == "crabfin="@ + self.text(),
    {
        crate::text::concat("crabfin=", self.to_string().as_str())
    }
}

/// Logging configuration.
#[derive(Debug, Clone, Copy)]
pub struct LoggingConfig {
    /// Log level
    pub level: LogLevel,
    /// Whether to enable colored output
    pub colored: bool,
    /// Whether to include file and line information
    pub include_location: bool,
    /// Whether to include thread information
    pub include_thread: bool,
    /// Whether to use JSON format
    pub json_format: bool,
}

impl Default for LoggingConfig {
    fn default() -> (c: Self)
        ensures
            c == (LoggingConfig {
                level: LogLevel::Info,
                colored: true,
                include_location: true,
                include_thread: false,
                json_format: false,
            }),
    {
        LoggingConfig {
            level: LogLevel::Info,
            colored: true,
            include_location: true,
            include_thread: false,
            json_format: false,
        }
    }
}

} // verus!
