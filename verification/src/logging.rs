//! How much to log.
use vstd::prelude::*;

verus! {

/// Logging verbosity level.
#[derive(Debug, Clone, Copy)]
pub enum LogLevel {
    Off,
    Error,
    Warn,
    Info,
    Debug,
    Trace,
}

impl LogLevel {
    /// The name of the level.
    pub open spec fn name(self) -> Seq<char> {
        match self {
            LogLevel::Off => "off"@,
            LogLevel::Error => "error"@,
            LogLevel::Warn => "warn"@,
            LogLevel::Info => "info"@,
            LogLevel::Debug => "debug"@,
            LogLevel::Trace => "trace"@,
        }
    }

    /// The name of the level.
    pub fn as_str(&self) -> (r: &'static str)
        ensures
            r@ == self.name(),
            self is Off ==> r@ == "off"@,
            self is Error ==> r@ == "error"@,
            self is Warn ==> r@ == "warn"@,
            self is Info ==> r@ == "info"@,
            self is Debug ==> r@ == "debug"@,
            self is Trace ==> r@ == "trace"@,
    {
        match self {
            LogLevel::Off => "off",
            LogLevel::Error => "error",
            LogLevel::Warn => "warn",
            LogLevel::Info => "info",
            LogLevel::Debug => "debug",
            LogLevel::Trace => "trace",
        }
    }
}

/// Where the filter for log messages comes from.
#[derive(Debug, Clone, Copy)]
pub enum LogFilter {
    /// It is this level.
    Level(LogLevel),
    /// It is what the environment variable `RUST_LOG` says.
    Environment,
}

/// The filter for log messages: a level that was asked for takes precedence over
/// `RUST_LOG`, and when that is not set either, logging is silent.
pub fn log_filter(log_level: Option<LogLevel>, rust_log_is_set: bool) -> (r: LogFilter)
    ensures
        r == match log_level {
            Some(level) => LogFilter::Level(level),
            None => if rust_log_is_set {
                LogFilter::Environment
            } else {
                LogFilter::Level(LogLevel::Off)
            },
        },
{
    match log_level {
        Some(level) => LogFilter::Level(level),
        None => if rust_log_is_set {
            LogFilter::Environment
        } else {
            LogFilter::Level(LogLevel::Off)
        },
    }
}

} // verus!
