//! What is logged and where: the choices that the set-up of logging makes.

use crate::text::join;
use vstd::prelude::*;

verus! {

/// The directory of the backend below the user's directory for local data.
pub const APP_DIR: &'static str = "Blindodon";

/// The directory of the log files below the directory of the backend.
pub const LOG_DIR: &'static str = "logs";

/// The first part of the name of each log file.
pub const FILE_PREFIX: &'static str = "blindodon";

/// How much is logged.
#[derive(Debug, Clone, Copy, PartialEq, Eq, Structural)]
pub enum LogLevel {
    Trace,
    Debug,
    Info,
    Warn,
    Error,
}

impl LogLevel {
    /// The name of the level in a filter.
    pub open spec fn filter_name(self) -> Seq<char> {
        match self {
            LogLevel::Trace => "TRACE"@,
            LogLevel::Debug => "DEBUG"@,
            LogLevel::Info => "INFO"@,
            LogLevel::Warn => "WARN"@,
            LogLevel::Error => "ERROR"@,
        }
    }

    /// The name of the level in a filter.
    pub fn name(&self) -> (r: &'static str)
        ensures
            r@ == self.filter_name(),
    {
        match self {
            LogLevel::Trace => "TRACE",
            LogLevel::Debug => "DEBUG",
            LogLevel::Info => "INFO",
            LogLevel::Warn => "WARN",
            LogLevel::Error => "ERROR",
        }
    }
}

impl Default for LogLevel {
    fn default() -> (r: Self)
        ensures
            r == LogLevel::Info,
    {
        LogLevel::Info
    }
}

/// Where log entries go.
#[derive(Debug, Clone, Copy, PartialEq, Eq, Structural)]
pub enum LogSinks {
    /// To the console and to a file.
    Both,
    Console,
    File,
    /// Nowhere: logging is not set up.
    Neither,
}

/// Where log entries go, given whether the console and whether a file is
/// wanted.
pub fn plan_sinks(console_output: bool, file_output: bool) -> (r: LogSinks)
    ensures
        r == if console_output && file_output {
            LogSinks::Both
        } else if console_output {
            LogSinks::Console
        } else if file_output {
            LogSinks::File
        } else {
            LogSinks::Neither
        },
{
    if console_output && file_output {
        LogSinks::Both
    } else if console_output {
        LogSinks::Console
    } else if file_output {
        LogSinks::File
    } else {
        LogSinks::Neither
    }
}

/// The filter directive that lets the entries of `target` pass from `level`
/// on.
pub fn directive(target: &str, level: LogLevel) -> (r: String)
    ensures
        r@ == target@ + "="@ + level.filter_name(),
{
    let mut r = join(target, "=");
    r.append(level.name());
    r
}

} // verus!
