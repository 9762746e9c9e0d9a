//! How log lines look and which logger a process starts.

use vstd::prelude::*;

use crate::text::str_eq;

verus! {

/// Severity of a log line.
#[derive(Debug, Clone, Copy, PartialEq, Eq, Structural)]
pub enum Level {
    Trace,
    Debug,
    Info,
    Warn,
    Error,
}

/// The style of human-readable log lines.
#[derive(Debug, Clone, Copy, PartialEq, Eq, Structural)]
pub struct LogStyle;

/// The three letters that stand for a level.
pub open spec fn level_token_text(level: Level) -> Seq<char> {
    match level {
        Level::Trace => "TRC"@,
        Level::Debug => "DBG"@,
        Level::Info => "INF"@,
        Level::Warn => "WRN"@,
        Level::Error => "ERR"@,
    }
}

impl LogStyle {
    /// The three letters that stand for `level`.
    pub fn level_token(&self, level: &Level) -> (token: &'static str)
        ensures
            token@ == level_token_text(*level),
    {
        match level {
            Level::Trace => "TRC",
            Level::Debug => "DBG",
            Level::Info => "INF",
            Level::Warn => "WRN",
            Level::Error => "ERR",
        }
    }

    /// What opens the first line of a message.
    pub fn first_line_separator(&self) -> (separator: String)
        ensures
            separator@ == "\u{256d} "@,
    {
        "\u{256d} ".to_owned()
    }

    /// What stands between two lines of a message.
    pub fn line_separator(&self) -> (separator: String)
        ensures
            separator@ == "\n\u{2502}     "@,
    {
        "\n\u{2502}     ".to_owned()
    }

    /// What stands before the last line of a message.
    pub fn final_line_separator(&self) -> (separator: String)
        ensures
            separator@ == "\n\u{2570}     "@,
    {
        "\n\u{2570}     ".to_owned()
    }
}

/// The level that the value of the log level variable names; `Info` where
/// the variable is unset or names no level.
pub open spec fn level_named(value: Option<Seq<char>>) -> Level {
    match value {
        Some(name) => if name == "trace"@ {
            Level::Trace
        } else if name == "debug"@ {
            Level::Debug
        } else if name == "info"@ {
            Level::Info
        } else if name == "warn"@ {
            Level::Warn
        } else if name == "error"@ {
            Level::Error
        } else {
            Level::Info
        },
        None => Level::Info,
    }
}

/// The level that the value of the log level variable names; `Info` where
/// the variable is unset or names no level.
pub fn tracing_level_from_env(value: Option<&str>) -> (level: Level)
    ensures
        level == level_named(
            match value {
                Some(name) => Some(name@),
                None => None,
            },
        ),
{
    match value {
        Some(name) => {
            if str_eq(name, "trace") {
                Level::Trace
            } else if str_eq(name, "debug") {
                Level::Debug
            } else if str_eq(name, "info") {
                Level::Info
            } else if str_eq(name, "warn") {
                Level::Warn
            } else if str_eq(name, "error") {
                Level::Error
            } else {
                Level::Info
            }
        },
        None => Level::Info,
    }
}

/// Which logger a process starts.
#[derive(Debug, Clone, Copy, PartialEq, Eq, Structural)]
pub enum LogDetail {
    /// Human-readable lines.
    Human,
    /// Detailed lines with time and line number.
    Detailed,
    /// One JSON object for each line.
    Json,
}

/// What the value of the log detail variable asks for.
#[derive(Debug, Clone, Copy, PartialEq, Eq, Structural)]
pub struct LogChoice {
    pub detail: LogDetail,
    /// Whether the value named no logger, so that the default was taken.
    pub invalid: bool,
}

/// The logger that the value of the log detail variable names: `0` or
/// `human`, `1` or `detailed`, `2` or `json`. An unset variable counts as
/// `0`; any other value is invalid and gives the human-readable logger.
pub open spec fn log_choice(value: Option<Seq<char>>) -> LogChoice {
    let name = match value {
        Some(name) => name,
        None => "0"@,
    };
    if name == "0"@ || name == "human"@ {
        LogChoice { detail: LogDetail::Human, invalid: false }
    } else if name == "1"@ || name == "detailed"@ {
        LogChoice { detail: LogDetail::Detailed, invalid: false }
    } else if name == "2"@ || name == "json"@ {
        LogChoice { detail: LogDetail::Json, invalid: false }
    } else {
        LogChoice { detail: LogDetail::Human, invalid: true }
    }
}

/// The logger that the value of the log detail variable names.
pub fn init_from_env(value: Option<&str>) -> (choice: LogChoice)
    ensures
        choice == log_choice(
            match value {
                Some(name) => Some(name@),
                None => None,
            },
        ),
{
    let name = match value {
        Some(name) => name,
        None => "0",
    };
    if str_eq(name, "0") || str_eq(name, "human") {
        LogChoice { detail: LogDetail::Human, invalid: false }
    } else if str_eq(name, "1") || str_eq(name, "detailed") {
        LogChoice { detail: LogDetail::Detailed, invalid: false }
    } else if str_eq(name, "2") || str_eq(name, "json") {
        LogChoice { detail: LogDetail::Json, invalid: false }
    } else {
        LogChoice { detail: LogDetail::Human, invalid: true }
    }
}

} // verus!
