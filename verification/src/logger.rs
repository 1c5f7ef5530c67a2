//! The daemon's own logger: parsing the configured verbosity, choosing
//! the output sink, deciding which records pass the filter, and
//! rendering each record. Writing to the sink is the caller's work.

use vstd::prelude::*;

use crate::text::{seq_ieq, str_eq, str_eq_ignore_ascii_case, trim_end_spec};

verus! {

/// Verbosity of a log record, least verbose first.
#[derive(Clone, Copy, PartialEq, Eq, Structural, Debug)]
pub enum LogLevel {
    Error,
    Warn,
    Info,
    Debug,
    Trace,
}

/// The numeric rank of a level: a record passes a filter level when its
/// rank is no greater.
pub open spec fn severity_spec(level: LogLevel) -> int {
    match level {
        LogLevel::Error => 1,
        LogLevel::Warn => 2,
        LogLevel::Info => 3,
        LogLevel::Debug => 4,
        LogLevel::Trace => 5,
    }
}

/// The name a level is rendered under.
pub open spec fn level_label(level: LogLevel) -> Seq<char> {
    match level {
        LogLevel::Error => "error"@,
        LogLevel::Warn => "warn"@,
        LogLevel::Info => "info"@,
        LogLevel::Debug => "debug"@,
        LogLevel::Trace => "trace"@,
    }
}

/// Render a level's name.
pub fn level_to_string(level: &LogLevel) -> (r: String)
    ensures
        r@ == level_label(*level),
{
    match level {
        LogLevel::Error => String::from_str("error"),
        LogLevel::Warn => String::from_str("warn"),
        LogLevel::Info => String::from_str("info"),
        LogLevel::Debug => String::from_str("debug"),
        LogLevel::Trace => String::from_str("trace"),
    }
}

/// The level a configured verbosity string names, compared without
/// regard to ASCII case; an empty setting means the default. A string
/// naming no level is rejected.
pub open spec fn level_of_setting(s: Seq<char>) -> Option<LogLevel> {
    if seq_ieq(s, ""@) || seq_ieq(s, "warn"@) || seq_ieq(s, "warning"@) {
        Some(LogLevel::Warn)
    } else if seq_ieq(s, "error"@) {
        Some(LogLevel::Error)
    } else if seq_ieq(s, "info"@) {
        Some(LogLevel::Info)
    } else if seq_ieq(s, "debug"@) {
        Some(LogLevel::Debug)
    } else if seq_ieq(s, "trace"@) {
        Some(LogLevel::Trace)
    } else {
        None
    }
}

/// The filter the daemon logs through.
#[derive(Clone, Copy, Debug)]
pub struct Logger {
    pub level: LogLevel,
}

impl Logger {
    /// Parse the configured verbosity; reject a string naming no level,
    /// with a message quoting it.
    pub fn new(level: &str) -> (r: Result<Logger, String>)
        ensures
            (match r {
                Ok(l) => level_of_setting(level@) == Some(l.level),
                Err(m) => level_of_setting(level@) is None && m@ == "invalid log level: "@
                    + level@,
            }),
    {
        if str_eq_ignore_ascii_case(level, "") || str_eq_ignore_ascii_case(level, "warn")
            || str_eq_ignore_ascii_case(level, "warning") {
            Ok(Logger { level: LogLevel::Warn })
        } else if str_eq_ignore_ascii_case(level, "error") {
            Ok(Logger { level: LogLevel::Error })
        } else if str_eq_ignore_ascii_case(level, "info") {
            Ok(Logger { level: LogLevel::Info })
        } else if str_eq_ignore_ascii_case(level, "debug") {
            Ok(Logger { level: LogLevel::Debug })
        } else if str_eq_ignore_ascii_case(level, "trace") {
            Ok(Logger { level: LogLevel::Trace })
        } else {
            let mut m = String::from_str("invalid log level: ");
            m.append(level);
            Err(m)
        }
    }

    /// A record of this level passes the filter.
    pub fn enabled(&self, level: &LogLevel) -> (r: bool)
        ensures
            r == (severity_spec(*level) <= severity_spec(self.level)),
    {
        let record = match level {
            LogLevel::Error => 1u8,
            LogLevel::Warn => 2u8,
            LogLevel::Info => 3u8,
            LogLevel::Debug => 4u8,
            LogLevel::Trace => 5u8,
        };
        let filter = match self.level {
            LogLevel::Error => 1u8,
            LogLevel::Warn => 2u8,
            LogLevel::Info => 3u8,
            LogLevel::Debug => 4u8,
            LogLevel::Trace => 5u8,
        };
        record <= filter
    }

    /// Render one record: bracketed timestamp, bracketed level name, the
    /// message with trailing whitespace dropped, and a line break.
    pub fn render(&self, ts: &str, level: &LogLevel, message: &str) -> (r: String)
        ensures
            r@ == log_record_spec(ts@, *level, message@),
    {
        let label = level_to_string(level);
        let trimmed = crate::text::str_trim_end(message);
        let mut r = String::from_str("[");
        r.append(ts);
        r.append("] [");
        r.append(label.as_str());
        r.append("] ");
        r.append(trimmed);
        r.append("\n");
        proof {
            assert(r@ =~= log_record_spec(ts@, *level, message@));
        }
        r
    }

    /// Install this logger as the process-wide sink, through the
    /// caller's port; a port already holding one refuses a second.
    pub fn set_global(self, port: &mut GlobalLoggerSlot) -> (r: Result<(), String>)
        ensures
            (match old(port).logger {
                Some(_) => r matches Err(m) && m@ == "a global logger is already installed"@
                    && final(port).logger == old(port).logger,
                None => r is Ok && final(port).logger == Some(self),
            }),
    {
        match port.logger {
            Some(_) => Err(String::from_str("a global logger is already installed")),
            None => {
                port.logger = Some(self);
                Ok(())
            },
        }
    }
}

/// One rendered log record.
pub open spec fn log_record_spec(ts: Seq<char>, level: LogLevel, message: Seq<char>)
    -> Seq<char> {
    "["@ + ts + "] ["@ + level_label(level) + "] "@ + trim_end_spec(message) + "\n"@
}

/// The slot a process installs its one logger into: an explicit port, so
/// that the choice stays with the caller that owns the process.
pub struct GlobalLoggerSlot {
    pub logger: Option<Logger>,
}

impl GlobalLoggerSlot {
    /// An empty port.
    pub fn new() -> (r: GlobalLoggerSlot)
        ensures
            r.logger is None,
    {
        GlobalLoggerSlot { logger: None }
    }
}

/// Where the daemon's own log lines go.
pub enum LogSink {
    /// The process's standard output.
    StdoutSink,
    /// The process's standard error.
    StderrSink,
    /// Discarded.
    NopSink,
    /// Appended to this file.
    FileSink(String),
}

/// Choose the sink the configuration names: standard output when the
/// setting is absent, empty or "stdout"; the named file otherwise.
pub fn select_log_output(choice: &Option<String>) -> (r: LogSink)
    ensures
        choice is None ==> r is StdoutSink,
        choice matches Some(s) ==> {
            if s@ == "stdout"@ || s@ == ""@ {
                r is StdoutSink
            } else if s@ == "stderr"@ {
                r is StderrSink
            } else if s@ == "off"@ {
                r is NopSink
            } else {
                r matches LogSink::FileSink(p) && p@ == s@
            }
        },
{
    match choice {
        None => LogSink::StdoutSink,
        Some(s) => {
            if str_eq(s.as_str(), "stdout") || str_eq(s.as_str(), "") {
                LogSink::StdoutSink
            } else if str_eq(s.as_str(), "stderr") {
                LogSink::StderrSink
            } else if str_eq(s.as_str(), "off") {
                LogSink::NopSink
            } else {
                LogSink::FileSink(s.clone())
            }
        },
    }
}

} // verus!
