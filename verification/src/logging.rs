//! Log levels and the categories under which entries are filed.

use crate::json::{
    json_quote, json_string_literal, quoted_or_null, value_text, write_value,
};
use crate::text::{
    decimal_digits, decimal_string, decimal_text, lowercase_of, opt_text, str_to_lowercase,
    text_eq, unsigned_decimal_string,
};
use vstd::prelude::*;
use vstd::string::StringExecFns;

verus! {

/// The size in bytes from which a log file is rotated before it is written to.
pub const MAX_LOG_BYTES: u64 = 1_000_000;

/// Where the worker's lines are logged, below the configuration directory.
pub const YT_DLP_LOG_RELATIVE_PATH: &'static str = "logs/remedia-yt-dlp.log";

/// Where the program's own entries are logged, below the configuration directory.
pub const ERROR_LOG_RELATIVE_PATH: &'static str = "logs/remedia-errors.log";

/// The name of the setting that holds the most verbose level to log.
pub const LOG_LEVEL_ENV_VAR: &'static str = "REMEDIA_LOG_LEVEL";

/// How much an entry matters; `Debug` is the most verbose.
#[derive(Debug, Clone, Copy, PartialEq, Eq, Structural)]
pub enum LogLevel {
    Error,
    Warn,
    Info,
    Debug,
}

/// The part of the program an entry is about.
#[derive(Debug, Clone, Copy, PartialEq, Eq, Structural)]
pub enum ErrorCategory {
    Network,
    Validation,
    System,
    Download,
    Unknown,
}

impl ErrorCategory {
    pub open spec fn name_text(self) -> Seq<char> {
        match self {
            ErrorCategory::Network => "Network"@,
            ErrorCategory::Validation => "Validation"@,
            ErrorCategory::System => "System"@,
            ErrorCategory::Download => "Download"@,
            ErrorCategory::Unknown => "Unknown"@,
        }
    }

    /// The category's name, as it stands in log entries.
    pub fn name(&self) -> (s: &'static str)
        ensures
            s@ == self.name_text(),
    {
        match self {
            ErrorCategory::Network => "Network",
            ErrorCategory::Validation => "Validation",
            ErrorCategory::System => "System",
            ErrorCategory::Download => "Download",
            ErrorCategory::Unknown => "Unknown",
        }
    }
}

impl LogLevel {
    /// The level's name, as it stands in log entries.
    pub open spec fn name_text(self) -> Seq<char> {
        match self {
            LogLevel::Error => "Error"@,
            LogLevel::Warn => "Warn"@,
            LogLevel::Info => "Info"@,
            LogLevel::Debug => "Debug"@,
        }
    }

    /// The level's name, as it stands in log entries.
    pub fn name(&self) -> (s: &'static str)
        ensures
            s@ == self.name_text(),
    {
        match self {
            LogLevel::Error => "Error",
            LogLevel::Warn => "Warn",
            LogLevel::Info => "Info",
            LogLevel::Debug => "Debug",
        }
    }

    /// The level's rank: the higher, the more verbose.
    pub open spec fn rank(self) -> u8 {
        match self {
            LogLevel::Error => 0,
            LogLevel::Warn => 1,
            LogLevel::Info => 2,
            LogLevel::Debug => 3,
        }
    }

    /// The level that a lower-cased name stands for.
    pub open spec fn named(lowered: Seq<char>) -> Option<LogLevel> {
        if lowered == "error"@ {
            Some(LogLevel::Error)
        } else if lowered == "warn"@ || lowered == "warning"@ {
            Some(LogLevel::Warn)
        } else if lowered == "info"@ {
            Some(LogLevel::Info)
        } else if lowered == "debug"@ {
            Some(LogLevel::Debug)
        } else {
            None
        }
    }

    /// The level's rank: the higher, the more verbose.
    pub fn level_value(&self) -> (v: u8)
        ensures
            v == self.rank(),
    {
        match self {
            LogLevel::Error => 0,
            LogLevel::Warn => 1,
            LogLevel::Info => 2,
            LogLevel::Debug => 3,
        }
    }

    /// Whether an entry of this level is written when `min_level` is the
    /// most verbose level that is.
    pub fn should_log(&self, min_level: &LogLevel) -> (r: bool)
        ensures
            r == (self.rank() <= min_level.rank()),
    {
        self.level_value() <= min_level.level_value()
    }

    /// The level in capitals, as it stands in log lines.
    pub fn label(&self) -> (s: &'static str)
        ensures
            s@ == match self {
                LogLevel::Error => "ERROR"@,
                LogLevel::Warn => "WARN"@,
                LogLevel::Info => "INFO"@,
                LogLevel::Debug => "DEBUG"@,
            },
    {
        match self {
            LogLevel::Error => "ERROR",
            LogLevel::Warn => "WARN",
            LogLevel::Info => "INFO",
            LogLevel::Debug => "DEBUG",
        }
    }

    /// The level that a lower-cased name stands for.
    pub fn from_lowered(lowered: &str) -> (r: Option<LogLevel>)
        ensures
            r == LogLevel::named(lowered@),
    {
        if text_eq(lowered, "error") {
            Some(LogLevel::Error)
        } else if text_eq(lowered, "warn") || text_eq(lowered, "warning") {
            Some(LogLevel::Warn)
        } else if text_eq(lowered, "info") {
            Some(LogLevel::Info)
        } else if text_eq(lowered, "debug") {
            Some(LogLevel::Debug)
        } else {
            None
        }
    }

    /// Reads a level from its name, in any mix of upper and lower case.
    /// Another name is refused with a message that quotes it.
    pub fn parse(name: &str) -> (r: Result<LogLevel, String>)
        ensures
            match r {
                Ok(level) => LogLevel::named(lowercase_of(name@)) == Some(level),
                Err(message) => LogLevel::named(lowercase_of(name@)) is None && message@
                    == "Invalid log level: "@ + name@,
            },
    {
        let lowered = str_to_lowercase(name);
        match LogLevel::from_lowered(lowered.as_str()) {
            Some(level) => Ok(level),
            None => {
                let mut message = String::from_str("Invalid log level: ");
                message.append(name);
                Err(message)
            },
        }
    }
}

impl Default for LogLevel {
    fn default() -> (level: Self)
        ensures
            level == LogLevel::Info,
    {
        LogLevel::Info
    }
}

impl std::str::FromStr for LogLevel {
    type Err = String;

    /// Reads a level from its name, in any mix of upper and lower case.
    /// Another name is refused with a message that quotes it.
    fn from_str(s: &str) -> (r: Result<Self, String>)
        ensures
            match r {
                Ok(level) => LogLevel::named(lowercase_of(s@)) == Some(level),
                Err(message) => LogLevel::named(lowercase_of(s@)) is None && message@
                    == "Invalid log level: "@ + s@,
            },
    {
        LogLevel::parse(s)
    }
}

/// One entry of the program's log.
#[derive(Debug)]
pub struct StructuredLogEntry {
    /// When the entry was made, in milliseconds since 1970.
    pub timestamp: u128,
    pub level: LogLevel,
    pub category: ErrorCategory,
    pub message: String,
    /// What else is known, as JSON.
    pub context: Option<serde_json::Value>,
    pub error_details: Option<String>,
}

/// The JSON text of an optional value: what `serde_json` writes for it,
/// or `null` where there is none; nothing where the value does not serialize.
pub open spec fn value_or_null(member: Option<serde_json::Value>) -> Option<Seq<char>> {
    match member {
        Some(v) => value_text(v),
        None => Some("null"@),
    }
}

/// The JSON text of an entry, from its members as JSON values.
pub open spec fn entry_text(
    timestamp: nat,
    level: LogLevel,
    category: ErrorCategory,
    message: Seq<char>,
    context: Seq<char>,
    error_details: Seq<char>,
) -> Seq<char> {
    "{\"timestamp\":"@ + decimal_digits(timestamp) + ",\"level\":\""@ + level.name_text()
        + "\",\"category\":\""@ + category.name_text() + "\",\"message\":"@ + message
        + ",\"context\":"@ + context + ",\"error_details\":"@ + error_details + "}"@
}

impl StructuredLogEntry {
    /// The entry as one line of JSON: the object of its members, in the
    /// order of their declaration; nothing where the message, the context
    /// or the details do not serialize.
    pub open spec fn json_text(self) -> Option<Seq<char>> {
        match json_string_literal(self.message@) {
            Some(message) => match value_or_null(self.context) {
                Some(context) => match quoted_or_null(opt_text(self.error_details)) {
                    Some(details) => Some(
                        entry_text(
                            self.timestamp as nat,
                            self.level,
                            self.category,
                            message,
                            context,
                            details,
                        ),
                    ),
                    None => None,
                },
                None => None,
            },
            None => None,
        }
    }

    /// An entry of the level `level`, made at the time `timestamp`.
    pub fn new(
        timestamp: u128,
        level: LogLevel,
        category: ErrorCategory,
        message: &str,
        context: Option<serde_json::Value>,
        error_details: Option<&str>,
    ) -> (e: Self)
        ensures
            e.timestamp == timestamp,
            e.level == level,
            e.category == category,
            e.message@ == message@,
            e.context == context,
            match error_details {
                Some(d) => e.error_details matches Some(kept) && kept@ == d@,
                None => e.error_details is None,
            },
    {
        StructuredLogEntry {
            timestamp,
            level,
            category,
            message: String::from_str(message),
            context,
            error_details: match error_details {
                Some(d) => Some(String::from_str(d)),
                None => None,
            },
        }
    }

    /// An entry for an error.
    pub fn error(
        timestamp: u128,
        category: ErrorCategory,
        message: &str,
        context: Option<serde_json::Value>,
        error_details: Option<&str>,
    ) -> (e: Self)
        ensures
            e.timestamp == timestamp,
            e.level == LogLevel::Error,
            e.category == category,
            e.message@ == message@,
            e.context == context,
            match error_details {
                Some(d) => e.error_details matches Some(kept) && kept@ == d@,
                None => e.error_details is None,
            },
    {
        StructuredLogEntry::new(
            timestamp,
            LogLevel::Error,
            category,
            message,
            context,
            error_details,
        )
    }

    /// An entry for a warning.
    pub fn warn(
        timestamp: u128,
        category: ErrorCategory,
        message: &str,
        context: Option<serde_json::Value>,
    ) -> (e: Self)
        ensures
            e.timestamp == timestamp,
            e.level == LogLevel::Warn,
            e.category == category,
            e.message@ == message@,
            e.context == context,
            e.error_details is None,
    {
        StructuredLogEntry::new(timestamp, LogLevel::Warn, category, message, context, None)
    }

    /// An entry for information.
    pub fn info(
        timestamp: u128,
        category: ErrorCategory,
        message: &str,
        context: Option<serde_json::Value>,
    ) -> (e: Self)
        ensures
            e.timestamp == timestamp,
            e.level == LogLevel::Info,
            e.category == category,
            e.message@ == message@,
            e.context == context,
            e.error_details is None,
    {
        StructuredLogEntry::new(timestamp, LogLevel::Info, category, message, context, None)
    }

    /// An entry for debugging.
    pub fn debug(
        timestamp: u128,
        category: ErrorCategory,
        message: &str,
        context: Option<serde_json::Value>,
    ) -> (e: Self)
        ensures
            e.timestamp == timestamp,
            e.level == LogLevel::Debug,
            e.category == category,
            e.message@ == message@,
            e.context == context,
            e.error_details is None,
    {
        StructuredLogEntry::new(timestamp, LogLevel::Debug, category, message, context, None)
    }

    /// Writes the entry as one line of JSON, its members in the order of
    /// their declaration. Fails where, and only where, the message, the
    /// context or the details do not serialize.
    pub fn to_json(&self) -> (r: Result<String, serde_json::Error>)
        ensures
            match r {
                Ok(s) => self.json_text() == Some(s@),
                Err(_) => self.json_text() is None,
            },
    {
        let message = match json_quote(self.message.as_str()) {
            Ok(m) => m,
            Err(e) => {
                return Err(e);
            },
        };
        let context = match &self.context {
            Some(v) => match write_value(v) {
                Ok(c) => c,
                Err(e) => {
                    return Err(e);
                },
            },
            None => String::from_str("null"),
        };
        let details = match &self.error_details {
            Some(d) => match json_quote(d.as_str()) {
                Ok(q) => q,
                Err(e) => {
                    return Err(e);
                },
            },
            None => String::from_str("null"),
        };
        Ok(
            frame_entry(
                self.timestamp,
                self.level,
                self.category,
                message.as_str(),
                context.as_str(),
                details.as_str(),
            ),
        )
    }

    /// Whether the entry is written when `min_level` is the most verbose
    /// level that is.
    pub fn is_logged(&self, min_level: &LogLevel) -> (r: bool)
        ensures
            r == (self.level.rank() <= min_level.rank()),
    {
        self.level.should_log(min_level)
    }
}

/// Writes the JSON object of a log entry; `message`, `context` and
/// `error_details` are JSON values already.
pub fn frame_entry(
    timestamp: u128,
    level: LogLevel,
    category: ErrorCategory,
    message: &str,
    context: &str,
    error_details: &str,
) -> (s: String)
    ensures
        s@ == entry_text(timestamp as nat, level, category, message@, context@, error_details@),
{
    let mut s = String::from_str("{\"timestamp\":");
    let stamp = unsigned_decimal_string(timestamp);
    s.append(stamp.as_str());
    s.append(",\"level\":\"");
    s.append(level.name());
    s.append("\",\"category\":\"");
    s.append(category.name());
    s.append("\",\"message\":");
    s.append(message);
    s.append(",\"context\":");
    s.append(context);
    s.append(",\"error_details\":");
    s.append(error_details);
    s.append("}");
    s
}

/// Whether a log file of `size` bytes is rotated before the next line.
pub fn needs_rotation(size: u64) -> (r: bool)
    ensures
        r == (size >= MAX_LOG_BYTES),
{
    size >= MAX_LOG_BYTES
}

/// The name under which a log file is kept once it is rotated. A file
/// without a name counts as the worker's log.
pub fn rotated_name(file_name: Option<&str>) -> (s: String)
    ensures
        s@ == match file_name {
            Some(name) => name@ + ".1"@,
            None => "remedia-yt-dlp.log.1"@,
        },
{
    match file_name {
        Some(name) => {
            let mut s = String::from_str(name);
            s.append(".1");
            s
        },
        None => String::from_str("remedia-yt-dlp.log.1"),
    }
}

/// A worker's line as it is logged: marked with the job it belongs to.
pub fn decorate_worker_line(media_idx: i32, line: &str) -> (s: String)
    ensures
        s@ == "[media-"@ + decimal_text(media_idx as int) + "] "@ + line@,
{
    let mut s = String::from_str("[media-");
    let idx = decimal_string(media_idx);
    s.append(idx.as_str());
    s.append("] ");
    s.append(line);
    s
}

/// A line as it is written to a log file: after the time in milliseconds
/// since 1970.
pub fn stamp_line(timestamp_ms: u128, line: &str) -> (s: String)
    ensures
        s@ == "["@ + decimal_digits(timestamp_ms as nat) + "] "@ + line@,
{
    let mut s = String::from_str("[");
    let stamp = unsigned_decimal_string(timestamp_ms);
    s.append(stamp.as_str());
    s.append("] ");
    s.append(line);
    s
}

/// The most verbose level to log: the one that the setting names, or
/// `Info` where there is no setting or it names no level.
pub fn configured_level(setting: Option<&str>) -> (level: LogLevel)
    ensures
        level == match setting {
            Some(name) => match LogLevel::named(lowercase_of(name@)) {
                Some(l) => l,
                None => LogLevel::Info,
            },
            None => LogLevel::Info,
        },
{
    match setting {
        Some(name) => match LogLevel::parse(name) {
            Ok(level) => level,
            Err(_) => LogLevel::Info,
        },
        None => LogLevel::Info,
    }
}

/// Gives an entry the level under which it is logged, whatever level it
/// came with. Says whether the level was another.
pub fn normalize_level(entry: &mut StructuredLogEntry, intended: LogLevel) -> (changed: bool)
    ensures
        *final(entry) == (StructuredLogEntry { level: intended, ..*old(entry) }),
        changed == (old(entry).level != intended),
{
    let changed = entry.level != intended;
    entry.level = intended;
    changed
}

/// An error is written at every minimum level, and whatever is written
/// at one minimum level is written at every more verbose one.
pub proof fn law_levels_nest(level: LogLevel, min: LogLevel, wider: LogLevel)
    requires
        min.rank() <= wider.rank(),
    ensures
        LogLevel::Error.rank() <= min.rank(),
        level.rank() <= min.rank() ==> level.rank() <= wider.rank(),
{
}

} // verus!
