//! The logging sink: which stream a message goes to, and under which tag.

use crate::text::{lowercase, to_lowercase};
use vstd::prelude::*;

verus! {

/// The severity a message is logged with.
#[derive(Clone, Copy, Debug, PartialEq, Eq, Structural)]
pub enum LogLevel {
    Error,
    Warn,
    Info,
    Debug,
}

/// The output stream a line is written to.
#[derive(Clone, Copy, Debug, PartialEq, Eq, Structural)]
pub enum LogStream {
    /// Standard output.
    Stdout,
    /// Standard error.
    Stderr,
}

/// A line ready to be written, without its line break.
#[derive(Debug, Clone)]
pub struct LogLine {
    pub stream: LogStream,
    pub text: String,
}

impl LogLevel {
    /// The level that the lower-cased name `lower` stands for. Every name
    /// other than `error`, `warn` and `info` means `Debug`.
    pub open spec fn of_lower(lower: Seq<char>) -> LogLevel {
        if lower == "error"@ {
            LogLevel::Error
        } else if lower == "warn"@ {
            LogLevel::Warn
        } else if lower == "info"@ {
            LogLevel::Info
        } else {
            LogLevel::Debug
        }
    }

    /// The level that `text` names in any letter case.
    pub open spec fn of_text(text: Seq<char>) -> LogLevel {
        Self::of_lower(lowercase(text))
    }

    /// The tag that leads a line of this level.
    pub open spec fn tag(self) -> Seq<char> {
        match self {
            LogLevel::Error => "[ERROR]"@,
            LogLevel::Warn => "[WARN]"@,
            LogLevel::Info => "[INFO]"@,
            LogLevel::Debug => "[DEBUG]"@,
        }
    }

    /// The stream of this level: errors go to standard error, everything
    /// else to standard output.
    pub open spec fn stream(self) -> LogStream {
        match self {
            LogLevel::Error => LogStream::Stderr,
            _ => LogStream::Stdout,
        }
    }

    /// Matches a name that is already lower-cased.
    pub fn from_lower(lower: &str) -> (r: LogLevel)
        ensures
            r == Self::of_lower(lower@),
    {
        let text = lower.to_owned();
        if text == "error".to_owned() {
            LogLevel::Error
        } else if text == "warn".to_owned() {
            LogLevel::Warn
        } else if text == "info".to_owned() {
            LogLevel::Info
        } else {
            LogLevel::Debug
        }
    }

    /// Reads a level name in any letter case; unknown names mean `Debug`.
    pub fn parse(text: &str) -> (r: LogLevel)
        ensures
            r == Self::of_text(text@),
    {
        let lower = to_lowercase(text);
        Self::from_lower(lower.as_str())
    }

    /// The tag that leads a line of this level.
    pub fn tag_str(&self) -> (r: &'static str)
        ensures
            r@ == self.tag(),
    {
        match self {
            LogLevel::Error => "[ERROR]",
            LogLevel::Warn => "[WARN]",
            LogLevel::Info => "[INFO]",
            LogLevel::Debug => "[DEBUG]",
        }
    }

    /// The stream that lines of this level are written to.
    pub fn output(&self) -> (r: LogStream)
        ensures
            r == self.stream(),
    {
        match self {
            LogLevel::Error => LogStream::Stderr,
            _ => LogStream::Stdout,
        }
    }
}

/// The text of a log line: the level's tag, a space and the message.
pub open spec fn line_text(level: LogLevel, message: Seq<char>) -> Seq<char> {
    level.tag() + " "@ + message
}

/// Decides how `message` is logged at the level that `level` names: the
/// stream it is written to and the text of the line.
pub fn log_message(level: &str, message: &str) -> (line: LogLine)
    ensures
        line.stream == LogLevel::of_text(level@).stream(),
        line.text@ == line_text(LogLevel::of_text(level@), message@),
{
    let level = LogLevel::parse(level);
    let mut text = level.tag_str().to_owned();
    text.append(" ");
    text.append(message);
    LogLine { stream: level.output(), text }
}

/// Only the level named `error`, in whatever letter case, goes to standard
/// error; every other line goes to standard output.
pub proof fn law_only_errors_go_to_stderr(level: Seq<char>)
    ensures
        LogLevel::of_text(level).stream() == LogStream::Stderr <==> lowercase(level) == "error"@,
{
    reveal_strlit("error");
    reveal_strlit("warn");
    reveal_strlit("info");
    assert("error"@.len() == 5 && "warn"@.len() == 4 && "info"@.len() == 4);
}

} // verus!
