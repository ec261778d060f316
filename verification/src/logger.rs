use vstd::prelude::*;

use colored::Colorize;
use std::io::Write;

verus! {

/// A log severity level, ordered from most severe (`Error`) to least
/// severe (`Trace`).
#[derive(Clone, Copy, PartialEq, Eq, Structural, Debug)]
pub enum Level {
    Error,
    Warn,
    Info,
    Debug,
    Trace,
}

/// Numeric rank of a level: higher means more severe.
pub open spec fn severity(l: Level) -> int {
    match l {
        Level::Error => 4,
        Level::Warn => 3,
        Level::Info => 2,
        Level::Debug => 1,
        Level::Trace => 0,
    }
}

/// A threshold accepts a record's level iff the record is at least as
/// severe as the threshold.
pub open spec fn accepts_spec(threshold: Level, level: Level) -> bool {
    severity(level) >= severity(threshold)
}

/// The upper-cased tag under which a level is printed.
pub open spec fn tag_spec(l: Level) -> Seq<char> {
    match l {
        Level::Error => "ERROR"@,
        Level::Warn => "WARN"@,
        Level::Info => "INFO"@,
        Level::Debug => "DEBUG"@,
        Level::Trace => "TRACE"@,
    }
}

/// The severity threshold named by a level string; unknown names fall
/// back to `Info`.
pub open spec fn level_of_name(s: Seq<char>) -> Level {
    if s == "error"@ {
        Level::Error
    } else if s == "warn"@ {
        Level::Warn
    } else if s == "info"@ {
        Level::Info
    } else if s == "debug"@ {
        Level::Debug
    } else if s == "trace"@ {
        Level::Trace
    } else {
        Level::Info
    }
}

impl Level {
    /// Executable severity rank, matching `severity`.
    pub fn rank(self) -> (r: u8)
        ensures
            r as int == severity(self),
    {
        match self {
            Level::Error => 4,
            Level::Warn => 3,
            Level::Info => 2,
            Level::Debug => 1,
            Level::Trace => 0,
        }
    }

    /// The upper-cased tag under which this level is printed.
    pub fn tag(self) -> (r: String)
        ensures
            r@ == tag_spec(self),
    {
        match self {
            Level::Error => String::from_str("ERROR"),
            Level::Warn => String::from_str("WARN"),
            Level::Info => String::from_str("INFO"),
            Level::Debug => String::from_str("DEBUG"),
            Level::Trace => String::from_str("TRACE"),
        }
    }

    /// Maps a level name to the severity threshold it denotes, falling
    /// back to `Info` for an unknown name.
    pub fn from_name(s: &str) -> (l: Level)
        ensures
            l == level_of_name(s@),
    {
        let name = s.to_owned();
        if name == String::from_str("error") {
            Level::Error
        } else if name == String::from_str("warn") {
            Level::Warn
        } else if name == String::from_str("info") {
            Level::Info
        } else if name == String::from_str("debug") {
            Level::Debug
        } else if name == String::from_str("trace") {
            Level::Trace
        } else {
            Level::Info
        }
    }
}

/// The error returned when a logger is installed into a slot that
/// already holds one.
#[derive(Clone, Copy, PartialEq, Eq, Structural, Debug)]
pub struct LoggerInitError;

impl LoggerInitError {
    /// Human-readable description of the failure.
    pub fn message(&self) -> (r: String)
        ensures
            r@ == "logger already initialized"@,
    {
        String::from_str("logger already initialized")
    }
}

/// One line of log output:
/// `[<timestamp>] <tag> - <target>: <message>`.
pub open spec fn line_spec(ts: Seq<char>, tag: Seq<char>, target: Seq<char>, msg: Seq<char>) -> Seq<
    char,
> {
    "["@ + ts + "] "@ + tag + " - "@ + target + ": "@ + msg
}

/// Renders one log line from its parts.
pub fn format_line(ts: &str, tag: &str, target: &str, msg: &str) -> (r: String)
    ensures
        r@ == line_spec(ts@, tag@, target@, msg@),
{
    let mut line = String::new();
    line.append("[");
    line.append(ts);
    line.append("] ");
    line.append(tag);
    line.append(" - ");
    line.append(target);
    line.append(": ");
    line.append(msg);
    proof {
        assert(line@ =~= line_spec(ts@, tag@, target@, msg@));
    }
    line
}

/// Relies on the `colored` crate (`Colorize::{red, bold, yellow, green,
/// blue, cyan}`): the level's tag rendered in the level's colour and
/// weight. No tag holds an escape character, so the result is the tag
/// text itself, wrapped in a terminal-escape prefix and suffix that are
/// empty where the environment disables colour.
#[verifier::external_body]
fn colored_tag(tag: &str, level: &Level) -> (r: String)
    requires
        tag@ == tag_spec(*level),
    ensures
        exists|pre: Seq<char>, suf: Seq<char>| r@ == pre + tag@ + suf,
{
    match level {
        Level::Error => tag.red().bold().to_string(),
        Level::Warn => tag.yellow().to_string(),
        Level::Info => tag.green().to_string(),
        Level::Debug => tag.blue().to_string(),
        Level::Trace => tag.cyan().to_string(),
    }
}

/// Relies on `chrono::Local::now` and its formatter: the current local
/// time as `YYYY-MM-DD HH:MM:SS`. The value depends on the clock and
/// the time zone, so nothing is claimed of it.
#[verifier::external_body]
fn now_timestamp() -> String {
    chrono::Local::now().format("%Y-%m-%d %H:%M:%S").to_string()
}

/// Relies on `std::io::Stdout` via `writeln!`: writes the line, then a
/// newline, to standard output; a write failure is swallowed.
#[verifier::external_body]
fn write_stdout_line(line: &str) {
    let _ = writeln!(std::io::stdout(), "{}", line);
}

/// A console logging backend: holds an immutable severity threshold and
/// writes accepted records to standard output, one line per record.
pub struct ConsoleLogger {
    /// The minimum severity a record must have to be emitted.
    pub level: Level,
}

impl ConsoleLogger {
    /// Creates a backend with the given severity threshold.
    pub fn new(level: Level) -> (l: ConsoleLogger)
        ensures
            l.level == level,
    {
        ConsoleLogger { level }
    }

    /// Installs a backend with the given threshold into `slot`, the
    /// process's single logger cell. Installation is one-shot: if a
    /// backend is already installed the slot is left unchanged and the
    /// call fails.
    pub fn init(level: Level, slot: &mut Option<ConsoleLogger>) -> (r: Result<
        (),
        LoggerInitError,
    >)
        ensures
            (*old(slot)) is None ==> r is Ok && *final(slot) == Some(ConsoleLogger { level }),
            (*old(slot)) is Some ==> r is Err && *final(slot) == *old(slot),
    {
        match slot {
            Some(_) => Err(LoggerInitError),
            None => {
                *slot = Some(ConsoleLogger::new(level));
                Ok(())
            },
        }
    }

    /// Whether a record at `level` passes this backend's threshold.
    pub fn accepts(&self, level: Level) -> (r: bool)
        ensures
            r == accepts_spec(self.level, level),
    {
        level.rank() >= self.level.rank()
    }

    /// Filtering and formatting of one record, without the transport: a
    /// rejected record yields nothing; an accepted one yields exactly
    /// the line that would be written, with the plain (uncolored) tag.
    pub fn render(&self, level: Level, ts: &str, target: &str, msg: &str) -> (r: Option<String>)
        ensures
            (r is Some) == accepts_spec(self.level, level),
            r matches Some(line) ==> line@ == line_spec(ts@, tag_spec(level), target@, msg@),
    {
        if self.accepts(level) {
            let tag = level.tag();
            Some(format_line(ts, tag.as_str(), target, msg))
        } else {
            None
        }
    }

    /// Emits one record: if its level passes the threshold, writes one
    /// line to standard output, tagged with the level's tag in the
    /// level's colour and stamped with the current local time;
    /// otherwise writes nothing.
    pub fn log(&self, level: Level, target: &str, msg: &str) {
        if self.accepts(level) {
            let ts = now_timestamp();
            let tag = level.tag();
            let painted = colored_tag(tag.as_str(), &level);
            let line = format_line(ts.as_str(), painted.as_str(), target, msg);
            write_stdout_line(line.as_str());
        }
    }

    /// Flushes buffered output: a no-op, since every write is immediate.
    pub fn flush(&self) {
    }
}

} // verus!
