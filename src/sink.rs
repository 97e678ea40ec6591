use vstd::prelude::*;
use crossbeam::channel::Sender;
use crate::channel::{unix_seconds, LogChannel};
use crate::event::LogItem;

verus! {

/// Severity of a diagnostic record, most severe first.
#[derive(Clone, Copy, Debug, PartialEq, Eq, Structural)]
pub enum LogLevel {
    Error,
    Warn,
    Info,
    Debug,
    Trace,
}

/// The upper-case name of a level, as the `log` facade prints it.
pub open spec fn level_label(l: LogLevel) -> Seq<char> {
    match l {
        LogLevel::Error => seq!['E', 'R', 'R', 'O', 'R'],
        LogLevel::Warn => seq!['W', 'A', 'R', 'N'],
        LogLevel::Info => seq!['I', 'N', 'F', 'O'],
        LogLevel::Debug => seq!['D', 'E', 'B', 'U', 'G'],
        LogLevel::Trace => seq!['T', 'R', 'A', 'C', 'E'],
    }
}

/// The line written for a record: `<level>:<source> -- <message>`.
pub open spec fn record_line(l: LogLevel, source: Seq<char>, message: Seq<char>) -> Seq<char> {
    level_label(l) + seq![':'] + source + seq![' ', '-', '-', ' '] + message
}

impl LogLevel {
    /// The level's name.
    pub fn as_str(&self) -> (r: &'static str)
        ensures
            r@ == level_label(*self),
    {
        match self {
            LogLevel::Error => {
                proof { reveal_strlit("ERROR"); }
                "ERROR"
            },
            LogLevel::Warn => {
                proof { reveal_strlit("WARN"); }
                "WARN"
            },
            LogLevel::Info => {
                proof { reveal_strlit("INFO"); }
                "INFO"
            },
            LogLevel::Debug => {
                proof { reveal_strlit("DEBUG"); }
                "DEBUG"
            },
            LogLevel::Trace => {
                proof { reveal_strlit("TRACE"); }
                "TRACE"
            },
        }
    }
}

/// Channel name of events made from the runtime's own diagnostics.
pub const DIAGNOSTICS_CHANNEL: &'static str = "rust-logs";

/// Formats a record as `<level>:<source> -- <message>`.
pub fn format_record(level: LogLevel, source: &str, message: &str) -> (r: String)
    ensures
        r@ == record_line(level, source@, message@),
{
    let mut s = String::from_str(level.as_str());
    s.append(":");
    s.append(source);
    s.append(" -- ");
    s.append(message);
    proof {
        reveal_strlit(":");
        reveal_strlit(" -- ");
        assert(s@ =~= record_line(level, source@, message@));
    }
    s
}

/// A diagnostic sink: turns leveled records into events on a collector.
/// It filters nothing and never fails its caller.
#[derive(Debug)]
pub struct StreamLogger {
    pub producer: Sender<LogItem>,
}

impl StreamLogger {
    /// A sink that sends through `producer`.
    pub fn new(producer: Sender<LogItem>) -> (r: StreamLogger)
        ensures
            r.producer == producer,
    {
        StreamLogger { producer }
    }

    /// Every level is enabled: filtering is left to whoever installs the sink.
    pub fn enabled(&self, level: LogLevel) -> (r: bool)
        ensures
            r,
    {
        true
    }

    /// The event sent for a record at `timestamp`.
    pub fn record_event(level: LogLevel, source: &str, message: &str, timestamp: u64) -> (r: LogItem)
        ensures
            r.channel@ == DIAGNOSTICS_CHANNEL@,
            r.line@ == record_line(level, source@, message@),
            r.timestamp == timestamp,
    {
        LogItem {
            channel: String::from_str(DIAGNOSTICS_CHANNEL),
            line: format_record(level, source, message),
            timestamp,
        }
    }

    /// Sends the record's event, stamped with the current time (0 when the
    /// clock reads before the epoch). Waits while the collector is full; a
    /// closed collector loses the record without failing the caller.
    pub fn log(&self, level: LogLevel, source: &str, message: &str) {
        let timestamp = match unix_seconds() {
            Some(t) => t,
            None => 0,
        };
        let _ = LogChannel::send(&self.producer, StreamLogger::record_event(level, source, message, timestamp));
    }

    /// Nothing is buffered here: the collector is the only buffer.
    pub fn flush(&self) {
    }
}

} // verus!
