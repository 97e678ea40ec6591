use vstd::prelude::*;

verus! {

/// One line of log output, attributed to a channel, stamped in seconds
/// since the Unix epoch.
#[derive(Clone, Debug, PartialEq, Eq)]
pub struct LogItem {
    pub channel: String,
    pub line: String,
    pub timestamp: u64,
}

/// The other end of a collector is gone: every producer (for a receive) or
/// every consumer (for a send) has been released.
#[derive(Clone, Copy, Debug, PartialEq, Eq, Structural)]
pub struct Closed;

impl LogItem {
    /// An event carrying `line` verbatim on `channel`.
    pub fn new(channel: &str, line: &str, timestamp: u64) -> (r: LogItem)
        ensures
            r.channel@ == channel@,
            r.line@ == line@,
            r.timestamp == timestamp,
    {
        LogItem { channel: String::from_str(channel), line: String::from_str(line), timestamp }
    }
}

} // verus!
