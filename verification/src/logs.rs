//! The append-only log the front-end can list and clear. Entries are never
//! rewritten; each carries a wall-clock timestamp, a level, a message, and
//! optionally the session it concerns.

use vstd::prelude::*;
use crate::clock::now_timestamp;

verus! {

/// The severity of a log entry.
#[derive(Debug, Clone, Copy, PartialEq, Eq, Structural)]
pub enum LogLevel {
    Debug,
    Info,
    Warning,
    Error,
}

/// The fixed name of a level.
pub open spec fn spec_level_name(level: LogLevel) -> Seq<char> {
    match level {
        LogLevel::Debug => "DEBUG"@,
        LogLevel::Info => "INFO"@,
        LogLevel::Warning => "WARNING"@,
        LogLevel::Error => "ERROR"@,
    }
}

impl LogLevel {
    /// The level's name as text.
    pub fn as_str(&self) -> (r: &'static str)
        ensures
            r@ == spec_level_name(*self),
    {
        proof {
            reveal_strlit("DEBUG");
            reveal_strlit("INFO");
            reveal_strlit("WARNING");
            reveal_strlit("ERROR");
        }
        match self {
            LogLevel::Debug => "DEBUG",
            LogLevel::Info => "INFO",
            LogLevel::Warning => "WARNING",
            LogLevel::Error => "ERROR",
        }
    }
}

/// One log line.
#[derive(Debug)]
pub struct LogEntry {
    pub timestamp: String,
    pub level: String,
    pub message: String,
    pub session_id: Option<String>,
}

impl Clone for LogEntry {
    fn clone(&self) -> (res: Self)
        ensures
            res == *self,
    {
        LogEntry {
            timestamp: self.timestamp.clone(),
            level: self.level.clone(),
            message: self.message.clone(),
            session_id: match &self.session_id {
                Some(s) => Some(s.clone()),
                None => None,
            },
        }
    }
}

impl LogEntry {
    /// A new entry stamped with the current wall-clock time.
    pub fn new(level: &str, message: &str, session_id: Option<String>) -> (r: Self)
        ensures
            r.level@ == level@,
            r.message@ == message@,
            r.session_id == session_id,
    {
        LogEntry {
            timestamp: now_timestamp(),
            level: level.to_owned(),
            message: message.to_owned(),
            session_id,
        }
    }
}

/// The process-wide list of log entries.
pub struct LogStore {
    pub entries: Vec<LogEntry>,
}

impl LogStore {
    /// An empty log.
    pub fn new() -> (r: Self)
        ensures
            r.entries@.len() == 0,
    {
        LogStore { entries: Vec::new() }
    }

    /// Append one entry; nothing already logged changes.
    pub fn log(&mut self, level: LogLevel, message: &str, session_id: Option<String>)
        ensures
            final(self).entries@.len() == old(self).entries@.len() + 1,
            final(self).entries@.subrange(0, old(self).entries@.len() as int)
                == old(self).entries@,
            final(self).entries@.last().level@ == spec_level_name(level),
            final(self).entries@.last().message@ == message@,
            final(self).entries@.last().session_id == session_id,
    {
        let entry = LogEntry::new(level.as_str(), message, session_id);
        self.entries.push(entry);
        proof {
            assert(self.entries@.subrange(0, old(self).entries@.len() as int)
                =~= old(self).entries@);
        }
    }

    /// A copy of every entry, oldest first.
    pub fn get_logs(&self) -> (r: Vec<LogEntry>)
        ensures
            r@ == self.entries@,
    {
        let n = self.entries.len();
        let mut out: Vec<LogEntry> = Vec::new();
        let mut i: usize = 0;
        while i < n
            invariant
                0 <= i <= n,
                n == self.entries@.len(),
                out@ == self.entries@.subrange(0, i as int),
            decreases n - i,
        {
            let e = self.entries[i].clone();
            out.push(e);
            proof {
                assert(out@ =~= self.entries@.subrange(0, i + 1));
            }
            i = i + 1;
        }
        proof {
            assert(self.entries@.subrange(0, n as int) =~= self.entries@);
        }
        out
    }

    /// Drop every entry.
    pub fn clear_logs(&mut self)
        ensures
            final(self).entries@.len() == 0,
    {
        self.entries.clear();
    }
}

} // verus!
