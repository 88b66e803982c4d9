//! The log of the host: leveled entries, of which the last thousand are
//! kept.

use vstd::prelude::*;
use vstd::string::StringExecFns;
use std::collections::VecDeque;
use crate::dataplane::event::now_nanos;

verus! {

/// The most entries kept.
pub const MAX_LOG_ENTRIES: usize = 1000;

/// The level of a log entry.
#[derive(Debug, Clone, Copy, PartialEq, Eq, Structural)]
pub enum LogLevel {
    /// Finest detail.
    Trace,
    /// For debugging.
    Debug,
    /// Worth knowing.
    Info,
    /// Something is off.
    Warn,
    /// Something failed.
    Error,
}

impl LogLevel {
    /// The level of a number: 0 to 3 are Trace to Warn, every other
    /// number is Error.
    pub open spec fn spec_from_u32(val: u32) -> LogLevel {
        if val == 0 {
            LogLevel::Trace
        } else if val == 1 {
            LogLevel::Debug
        } else if val == 2 {
            LogLevel::Info
        } else if val == 3 {
            LogLevel::Warn
        } else {
            LogLevel::Error
        }
    }

    /// The level of a number.
    pub fn from_u32(val: u32) -> (level: LogLevel)
        ensures
            level == Self::spec_from_u32(val),
    {
        match val {
            0 => LogLevel::Trace,
            1 => LogLevel::Debug,
            2 => LogLevel::Info,
            3 => LogLevel::Warn,
            _ => LogLevel::Error,
        }
    }

    /// The number of a level.
    pub fn as_u32(self) -> (val: u32)
        ensures
            Self::spec_from_u32(val) == self,
            val <= 4,
    {
        match self {
            LogLevel::Trace => 0,
            LogLevel::Debug => 1,
            LogLevel::Info => 2,
            LogLevel::Warn => 3,
            LogLevel::Error => 4,
        }
    }
}

/// One entry of the log.
#[derive(Debug, Clone)]
pub struct LogEntry {
    /// When it was made, in nanoseconds since the epoch.
    pub timestamp: u64,
    /// Its level.
    pub level: LogLevel,
    /// What it says.
    pub message: String,
    /// The plugin that made it.
    pub plugin_id: Option<String>,
}

impl LogEntry {
    /// A copy of the entry.
    pub fn copy(&self) -> (e: LogEntry)
        ensures
            e == *self,
    {
        LogEntry {
            timestamp: self.timestamp,
            level: self.level,
            message: self.message.clone(),
            plugin_id: match &self.plugin_id {
                Some(id) => Some(id.clone()),
                None => None,
            },
        }
    }
}

/// Whether `e` is the entry of the given parts.
pub open spec fn is_entry(e: LogEntry, timestamp: u64, level: LogLevel, message: Seq<char>, plugin_id: Option<Seq<char>>) -> bool {
    &&& e.timestamp == timestamp
    &&& e.level == level
    &&& e.message@ == message
    &&& match plugin_id {
        Some(id) => e.plugin_id is Some && e.plugin_id->0@ == id,
        None => e.plugin_id is None,
    }
}

/// The last `n` entries of `log`, all of them where there are fewer.
pub open spec fn last_entries(log: Seq<LogEntry>, n: nat) -> Seq<LogEntry> {
    if n >= log.len() {
        log
    } else {
        log.skip(log.len() - n)
    }
}

/// The log.
pub struct LoggingAPI {
    buffer: VecDeque<LogEntry>,
}

impl LoggingAPI {
    /// The entries, oldest first.
    pub closed spec fn entries(&self) -> Seq<LogEntry> {
        self.buffer@
    }

    /// The log holds no more than the most entries kept.
    pub open spec fn wf(&self) -> bool {
        self.entries().len() <= MAX_LOG_ENTRIES
    }

    /// An empty log.
    pub fn new() -> (log: LoggingAPI)
        ensures
            log.wf(),
            log.entries().len() == 0,
    {
        LoggingAPI { buffer: VecDeque::new() }
    }

    /// Adds an entry stamped `timestamp`; the oldest entry leaves where
    /// the log is full.
    pub fn log_at(&mut self, level: LogLevel, message: &str, plugin_id: Option<&str>, timestamp: u64)
        requires
            old(self).wf(),
        ensures
            final(self).wf(),
            final(self).entries().len() > 0,
            is_entry(
                final(self).entries().last(),
                timestamp,
                level,
                message@,
                match plugin_id {
                    Some(id) => Some(id@),
                    None => None,
                },
            ),
            final(self).entries().drop_last() == last_entries(
                old(self).entries(),
                (MAX_LOG_ENTRIES - 1) as nat,
            ),
    {
        let entry = LogEntry {
            timestamp,
            level,
            message: String::from_str(message),
            plugin_id: match plugin_id {
                Some(id) => Some(String::from_str(id)),
                None => None,
            },
        };
        self.buffer.push_back(entry);
        if self.buffer.len() > MAX_LOG_ENTRIES {
            let _ = self.buffer.pop_front();
            proof {
                assert(self.entries().drop_last() =~= old(self).entries().skip(1));
            }
        } else {
            proof {
                assert(self.entries().drop_last() =~= old(self).entries());
            }
        }
    }

    /// Adds an entry stamped with the current time; the oldest entry
    /// leaves where the log is full.
    pub fn log(&mut self, level: LogLevel, message: &str, plugin_id: Option<&str>)
        requires
            old(self).wf(),
        ensures
            final(self).wf(),
            final(self).entries().len() > 0,
            is_entry(
                final(self).entries().last(),
                final(self).entries().last().timestamp,
                level,
                message@,
                match plugin_id {
                    Some(id) => Some(id@),
                    None => None,
                },
            ),
            final(self).entries().drop_last() == last_entries(
                old(self).entries(),
                (MAX_LOG_ENTRIES - 1) as nat,
            ),
    {
        let now = now_nanos();
        self.log_at(level, message, plugin_id, now);
    }

    /// The last `count` entries, newest first.
    pub fn get_recent_logs(&self, count: usize) -> (r: Vec<LogEntry>)
        ensures
            r@ == last_entries(self.entries(), count as nat).reverse(),
    {
        let n: usize = self.buffer.len();
        let take: usize = if count < n {
            count
        } else {
            n
        };
        let ghost wanted = last_entries(self.entries(), count as nat).reverse();
        let mut out: Vec<LogEntry> = Vec::new();
        let mut i: usize = 0;
        while i < take
            invariant
                i <= take,
                take <= n,
                n == self.buffer@.len(),
                take == wanted.len(),
                wanted == last_entries(self.entries(), count as nat).reverse(),
                out@ == wanted.take(i as int),
            decreases take - i,
        {
            let e = self.buffer[n - 1 - i].copy();
            out.push(e);
            proof {
                assert(out@ =~= wanted.take(i + 1));
            }
            i = i + 1;
        }
        assert(wanted.take(take as int) =~= wanted);
        out
    }

    /// Empties the log.
    pub fn clear_logs(&mut self)
        ensures
            final(self).wf(),
            final(self).entries().len() == 0,
    {
        self.buffer.clear();
    }

    /// The number of entries.
    pub fn get_log_count(&self) -> (n: usize)
        ensures
            n == self.entries().len(),
    {
        self.buffer.len()
    }
}

} // verus!
