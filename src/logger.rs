//! Diagnostics: log levels, the logging capability handed to the core, and
//! error reports with their chain of causes.

use vstd::prelude::*;
use crate::error::{chain_text, error_report};
use crate::text::text_eq;

verus! {

#[derive(Clone, Copy, Debug, PartialEq, Eq, Structural)]
pub enum LogLevel {
    Error,
    Warn,
    Info,
    Debug,
    Trace,
}

/// The level a configured name selects; an unknown name selects `Info`.
pub open spec fn level_named(name: Seq<char>) -> LogLevel {
    if name == "error"@ {
        LogLevel::Error
    } else if name == "warn"@ {
        LogLevel::Warn
    } else if name == "debug"@ {
        LogLevel::Debug
    } else if name == "trace"@ {
        LogLevel::Trace
    } else {
        LogLevel::Info
    }
}

/// Reads a configured log level.
pub fn parse_level(name: &str) -> (r: LogLevel)
    ensures
        r == level_named(name@),
{
    if text_eq(name, "error") {
        LogLevel::Error
    } else if text_eq(name, "warn") {
        LogLevel::Warn
    } else if text_eq(name, "debug") {
        LogLevel::Debug
    } else if text_eq(name, "trace") {
        LogLevel::Trace
    } else {
        LogLevel::Info
    }
}

/// Where diagnostics go. Implemented by the host's log sink.
pub trait Logger {
    /// The records written so far, oldest first.
    spec fn records(&self) -> Seq<(LogLevel, Seq<char>)>;

    /// Appends one record.
    fn record(&mut self, level: LogLevel, message: String)
        ensures
            final(self).records() == old(self).records().push((level, message@)),
    ;
}

/// A log kept in memory.
pub struct MemoryLog {
    pub entries: Vec<(LogLevel, String)>,
}

impl MemoryLog {
    pub fn new() -> (r: MemoryLog)
        ensures
            r.records() == Seq::<(LogLevel, Seq<char>)>::empty(),
    {
        let r = MemoryLog { entries: Vec::new() };
        assert(r.records() =~= Seq::<(LogLevel, Seq<char>)>::empty());
        r
    }
}

impl Logger for MemoryLog {
    open spec fn records(&self) -> Seq<(LogLevel, Seq<char>)> {
        self.entries@.map_values(|e: (LogLevel, String)| (e.0, e.1@))
    }

    fn record(&mut self, level: LogLevel, message: String) {
        let ghost before = self.records();
        let ghost m = message@;
        self.entries.push((level, message));
        assert(self.records() =~= before.push((level, m)));
    }
}

/// Records `msg` and the chain of its causes as one error entry.
pub fn handle_error<L: Logger>(log: &mut L, msg: &str, causes: &Vec<String>)
    ensures
        final(log).records() == old(log).records().push(
            (LogLevel::Error, chain_text(msg@, causes@.map_values(|c: String| c@))),
        ),
{
    let report = error_report(msg, causes);
    log.record(LogLevel::Error, report);
}

} // verus!
