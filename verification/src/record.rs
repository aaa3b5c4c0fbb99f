//! One structured log event.

use vstd::prelude::*;

use crate::level::Level;

verus! {

/// One log event: severity, call-site metadata, message, and a wall-clock
/// timestamp in nanoseconds captured when the record was constructed.
///
/// A record is immutable once constructed.
#[derive(Clone, Debug)]
pub struct Record {
    /// The record's severity.
    pub level: Level,
    /// Nanoseconds since the UNIX epoch at construction time.
    pub timestamp: u128,
    /// The module or subsystem that produced the record.
    pub target: &'static str,
    /// The source file that produced the record.
    pub file: &'static str,
    /// The source line that produced the record.
    pub line: u32,
    /// The message text.
    pub message: String,
}

/// Relies on `std::time::SystemTime::now`: the wall-clock time is read and
/// converted to nanoseconds since the UNIX epoch (zero if the clock reads
/// earlier than the epoch). Nothing is promised of the value: the clock is
/// outside the program.
#[verifier::external_body]
fn now_ns() -> u128 {
    std::time::SystemTime::now()
        .duration_since(std::time::UNIX_EPOCH)
        .unwrap_or_default()
        .as_nanos()
}

impl Record {
    /// Build a record for one log event. The timestamp is captured here,
    /// from the wall clock.
    pub fn new(
        level: Level,
        target: &'static str,
        file: &'static str,
        line: u32,
        message: String,
    ) -> (r: Record)
        ensures
            r.level == level,
            r.target == target,
            r.file == file,
            r.line == line,
            r.message == message,
    {
        Record { level, timestamp: now_ns(), target, file, line, message }
    }

    /// The record's severity.
    pub fn level(&self) -> (r: Level)
        ensures
            r == self.level,
    {
        self.level
    }

    /// Nanoseconds since the UNIX epoch at construction time.
    pub fn timestamp(&self) -> (r: u128)
        ensures
            r == self.timestamp,
    {
        self.timestamp
    }

    /// The module or subsystem that produced the record.
    pub fn target(&self) -> (r: &'static str)
        ensures
            r == self.target,
    {
        self.target
    }

    /// The source file that produced the record.
    pub fn file(&self) -> (r: &'static str)
        ensures
            r == self.file,
    {
        self.file
    }

    /// The source line that produced the record.
    pub fn line(&self) -> (r: u32)
        ensures
            r == self.line,
    {
        self.line
    }

    /// The record's message text.
    pub fn message(&self) -> (r: &str)
        ensures
            r@ == self.message@,
    {
        self.message.as_str()
    }

    /// Consume the record, yielding its message.
    pub fn into_message(self) -> (r: String)
        ensures
            r == self.message,
    {
        self.message
    }
}

} // verus!
