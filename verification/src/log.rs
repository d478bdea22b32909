use vstd::prelude::*;

verus! {

/// Severity of one recorded line.
#[derive(Clone, Copy, PartialEq, Eq, Structural, Debug)]
pub enum LogLevel {
    Info,
    Debug,
    Warn,
    Error,
}

/// One recorded line: a severity tag and its message.
#[derive(Debug)]
pub struct LogEntry {
    pub level: LogLevel,
    pub message: String,
}

/// An explicitly owned, append-only record of log lines.  Components are
/// handed a record to append to instead of reaching for process-wide
/// mutable state, so each stays testable on its own; the embedding
/// program decides how — and whether — the record is rendered.
#[derive(Debug)]
pub struct Log {
    entries: Vec<LogEntry>,
}

impl View for Log {
    type V = Seq<LogEntry>;

    closed spec fn view(&self) -> Seq<LogEntry> {
        self.entries@
    }
}

impl Log {
    pub fn new() -> (l: Log)
        ensures
            l@ == Seq::<LogEntry>::empty(),
    {
        Log { entries: Vec::new() }
    }

    /// Record an informational line.
    pub fn info(&mut self, message: String)
        ensures
            final(self)@ == old(self)@.push((LogEntry { level: LogLevel::Info, message })),
    {
        self.entries.push(LogEntry { level: LogLevel::Info, message });
    }

    /// Record a debugging line.
    pub fn debug(&mut self, message: String)
        ensures
            final(self)@ == old(self)@.push((LogEntry { level: LogLevel::Debug, message })),
    {
        self.entries.push(LogEntry { level: LogLevel::Debug, message });
    }

    /// Record a warning, such as an aggregated overflow or underflow
    /// report.
    pub fn warn(&mut self, message: String)
        ensures
            final(self)@ == old(self)@.push((LogEntry { level: LogLevel::Warn, message })),
    {
        self.entries.push(LogEntry { level: LogLevel::Warn, message });
    }

    /// Record an error line.
    pub fn error(&mut self, message: String)
        ensures
            final(self)@ == old(self)@.push((LogEntry { level: LogLevel::Error, message })),
    {
        self.entries.push(LogEntry { level: LogLevel::Error, message });
    }

    pub fn len(&self) -> (n: usize)
        ensures
            n == self@.len(),
    {
        self.entries.len()
    }

    /// The recorded lines, oldest first.
    pub fn entries(&self) -> (r: &Vec<LogEntry>)
        ensures
            r@ == self@,
    {
        &self.entries
    }
}

} // verus!
