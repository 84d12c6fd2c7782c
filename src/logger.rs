//! Structured log lines for meeting operations. Each call gives the level and
//! the text of one line; the host hands it to its logger.
use vstd::prelude::*;
use crate::text::decimal;

verus! {

/// Severity of a log line.
#[derive(Clone, Copy, Debug, PartialEq, Eq, Structural)]
pub enum LogLevel {
    Error,
    Warn,
    Info,
    Debug,
}

/// One line to log.
#[derive(Debug)]
pub struct LogRecord {
    pub level: LogLevel,
    pub message: String,
}

/// The session and operation that a series of log lines is about.
#[derive(Debug)]
pub struct MeetingLogContext {
    pub session_id: String,
    pub operation: String,
}

/// `"[MEETING] [<session>] <operation> - "`.
pub open spec fn context_prefix(c: MeetingLogContext) -> Seq<char> {
    "[MEETING] ["@ + c.session_id@ + "] "@ + c.operation@ + " - "@
}

pub open spec fn record_is(r: LogRecord, level: LogLevel, text: Seq<char>) -> bool {
    r.level == level && r.message@ == text
}

fn record(level: LogLevel, message: String) -> (r: LogRecord)
    ensures
        record_is(r, level, message@),
{
    LogRecord { level, message }
}

impl MeetingLogContext {
    pub fn new(session_id: &str, operation: &str) -> (r: Self)
        ensures
            r.session_id@ == session_id@,
            r.operation@ == operation@,
    {
        MeetingLogContext { session_id: session_id.to_owned(), operation: operation.to_owned() }
    }

    fn prefix(&self) -> (r: String)
        ensures
            r@ == context_prefix(*self),
    {
        let mut s = String::from_str("[MEETING] [");
        s.append(self.session_id.as_str());
        s.append("] ");
        s.append(self.operation.as_str());
        s.append(" - ");
        s
    }

    /// An operation began.
    pub fn log_start(&self) -> (r: LogRecord)
        ensures
            record_is(r, LogLevel::Info, context_prefix(*self) + "Started"@),
    {
        let mut s = self.prefix();
        s.append("Started");
        record(LogLevel::Info, s)
    }

    /// An operation succeeded.
    pub fn log_success(&self, message: &str) -> (r: LogRecord)
        ensures
            record_is(r, LogLevel::Info, context_prefix(*self) + "Success: "@ + message@),
    {
        let mut s = self.prefix();
        s.append("Success: ");
        s.append(message);
        record(LogLevel::Info, s)
    }

    /// An operation succeeded after `duration_ms` milliseconds.
    pub fn log_success_with_duration(&self, duration_ms: u128, message: &str) -> (r: LogRecord)
        ensures
            record_is(
                r,
                LogLevel::Info,
                context_prefix(*self) + "Success ("@ + decimal(duration_ms as nat) + "ms): "@
                    + message@,
            ),
    {
        let mut s = self.prefix();
        s.append("Success (");
        let n = crate::text::decimal_string(duration_ms);
        s.append(n.as_str());
        s.append("ms): ");
        s.append(message);
        record(LogLevel::Info, s)
    }

    /// An operation failed.
    pub fn log_error(&self, error: &str) -> (r: LogRecord)
        ensures
            record_is(r, LogLevel::Error, context_prefix(*self) + "Error: "@ + error@),
    {
        let mut s = self.prefix();
        s.append("Error: ");
        s.append(error);
        record(LogLevel::Error, s)
    }

    /// Something went wrong without stopping the operation.
    pub fn log_warning(&self, warning: &str) -> (r: LogRecord)
        ensures
            record_is(r, LogLevel::Warn, context_prefix(*self) + "Warning: "@ + warning@),
    {
        let mut s = self.prefix();
        s.append("Warning: ");
        s.append(warning);
        record(LogLevel::Warn, s)
    }

    /// Detail for debugging.
    pub fn log_debug(&self, message: &str) -> (r: LogRecord)
        ensures
            record_is(r, LogLevel::Debug, context_prefix(*self) + message@),
    {
        let mut s = self.prefix();
        s.append(message);
        record(LogLevel::Debug, s)
    }

    /// The session moved between two states.
    pub fn log_state_transition(&self, from: &str, to: &str) -> (r: LogRecord)
        ensures
            record_is(
                r,
                LogLevel::Info,
                context_prefix(*self) + "State transition: "@ + from@ + " -> "@ + to@,
            ),
    {
        let mut s = self.prefix();
        s.append("State transition: ");
        s.append(from);
        s.append(" -> ");
        s.append(to);
        record(LogLevel::Info, s)
    }

    /// A step took `duration_ms` milliseconds.
    pub fn log_timing(&self, label: &str, duration_ms: u128) -> (r: LogRecord)
        ensures
            record_is(
                r,
                LogLevel::Debug,
                context_prefix(*self) + "Timing: "@ + label@ + " = "@ + decimal(duration_ms as nat)
                    + "ms"@,
            ),
    {
        let mut s = self.prefix();
        s.append("Timing: ");
        s.append(label);
        s.append(" = ");
        let n = crate::text::decimal_string(duration_ms);
        s.append(n.as_str());
        s.append("ms");
        record(LogLevel::Debug, s)
    }

    /// A file was touched, with its size when known.
    pub fn log_file_op(&self, file_path: &str, size_bytes: Option<u64>) -> (r: LogRecord)
        ensures
            match size_bytes {
                Some(n) => record_is(
                    r,
                    LogLevel::Debug,
                    context_prefix(*self) + "File: "@ + file_path@ + " ("@ + decimal(n as nat)
                        + " bytes)"@,
                ),
                None => record_is(r, LogLevel::Debug, context_prefix(*self) + "File: "@ + file_path@),
            },
    {
        let mut s = self.prefix();
        s.append("File: ");
        s.append(file_path);
        match size_bytes {
            Some(n) => {
                s.append(" (");
                let d = crate::text::decimal_string(n as u128);
                s.append(d.as_str());
                s.append(" bytes)");
            },
            None => {},
        }
        record(LogLevel::Debug, s)
    }
}

/// A lifecycle event of a session, with details.
pub fn log_meeting_event(session_id: &str, event: &str, details: &str) -> (r: LogRecord)
    ensures
        record_is(
            r,
            LogLevel::Info,
            "[MEETING_EVENT] session="@ + session_id@ + " event="@ + event@ + " details="@
                + details@,
        ),
{
    let mut s = String::from_str("[MEETING_EVENT] session=");
    s.append(session_id);
    s.append(" event=");
    s.append(event);
    s.append(" details=");
    s.append(details);
    record(LogLevel::Info, s)
}

/// Measures how long an operation takes, on the monotonic clock.
pub struct MeetingTimer {
    start: std::time::Instant,
}

impl MeetingTimer {
    /// A timer started now.
    pub fn start() -> (r: Self) {
        MeetingTimer { start: std::time::Instant::now() }
    }

    /// Whole milliseconds since the timer started.
    pub fn elapsed_ms(&self) -> (r: u128) {
        let d = self.start.elapsed();
        d.as_millis()
    }
}

} // verus!
