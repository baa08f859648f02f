use vstd::prelude::*;

verus! {

/// Severity of a log event.
#[derive(Debug, Clone, Copy, PartialEq, Eq)]
pub enum Level {
    Info,
    Warn,
    Error,
}

/// The label of `level` in a log line.
pub open spec fn level_label(level: Level) -> Seq<char> {
    match level {
        Level::Info => "INFO"@,
        Level::Warn => "WARN"@,
        Level::Error => "ERROR"@,
    }
}

impl Level {
    /// The label of this level in a log line: `INFO`, `WARN` or `ERROR`.
    pub fn label(&self) -> (r: &'static str)
        ensures
            r@ == level_label(*self),
    {
        match self {
            Level::Info => "INFO",
            Level::Warn => "WARN",
            Level::Error => "ERROR",
        }
    }
}

/// One event of a request's lifecycle; the sink adds the time when it is written.
#[derive(Debug)]
pub struct LogEvent {
    pub level: Level,
    pub message: String,
}

/// Whether `after` is `before` with one event of `level` and text `message` appended.
pub open spec fn appended_one(
    before: Seq<LogEvent>,
    after: Seq<LogEvent>,
    level: Level,
    message: Seq<char>,
) -> bool {
    &&& after.len() == before.len() + 1
    &&& after.take(before.len() as int) == before
    &&& after.last().level == level
    &&& after.last().message@ == message
}

/// Appends an event of `level` with text `message` to `log`.
pub fn record(log: &mut Vec<LogEvent>, level: Level, message: String)
    ensures
        appended_one(old(log)@, final(log)@, level, message@),
{
    log.push(LogEvent { level, message });
    assert(log@.take(old(log)@.len() as int) =~= old(log)@);
}

/// The calendar text, `YYYY-MM-DD HH:MM:SS` in UTC, of `secs` seconds after the
/// Unix epoch, as chrono formats it.
pub uninterp spec fn utc_timestamp_text(secs: int) -> Seq<char>;

/// The last second of the year 9999, in seconds after the Unix epoch.
pub const LAST_SECOND_OF_9999: i64 = 253402300799;

/// Relies on chrono's `DateTime::from_timestamp(secs, 0)`, which is `None` only
/// when the day number falls outside chrono's date range (far beyond year 9999),
/// and on its `format("%Y-%m-%d %H:%M:%S")`.
#[verifier::external_body]
fn utc_timestamp(secs: i64) -> (r: Option<String>)
    ensures
        0 <= secs <= LAST_SECOND_OF_9999 ==> r is Some,
        r matches Some(t) ==> t@ == utc_timestamp_text(secs as int),
{
    match chrono::DateTime::from_timestamp(secs, 0) {
        Some(d) => Some(d.format("%Y-%m-%d %H:%M:%S").to_string()),
        None => None,
    }
}

/// A log line: `[timestamp] [LEVEL] message` and a line break.
pub open spec fn log_line(timestamp: Seq<char>, level: Level, message: Seq<char>) -> Seq<char> {
    "["@ + timestamp + "] ["@ + level_label(level) + "] "@ + message + "\n"@
}

/// The log line of `event` written at time text `timestamp`.
pub fn format_log_line(timestamp: &str, event: &LogEvent) -> (r: String)
    ensures
        r@ == log_line(timestamp@, event.level, event.message@),
{
    let mut out = String::from_str("[");
    out.append(timestamp);
    out.append("] [");
    out.append(event.level.label());
    out.append("] ");
    out.append(event.message.as_str());
    out.append("\n");
    out
}

/// The log line of `event` written at `secs` seconds after the Unix epoch; `None`
/// when chrono cannot represent that instant.
pub fn log_line_at(secs: i64, event: &LogEvent) -> (r: Option<String>)
    ensures
        0 <= secs <= LAST_SECOND_OF_9999 ==> r is Some,
        r matches Some(line) ==> line@ == log_line(
            utc_timestamp_text(secs as int),
            event.level,
            event.message@,
        ),
{
    match utc_timestamp(secs) {
        Some(t) => Some(format_log_line(t.as_str(), event)),
        None => None,
    }
}

} // verus!
