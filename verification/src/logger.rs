//! The level from which log records are kept.

use crate::config::LoggingConfig;
use crate::text::same_text;
use vstd::prelude::*;

verus! {

/// The levels of log records, from the most to the least verbose.
#[derive(Debug, Clone, Copy, PartialEq, Eq, Structural)]
pub enum LogLevel {
    Trace,
    Debug,
    Info,
    Warn,
    Error,
}

/// The lowercase form of a text, as `str::to_lowercase` gives it.
pub uninterp spec fn lowercase_of(s: Seq<char>) -> Seq<char>;

/// Calls `str::to_lowercase`, which gives the lowercase equivalent of the
/// text as a new string.
#[verifier::external_body]
fn lowercase(s: &str) -> (lowered: String)
    ensures
        lowered@ == lowercase_of(s@),
{
    s.to_lowercase()
}

/// The level that a name in lowercase stands for; a name that is not
/// known stands for `Info`.
pub open spec fn level_named(lowered: Seq<char>) -> LogLevel {
    if lowered == "trace"@ {
        LogLevel::Trace
    } else if lowered == "debug"@ {
        LogLevel::Debug
    } else if lowered == "info"@ {
        LogLevel::Info
    } else if lowered == "warn"@ {
        LogLevel::Warn
    } else if lowered == "error"@ {
        LogLevel::Error
    } else {
        LogLevel::Info
    }
}

/// The level that a name in lowercase stands for.
pub fn level_for_name(lowered: &str) -> (level: LogLevel)
    ensures
        level == level_named(lowered@),
{
    if same_text(lowered, "trace") {
        LogLevel::Trace
    } else if same_text(lowered, "debug") {
        LogLevel::Debug
    } else if same_text(lowered, "info") {
        LogLevel::Info
    } else if same_text(lowered, "warn") {
        LogLevel::Warn
    } else if same_text(lowered, "error") {
        LogLevel::Error
    } else {
        LogLevel::Info
    }
}

/// The level that a logging configuration asks for, whatever the case in
/// which it is written.
pub fn configured_level(logging: &LoggingConfig) -> (level: LogLevel)
    ensures
        level == level_named(lowercase_of(logging.level@)),
{
    let lowered = lowercase(logging.level.as_str());
    level_for_name(lowered.as_str())
}

} // verus!
