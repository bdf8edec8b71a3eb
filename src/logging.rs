//! Log verbosity names.

use vstd::prelude::*;
use crate::text::{ascii_lower, ascii_lowercase_text, same_text};

verus! {

/// How much the worker logs, least to most severe.
#[derive(Debug, Clone, Copy, PartialEq, Eq, Structural)]
pub enum LogLevel {
    Trace,
    Debug,
    Info,
    Warn,
    Error,
}

/// The level a name stands for, ignoring ASCII case; `info` for unknown names.
pub open spec fn level_named(name: Seq<char>) -> LogLevel {
    let l = ascii_lower(name);
    if l == "trace"@ {
        LogLevel::Trace
    } else if l == "debug"@ {
        LogLevel::Debug
    } else if l == "info"@ {
        LogLevel::Info
    } else if l == "warn"@ || l == "warning"@ {
        LogLevel::Warn
    } else if l == "error"@ {
        LogLevel::Error
    } else {
        LogLevel::Info
    }
}

pub fn parse_level(level: &str) -> (r: LogLevel)
    ensures
        r == level_named(level@),
{
    let l = ascii_lowercase_text(level);
    let s = l.as_str();
    if same_text(s, "trace") {
        LogLevel::Trace
    } else if same_text(s, "debug") {
        LogLevel::Debug
    } else if same_text(s, "info") {
        LogLevel::Info
    } else if same_text(s, "warn") || same_text(s, "warning") {
        LogLevel::Warn
    } else if same_text(s, "error") {
        LogLevel::Error
    } else {
        LogLevel::Info
    }
}

} // verus!
