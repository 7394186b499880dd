//! The prototype's logging configuration: the values the log layer is set
//! up with.  Installing them into an engine is the surrounding program's
//! job; the library only states what they are.

use vstd::prelude::*;

verus! {

/// Severity threshold of the log output.
#[derive(Clone, Copy, Debug, PartialEq, Eq, Structural)]
pub enum LogLevel {
    Error,
    Warn,
    Info,
    Debug,
    Trace,
}

/// The log setup of the prototype.
pub struct Logger;

impl Logger {
    /// The global severity threshold.
    pub fn level() -> (l: LogLevel)
        ensures
            l == LogLevel::Info,
    {
        LogLevel::Info
    }

    /// The per-module filter directives.
    pub fn filter() -> (f: &'static str)
        ensures
            f@ == "wgpu=error,bevy_render=info,libracity=trace"@,
    {
        "wgpu=error,bevy_render=info,libracity=trace"
    }

    /// Whether diagnostic logging is turned on.
    pub fn diagnostics() -> (d: bool)
        ensures
            d,
    {
        true
    }
}

} // verus!
