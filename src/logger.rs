use vstd::prelude::*;

verus! {

/// The most verbose log level that is recorded.
#[derive(Clone, Copy, Debug, PartialEq, Eq, Structural)]
pub enum LogLevel {
    Off,
    Error,
    Warn,
    Info,
    Debug,
    Trace,
}

/// Directory that session log files are written to.
pub const DIR: &'static str = "proto";

/// Debug builds record everything; release builds record `Info` and above.
pub fn level_filter(debug_build: bool) -> (r: LogLevel)
    ensures
        r == if debug_build {
            LogLevel::Trace
        } else {
            LogLevel::Info
        },
{
    if debug_build {
        LogLevel::Trace
    } else {
        LogLevel::Info
    }
}

} // verus!
