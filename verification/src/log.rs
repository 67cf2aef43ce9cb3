//! Logging configuration carried by the core.
//!
//! The core itself never prints; a host that wants diagnostics reads the
//! configured level and does its own output.

use vstd::prelude::*;

verus! {

/// Verbosity threshold, from quietest to noisiest.
#[derive(Clone, Copy, Debug, PartialEq, Eq, Structural)]
pub enum LogLevel {
    Silent,
    Info,
    Warning,
    Error,
    Disassembly,
}

/// Logging configuration: only the chosen verbosity level.
#[derive(Clone, Copy, Debug, PartialEq, Eq, Structural)]
pub struct Logger {
    pub level: LogLevel,
}

} // verus!
