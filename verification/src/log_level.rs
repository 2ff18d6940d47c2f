//! Verbosity levels accepted by the backend, as a closed enumeration mapped
//! to the exact integer codes the calling convention expects.

use vstd::prelude::*;

verus! {

/// Logging verbosity forwarded to backend entry points that accept one.
#[derive(Debug, Clone, Copy, PartialEq, Eq, Structural)]
pub enum LogLevel {
    Off,
    Critical,
    Error,
    Warn,
    Info,
    Debug,
    Trace,
}

impl LogLevel {
    /// The integer code the backend expects for this level.
    pub open spec fn spec_code(self) -> i32 {
        match self {
            LogLevel::Off => 0,
            LogLevel::Critical => 1,
            LogLevel::Error => 2,
            LogLevel::Warn => 3,
            LogLevel::Info => 4,
            LogLevel::Debug => 5,
            LogLevel::Trace => 6,
        }
    }

    /// Translate the level to the backend's integer code.
    pub fn code(self) -> (c: i32)
        ensures
            c == self.spec_code(),
    {
        match self {
            LogLevel::Off => 0,
            LogLevel::Critical => 1,
            LogLevel::Error => 2,
            LogLevel::Warn => 3,
            LogLevel::Info => 4,
            LogLevel::Debug => 5,
            LogLevel::Trace => 6,
        }
    }
}

} // verus!
