//! The policy of the process-wide diagnostic hook.
//!
//! The engine calls one global logger with a level and a message.  The
//! policy decides, per level, whether the message is discarded, written to
//! the host's error stream, or written and followed by immediate process
//! termination.  Rendering the message and terminating the process are the
//! foreign layer's work; the decision is verified here.

use vstd::prelude::*;

verus! {

/// The engine's log levels, mirrored as a closed enumeration.
#[derive(Copy, Clone, Debug, PartialEq, Eq, Structural)]
pub enum LogLevel {
    /// No logging at all.
    Silent,
    /// Simulated program output.
    Output,
    /// The engine is no longer in a well-defined state.
    Error,
    /// Something went wrong but execution can continue.
    Warning,
    /// Tracing chatter.
    Trace,
    /// Debugging chatter.
    Debug,
}

/// What the diagnostic hook does with one log event.
#[derive(Copy, Clone, Debug, PartialEq, Eq, Structural)]
pub enum LogAction {
    /// Drop the message.
    Discard,
    /// Write the message to the error stream and continue.
    Warn,
    /// Write the message to the error stream and terminate the process:
    /// an engine error is non-recoverable by design.
    Fatal,
}

/// The fail-fast policy of the hook: warnings are surfaced and execution
/// continues; engine errors are surfaced and end the process; everything
/// else is discarded.
pub open spec fn spec_log_action(level: LogLevel) -> LogAction {
    match level {
        LogLevel::Error => LogAction::Fatal,
        LogLevel::Warning => LogAction::Warn,
        _ => LogAction::Discard,
    }
}

/// Decides what to do with a log event of the given level.
pub fn log_action(level: LogLevel) -> (action: LogAction)
    ensures
        action == spec_log_action(level),
{
    match level {
        LogLevel::Error => LogAction::Fatal,
        LogLevel::Warning => LogAction::Warn,
        LogLevel::Silent => LogAction::Discard,
        LogLevel::Output => LogAction::Discard,
        LogLevel::Trace => LogAction::Discard,
        LogLevel::Debug => LogAction::Discard,
    }
}

} // verus!
