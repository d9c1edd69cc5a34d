//! The failures a caller of the bridge can observe.

use vstd::prelude::*;

verus! {

/// Why the bridge stopped, or could not start.
///
/// The four engine-side variants carry the native status code of the call
/// that failed, so the root cause survives the trip across the thread
/// boundary.
#[derive(Clone, Copy, Debug, PartialEq, Eq, Structural)]
pub enum DebuggerError {
    /// The worker thread or its private runtime could not be created.
    Launch,
    /// The engine handle could not be established.
    Connection(i32),
    /// Pumping the engine's pending callbacks failed.
    Pump(i32),
    /// Querying the engine while translating a notification failed.
    Translation(i32),
    /// A command handler failed.
    Dispatch(i32),
    /// The worker is gone and no more specific cause is known.
    TargetExited,
}

impl DebuggerError {
    /// True for the failures that arise on the worker thread and end its loop.
    pub open spec fn is_engine_failure(self) -> bool {
        self is Connection || self is Pump || self is Translation || self is Dispatch
    }

    /// The native status code of an engine-side failure, if there is one.
    pub open spec fn spec_native_code(self) -> Option<i32> {
        match self {
            DebuggerError::Connection(code) => Some(code),
            DebuggerError::Pump(code) => Some(code),
            DebuggerError::Translation(code) => Some(code),
            DebuggerError::Dispatch(code) => Some(code),
            DebuggerError::Launch => None,
            DebuggerError::TargetExited => None,
        }
    }

    /// The native status code behind this error; `None` for the two
    /// caller-side failures.
    pub fn native_code(&self) -> (code: Option<i32>)
        ensures
            code == self.spec_native_code(),
            code is Some <==> self.is_engine_failure(),
    {
        match self {
            DebuggerError::Connection(code) => Some(*code),
            DebuggerError::Pump(code) => Some(*code),
            DebuggerError::Translation(code) => Some(*code),
            DebuggerError::Dispatch(code) => Some(*code),
            DebuggerError::Launch => None,
            DebuggerError::TargetExited => None,
        }
    }
}

} // verus!
