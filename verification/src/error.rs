//! Why an action did not run to its end.

use vstd::prelude::*;

verus! {

/// The operations that the library asks of the platform's window service.
#[derive(Clone, Copy, Debug, PartialEq, Eq, Structural)]
pub enum OsOperation {
    EnumerateMonitors,
    ForegroundWindow,
    ForegroundExecutable,
    WorkArea,
    ShowWindow,
    WindowFrame,
    SetWindowPos,
    CursorPosition,
    SetCursorPosition,
}

/// The ways in which an action fails. To the user a failed action is a
/// hotkey that did nothing.
#[derive(Clone, Copy, Debug, PartialEq, Eq, Structural)]
pub enum ActionError {
    /// A call into the platform failed; the value says which one.
    OsApiFailure(OsOperation),
    /// There is no foreground window to act on.
    NoForegroundWindow,
    /// The monitor of the foreground window is not among the monitors that
    /// were enumerated.
    NoMatchingMonitor,
    /// The foreground window belongs to a program that is excluded from
    /// the action.
    ExcludedProcess,
    /// A computed position or extent is not a 32-bit coordinate.
    CoordinateOverflow,
}

impl ActionError {
    /// The platform operation that failed, for the errors that stem from
    /// one. Having no foreground window is a failure to find it.
    pub open spec fn spec_operation(&self) -> Option<OsOperation> {
        match *self {
            ActionError::OsApiFailure(operation) => Some(operation),
            ActionError::NoForegroundWindow => Some(OsOperation::ForegroundWindow),
            _ => None,
        }
    }

    /// The platform operation that failed, if the error stems from one.
    #[verifier::when_used_as_spec(spec_operation)]
    pub fn operation(&self) -> (operation: Option<OsOperation>)
        ensures
            operation == self.spec_operation(),
    {
        match *self {
            ActionError::OsApiFailure(operation) => Some(operation),
            ActionError::NoForegroundWindow => Some(OsOperation::ForegroundWindow),
            _ => None,
        }
    }
}

} // verus!
