//! The failure taxonomy shared by every component of the engine.

use vstd::prelude::*;
use vstd::string::StringExecFns;

verus! {

/// An error raised while validating, routing or executing an action.
///
/// `InvalidLicense` reports an authorization failure; `ExecutionError`
/// reports missing or malformed metadata, an unregistered operation, or an
/// operation's own failure. `RoutingError` and `CancellationError` are
/// reserved for routing and cancellation logic built on top of this core:
/// nothing here raises them, but workers and bridges may surface them
/// through the same channel.
#[derive(Debug, Clone, PartialEq, Eq)]
pub enum ActionError {
    InvalidLicense(String),
    ExecutionError(String),
    RoutingError(String),
    CancellationError(String),
}

impl ActionError {
    /// The reason string carried by the error, whichever variant it is.
    pub fn Reason(&self) -> (r: &String)
        ensures
            r@ == self.SpecReason(),
    {
        match self {
            ActionError::InvalidLicense(s) => s,
            ActionError::ExecutionError(s) => s,
            ActionError::RoutingError(s) => s,
            ActionError::CancellationError(s) => s,
        }
    }

    /// The reason string of the error, at the specification level.
    pub open spec fn SpecReason(&self) -> Seq<char> {
        match self {
            ActionError::InvalidLicense(s) => s@,
            ActionError::ExecutionError(s) => s@,
            ActionError::RoutingError(s) => s@,
            ActionError::CancellationError(s) => s@,
        }
    }

    /// A readable rendering of the error, in place of `Display`, which
    /// verified types cannot implement.
    pub fn Message(&self) -> (r: String)
        ensures
            self matches ActionError::InvalidLicense(s) ==> r@ == "Invalid license: "@ + s@,
            self matches ActionError::ExecutionError(s) ==> r@ == "Execution error: "@ + s@,
            self matches ActionError::RoutingError(s) ==> r@ == "Routing error: "@ + s@,
            self matches ActionError::CancellationError(s) ==> r@ == "Cancellation error: "@ + s@,
    {
        match self {
            ActionError::InvalidLicense(s) => String::from_str("Invalid license: ").concat(s.as_str()),
            ActionError::ExecutionError(s) => String::from_str("Execution error: ").concat(s.as_str()),
            ActionError::RoutingError(s) => String::from_str("Routing error: ").concat(s.as_str()),
            ActionError::CancellationError(s) => String::from_str("Cancellation error: ").concat(s.as_str()),
        }
    }
}

} // verus!
