//! A mutable cell for flags shared between the engine and its host, such as
//! an action's license and a driver's shutdown request.

use vstd::prelude::*;

verus! {

/// A mutable cell exposing get and set of a value.
///
/// The engine uses it for boolean flags: an action's license and the
/// driver's shutdown request. Concurrent hosts guard a whole engine value
/// behind their own lock; the cell itself is plain state.
#[derive(Debug, Clone)]
pub struct Signal<T>(T);

impl<T> Signal<T> {
    /// The value currently held by the cell.
    pub closed spec fn SpecValue(&self) -> T {
        self.0
    }

    pub fn New(Value: T) -> (r: Self)
        ensures
            r.SpecValue() == Value,
    {
        Signal(Value)
    }

    /// Read the current value.
    pub fn Get(&self) -> (r: T) where T: Copy
        ensures
            r == self.SpecValue(),
    {
        self.0
    }

    /// Replace the current value.
    pub fn Put(&mut self, To: T)
        ensures
            final(self).SpecValue() == To,
    {
        self.0 = To;
    }
}

} // verus!
