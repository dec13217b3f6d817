use vstd::prelude::*;

verus! {

/// The error of an insertion that found no room left. It carries the
/// rejected value back to the caller unchanged.
#[derive(Debug, PartialEq, Eq)]
pub struct CapacityError<T> {
    element: T,
}

impl<T> CapacityError<T> {
    /// The value that was rejected.
    pub closed spec fn spec_element(&self) -> T {
        self.element
    }

    /// Wraps the value that did not fit.
    pub fn new(element: T) -> (r: Self)
        ensures
            r.spec_element() == element,
    {
        CapacityError { element }
    }

    /// Hands the rejected value back.
    pub fn element(self) -> (r: T)
        ensures
            r == self.spec_element(),
    {
        self.element
    }
}

} // verus!
