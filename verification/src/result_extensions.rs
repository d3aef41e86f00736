//! A small extension for results: swap the success and error sides.

use vstd::prelude::*;

verus! {

/// Swapping the sides of a result: `Ok` becomes `Err` and `Err` becomes `Ok`.
pub trait Invert<T, E>: Sized {
    /// The swapped result.
    spec fn spec_invert(self) -> Result<E, T>;

    fn invert(self) -> (r: Result<E, T>)
        ensures
            r == self.spec_invert(),
    ;
}

impl<T, E> Invert<T, E> for Result<T, E> {
    open spec fn spec_invert(self) -> Result<E, T> {
        match self {
            Ok(t) => Err(t),
            Err(e) => Ok(e),
        }
    }

    fn invert(self) -> (r: Result<E, T>) {
        match self {
            Ok(t) => Err(t),
            Err(e) => Ok(e),
        }
    }
}

} // verus!
