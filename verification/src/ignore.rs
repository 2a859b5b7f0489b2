//! Dropping a result on purpose.

use vstd::prelude::*;

verus! {

/// A result whose outcome does not matter.
pub trait IgnoreType {
    /// Drops the result.
    fn ignore_type(self);
}

impl<T, E> IgnoreType for Result<T, E> {
    fn ignore_type(self) {
        let _ = self;
    }
}

} // verus!
