//! Copies that are known to have the same view as what they were made from.
use vstd::prelude::*;

verus! {

/// Values that can be copied without changing what they stand for.
pub trait Replicate: View + Sized {
    /// A value with the same view.
    fn replicate(&self) -> (r: Self)
        ensures
            r@ == self@,
    ;
}

} // verus!
