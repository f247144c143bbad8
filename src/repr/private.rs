//! The seal that keeps the representation tags closed.
use vstd::prelude::*;

verus! {

/// Implemented only by the representation tags of this crate.
pub trait Sealed {

}

} // verus!
