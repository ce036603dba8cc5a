//! Keeps the set of method tags closed.

use vstd::prelude::*;

verus! {

/// Implemented by the method tags of this crate and by nothing else.
pub trait Sealed {

}

} // verus!
