//! The seal of the builder's states.

use crate::builder::{LayerOnly, Paired};
use vstd::prelude::*;

verus! {

/// Implemented for the two states of the builder and for nothing else.
pub trait Sealed {
}

impl Sealed for LayerOnly {
}

impl Sealed for Paired {
}

} // verus!
