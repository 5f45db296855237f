//! The weak-reference side of the collector binding.
use vstd::prelude::*;

verus! {

/// Reads and updates the referents of weak references.
#[derive(Debug)]
pub struct VMReferenceGlue {}

} // verus!
