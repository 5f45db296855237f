//! The collection side of the collector binding.
use vstd::prelude::*;

verus! {

/// Stops and resumes the mutator threads around a collection.
#[derive(Debug)]
pub struct VMCollection {}

} // verus!
