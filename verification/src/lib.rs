//! Heap-object layouts of the GHC runtime and the garbage-collector scanning
//! rules that find the pointers inside them.
#![allow(non_snake_case)]
#![allow(non_camel_case_types)]
#![allow(non_upper_case_globals)]

pub mod types;
pub mod util;
pub mod stg_info_table;
pub mod stg_closures;
pub mod object_scanning;
pub mod scanning;
pub mod collection;
pub mod reference_glue;
pub mod trace;

use vstd::prelude::*;

verus! {

/// The virtual machine that the collector is bound to.
#[derive(Default)]
pub struct GHCVM;

} // verus!
