//! An in-memory IR graph (types, constants, global objects) rebuilt from a
//! flat, handle-indexed image of a parsed bitcode module.
use vstd::prelude::*;

pub mod constant;
pub mod module;
pub mod name;
pub mod predicates;
pub mod types;

verus! {

} // verus!
