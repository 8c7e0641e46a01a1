//! The kinds of array.

use vstd::prelude::*;

pub mod boolean;
pub mod fixed_size_primitive;
pub mod null;

verus! {

/// Marks the types that are arrays, whatever their storage.
pub trait Array {

}

} // verus!
