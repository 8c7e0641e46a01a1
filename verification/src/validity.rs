//! The choice between plain and nullable storage, made by a flag in the type.

use crate::nullable::Nullable;
use vstd::prelude::*;

verus! {

/// Selects the storage for the items of `Self` by the flag `NULLABLE`.
///
/// With the flag off the storage is `Self` and nothing more; with the flag
/// on it is `Self` paired with a validity bitmap. An array takes its one
/// field from here, so an array that cannot hold nulls pays for none.
pub trait Validity<const NULLABLE: bool> {
    /// The storage that the flag selects.
    type Storage;
}

impl<D> Validity<false> for D {
    type Storage = D;
}

impl<D> Validity<true> for D {
    type Storage = Nullable<D>;
}

} // verus!
