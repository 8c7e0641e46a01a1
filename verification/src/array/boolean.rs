//! Array with boolean values.

use crate::array::Array;
use crate::bitmap::{all_set, Bitmap, BitmapRef, BitmapRefMut, ValidityBitmap};
use crate::bits::bytes_for;
use crate::buffer::{BufferRef, BufferRefMut};
use crate::collection::Collection;
use crate::nullable::{all_present, Nullable};
use crate::validity::Validity;
use vstd::prelude::*;
use vstd::std_specs::convert::FromSpecImpl;

verus! {

/// Array with boolean values, one bit each.
///
/// Without nulls the storage is a bitmap of the values. With nulls it is
/// that bitmap and a second one of the same length for the validity; the
/// value bit of a null item is cleared when the item is stored.
pub struct BooleanArray<const NULLABLE: bool>(
    pub <Bitmap as Validity<NULLABLE>>::Storage,
) where Bitmap: Validity<NULLABLE>;

impl<const NULLABLE: bool> Array for BooleanArray<NULLABLE> where Bitmap: Validity<NULLABLE> {

}

impl<const NULLABLE: bool> Collection for BooleanArray<NULLABLE> where
    Bitmap: Validity<NULLABLE>,
    <Bitmap as Validity<NULLABLE>>::Storage: Collection,
 {
    type Item = <<Bitmap as Validity<NULLABLE>>::Storage as Collection>::Item;

    open spec fn wf(&self) -> bool {
        self.0.wf()
    }

    open spec fn items(&self) -> Seq<Self::Item> {
        self.0.items()
    }

    open spec fn canonical(&self) -> bool {
        self.0.canonical()
    }

    fn len(&self) -> (n: usize) {
        self.0.len()
    }

    fn from_iter(iter: Vec<Self::Item>) -> (r: Self) {
        BooleanArray(Collection::from_iter(iter))
    }

    fn extend(&mut self, iter: Vec<Self::Item>) {
        self.0.extend(iter)
    }

    fn iter(&self) -> (r: Vec<Self::Item>) {
        self.0.iter()
    }

    fn into_iter(self) -> (r: Vec<Self::Item>) {
        self.0.into_iter()
    }
}

impl<const NULLABLE: bool> Default for BooleanArray<NULLABLE> where
    Bitmap: Validity<NULLABLE>,
    <Bitmap as Validity<NULLABLE>>::Storage: Collection,
 {
    /// An empty array.
    fn default() -> (r: Self)
        ensures
            r.wf(),
            r.canonical(),
            r.items() == Seq::<<Self as Collection>::Item>::empty(),
    {
        BooleanArray(Collection::from_iter(Vec::new()))
    }
}

impl<const NULLABLE: bool> BufferRef<u8> for BooleanArray<NULLABLE> where
    Bitmap: Validity<NULLABLE>,
    <Bitmap as Validity<NULLABLE>>::Storage: BufferRef<u8>,
 {
    open spec fn buffer(&self) -> Seq<u8> {
        self.0.buffer()
    }

    open spec fn items_with(&self, buffer: Seq<u8>) -> Seq<Self::Item> {
        self.0.items_with(buffer)
    }

    proof fn lemma_items_with_buffer(&self) {
        self.0.lemma_items_with_buffer();
    }

    /// Lends out the packed bytes of the values.
    fn buffer_ref(&self) -> (r: &[u8]) {
        self.0.buffer_ref()
    }
}

impl<const NULLABLE: bool> BufferRefMut<u8> for BooleanArray<NULLABLE> where
    Bitmap: Validity<NULLABLE>,
    <Bitmap as Validity<NULLABLE>>::Storage: BufferRefMut<u8>,
 {
    /// Lends out the packed bytes of the values for writing.
    fn buffer_ref_mut(&mut self) -> (r: &mut [u8]) {
        self.0.buffer_ref_mut()
    }
}

impl From<BooleanArray<false>> for BooleanArray<true> {
    /// Promotes an array without nulls to one with nulls in which every item
    /// is valid: the values stay, and the validity bitmap has one set bit
    /// for each of them.
    fn from(value: BooleanArray<false>) -> (r: Self)
        ensures
            value.wf() ==> r.wf(),
            value.canonical() ==> r.canonical(),
            r.0.data == value.0,
            r.0.validity@ == Seq::new(value.items().len(), |i: int| true),
            r.0.validity.bytes().len() == bytes_for(value.items().len()),
            all_set(r.0.validity@),
            all_present(r.items()),
    {
        BooleanArray(Nullable::wrap(value.0))
    }
}

impl FromSpecImpl<BooleanArray<false>> for BooleanArray<true> {
    open spec fn obeys_from_spec() -> bool {
        false
    }

    open spec fn from_spec(v: BooleanArray<false>) -> Self {
        arbitrary()
    }
}

impl BitmapRef for BooleanArray<true> {
    open spec fn bitmap(&self) -> Bitmap {
        self.0.validity
    }

    fn bitmap_ref(&self) -> (r: &Bitmap) {
        self.0.bitmap_ref()
    }
}

impl BitmapRefMut for BooleanArray<true> {
    /// Lends out the validity bitmap for writing; the values stay.
    fn bitmap_ref_mut(&mut self) -> (r: &mut Bitmap)
        ensures
            final(self).0.data == old(self).0.data,
    {
        self.0.bitmap_ref_mut()
    }
}

impl ValidityBitmap for BooleanArray<true> {
    /// Whether the item at `index` is present.
    fn is_valid(&self, index: usize) -> (r: Option<bool>)
        ensures
            r == (if index < self.items().len() {
                Some(self.items()[index as int].is_some())
            } else {
                None
            }),
    {
        self.0.is_valid(index)
    }

    /// Whether the item at `index` is absent.
    fn is_null(&self, index: usize) -> (r: Option<bool>)
        ensures
            r == (if index < self.items().len() {
                Some(self.items()[index as int].is_none())
            } else {
                None
            }),
    {
        self.0.is_null(index)
    }

    /// Whether every item is present.
    fn all_valid(&self) -> (r: bool)
        ensures
            r == all_present(self.items()),
    {
        self.0.all_valid()
    }
}

} // verus!
