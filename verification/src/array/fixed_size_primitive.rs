//! Array with values of a fixed size.

use crate::array::Array;
use crate::bitmap::{all_set, Bitmap, BitmapRef, BitmapRefMut, ValidityBitmap};
use crate::bits::bytes_for;
use crate::buffer::{BufferRef, BufferRefMut, VecBuffer};
use crate::collection::Collection;
use crate::fixed_size::{as_bytes, concat_bytes, ByteOrder, FixedSize};
use crate::nullable::{all_present, Nullable};
use crate::validity::Validity;
use vstd::prelude::*;
use vstd::std_specs::convert::FromSpecImpl;

verus! {

/// Array with values of a fixed size, one after the other in a buffer.
///
/// Without nulls the storage is the buffer of the values. With nulls it is
/// that buffer and a validity bitmap of the same length; the slot of a null
/// item holds the default of `T`, and only the bitmap tells that it is
/// null.
pub struct FixedSizePrimitiveArray<T: FixedSize, const NULLABLE: bool>(
    pub <VecBuffer<T> as Validity<NULLABLE>>::Storage,
) where VecBuffer<T>: Validity<NULLABLE>;

/// Array with `i8` values.
pub type Int8Array<const NULLABLE: bool> = FixedSizePrimitiveArray<i8, NULLABLE>;

/// Array with `i16` values.
pub type Int16Array<const NULLABLE: bool> = FixedSizePrimitiveArray<i16, NULLABLE>;

/// Array with `i32` values.
pub type Int32Array<const NULLABLE: bool> = FixedSizePrimitiveArray<i32, NULLABLE>;

/// Array with `i64` values.
pub type Int64Array<const NULLABLE: bool> = FixedSizePrimitiveArray<i64, NULLABLE>;

/// Array with `u8` values.
pub type Uint8Array<const NULLABLE: bool> = FixedSizePrimitiveArray<u8, NULLABLE>;

/// Array with `u16` values.
pub type Uint16Array<const NULLABLE: bool> = FixedSizePrimitiveArray<u16, NULLABLE>;

/// Array with `u32` values.
pub type Uint32Array<const NULLABLE: bool> = FixedSizePrimitiveArray<u32, NULLABLE>;

/// Array with `u64` values.
pub type Uint64Array<const NULLABLE: bool> = FixedSizePrimitiveArray<u64, NULLABLE>;

/// Array with `isize` values.
pub type IsizeArray<const NULLABLE: bool> = FixedSizePrimitiveArray<isize, NULLABLE>;

/// Array with `usize` values.
pub type UsizeArray<const NULLABLE: bool> = FixedSizePrimitiveArray<usize, NULLABLE>;

impl<T: FixedSize, const NULLABLE: bool> Array for FixedSizePrimitiveArray<T, NULLABLE> where
    VecBuffer<T>: Validity<NULLABLE>,
 {

}

impl<T: FixedSize, const NULLABLE: bool> Collection for FixedSizePrimitiveArray<
    T,
    NULLABLE,
> where VecBuffer<T>: Validity<NULLABLE>, <VecBuffer<T> as Validity<NULLABLE>>::Storage: Collection {
    type Item = <<VecBuffer<T> as Validity<NULLABLE>>::Storage as Collection>::Item;

    open spec fn wf(&self) -> bool {
        self.0.wf()
    }

    open spec fn items(&self) -> Seq<Self::Item> {
        self.0.items()
    }

    open spec fn canonical(&self) -> bool {
        self.0.canonical()
    }

    fn len(&self) -> (n: usize) {
        self.0.len()
    }

    fn from_iter(iter: Vec<Self::Item>) -> (r: Self) {
        FixedSizePrimitiveArray(Collection::from_iter(iter))
    }

    fn extend(&mut self, iter: Vec<Self::Item>) {
        self.0.extend(iter)
    }

    fn iter(&self) -> (r: Vec<Self::Item>) {
        self.0.iter()
    }

    fn into_iter(self) -> (r: Vec<Self::Item>) {
        self.0.into_iter()
    }
}

impl<T: FixedSize, const NULLABLE: bool> Default for FixedSizePrimitiveArray<T, NULLABLE> where
    VecBuffer<T>: Validity<NULLABLE>,
    <VecBuffer<T> as Validity<NULLABLE>>::Storage: Collection,
 {
    /// An empty array.
    fn default() -> (r: Self)
        ensures
            r.wf(),
            r.canonical(),
            r.items() == Seq::<<Self as Collection>::Item>::empty(),
    {
        FixedSizePrimitiveArray(Collection::from_iter(Vec::new()))
    }
}

impl<T: FixedSize, const NULLABLE: bool> BufferRef<T> for FixedSizePrimitiveArray<
    T,
    NULLABLE,
> where VecBuffer<T>: Validity<NULLABLE>, <VecBuffer<T> as Validity<NULLABLE>>::Storage: BufferRef<T> {
    open spec fn buffer(&self) -> Seq<T> {
        self.0.buffer()
    }

    open spec fn items_with(&self, buffer: Seq<T>) -> Seq<Self::Item> {
        self.0.items_with(buffer)
    }

    proof fn lemma_items_with_buffer(&self) {
        self.0.lemma_items_with_buffer();
    }

    /// Lends out the buffer of the values.
    fn buffer_ref(&self) -> (r: &[T]) {
        self.0.buffer_ref()
    }
}

impl<T: FixedSize, const NULLABLE: bool> BufferRefMut<T> for FixedSizePrimitiveArray<
    T,
    NULLABLE,
> where VecBuffer<T>: Validity<NULLABLE>, <VecBuffer<T> as Validity<NULLABLE>>::Storage: BufferRefMut<T> {
    /// Lends out the buffer of the values for writing.
    fn buffer_ref_mut(&mut self) -> (r: &mut [T]) {
        self.0.buffer_ref_mut()
    }
}

impl<T: FixedSize, const NULLABLE: bool> FixedSizePrimitiveArray<T, NULLABLE> where
    VecBuffer<T>: Validity<NULLABLE>,
    <VecBuffer<T> as Validity<NULLABLE>>::Storage: BufferRef<T>,
 {
    /// The bytes of the buffer as they lie in memory: the bytes of each
    /// value in the byte order of the target, one value after the other.
    /// The order is one of the two, and the same for every value.
    pub fn as_bytes(&self) -> (r: Vec<u8>)
        ensures
            r@ == concat_bytes(self.buffer(), ByteOrder::LittleEndian) || r@ == concat_bytes(
                self.buffer(),
                ByteOrder::BigEndian,
            ),
    {
        as_bytes(self.0.buffer_ref())
    }
}

impl<T: FixedSize> From<FixedSizePrimitiveArray<T, false>> for FixedSizePrimitiveArray<T, true> {
    /// Promotes an array without nulls to one with nulls in which every item
    /// is valid: the values stay, and the validity bitmap has one set bit
    /// for each of them.
    fn from(value: FixedSizePrimitiveArray<T, false>) -> (r: Self)
        ensures
            r.0.data == value.0,
            r.0.validity.wf(),
            r.0.validity.canonical(),
            r.0.validity@ == Seq::new(value.0@.len(), |i: int| true),
            r.0.validity.bytes().len() == bytes_for(value.0@.len()),
            all_set(r.0.validity@),
    {
        FixedSizePrimitiveArray(Nullable::wrap(value.0))
    }
}

impl<T: FixedSize> FromSpecImpl<FixedSizePrimitiveArray<T, false>> for FixedSizePrimitiveArray<T, true> {
    open spec fn obeys_from_spec() -> bool {
        false
    }

    open spec fn from_spec(v: FixedSizePrimitiveArray<T, false>) -> Self {
        arbitrary()
    }
}

impl<T: FixedSize> BitmapRef for FixedSizePrimitiveArray<T, true> {
    open spec fn bitmap(&self) -> Bitmap {
        self.0.validity
    }

    fn bitmap_ref(&self) -> (r: &Bitmap) {
        self.0.bitmap_ref()
    }
}

impl<T: FixedSize> BitmapRefMut for FixedSizePrimitiveArray<T, true> {
    /// Lends out the validity bitmap for writing; the values stay.
    fn bitmap_ref_mut(&mut self) -> (r: &mut Bitmap)
        ensures
            final(self).0.data == old(self).0.data,
    {
        self.0.bitmap_ref_mut()
    }
}

impl<T: FixedSize + Default> ValidityBitmap for FixedSizePrimitiveArray<T, true> {
    /// Whether the item at `index` is present.
    fn is_valid(&self, index: usize) -> (r: Option<bool>)
        ensures
            r == (if index < self.items().len() {
                Some(self.items()[index as int].is_some())
            } else {
                None
            }),
    {
        self.0.is_valid(index)
    }

    /// Whether the item at `index` is absent.
    fn is_null(&self, index: usize) -> (r: Option<bool>)
        ensures
            r == (if index < self.items().len() {
                Some(self.items()[index as int].is_none())
            } else {
                None
            }),
    {
        self.0.is_null(index)
    }

    /// Whether every item is present.
    fn all_valid(&self) -> (r: bool)
        ensures
            r == all_present(self.items()),
    {
        self.0.all_valid()
    }
}

} // verus!
