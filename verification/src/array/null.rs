//! A sequence of nulls.

use crate::array::Array;
use crate::bitmap::{all_set, Bitmap, BitmapRef, BitmapRefMut, ValidityBitmap};
use crate::bits::bytes_for;
use crate::collection::Collection;
use crate::nullable::{all_present, Nullable};
use crate::validity::Validity;
use core::marker::PhantomData;
use vstd::prelude::*;
use vstd::std_specs::convert::FromSpecImpl;

verus! {

/// A type with one value only, which its `Default` returns.
///
/// Whoever implements the trait certifies this with `sole_value`: any two
/// values of the type are equal. For a type without fields the proof is
/// empty.
pub trait Unit: Default + Send + Sync + 'static {
    /// The type has one value only.
    proof fn sole_value(a: Self, b: Self)
        ensures
            a == b,
    ;
}

impl Unit for () {
    proof fn sole_value(a: Self, b: Self) {
    }
}

/// The one value of a unit type.
pub open spec fn unit<T: Unit>() -> T {
    arbitrary()
}

/// The sequence of `len` times the one value of `T`.
pub open spec fn units<T: Unit>(len: nat) -> Seq<T> {
    Seq::new(len, |i: int| unit::<T>())
}

/// Array of items that carry nothing but their number and their type.
///
/// Without nulls the storage is a count. With nulls it is that count and a
/// validity bitmap of the same length.
pub struct NullArray<T: Unit, const NULLABLE: bool>(
    pub <Nulls<T> as Validity<NULLABLE>>::Storage,
) where Nulls<T>: Validity<NULLABLE>;

impl<T: Unit, const NULLABLE: bool> Array for NullArray<T, NULLABLE> where
    Nulls<T>: Validity<NULLABLE>,
 {

}

impl<T: Unit, const NULLABLE: bool> Collection for NullArray<T, NULLABLE> where
    Nulls<T>: Validity<NULLABLE>,
    <Nulls<T> as Validity<NULLABLE>>::Storage: Collection,
 {
    type Item = <<Nulls<T> as Validity<NULLABLE>>::Storage as Collection>::Item;

    open spec fn wf(&self) -> bool {
        self.0.wf()
    }

    open spec fn items(&self) -> Seq<Self::Item> {
        self.0.items()
    }

    open spec fn canonical(&self) -> bool {
        self.0.canonical()
    }

    fn len(&self) -> (n: usize) {
        self.0.len()
    }

    fn from_iter(iter: Vec<Self::Item>) -> (r: Self) {
        NullArray(Collection::from_iter(iter))
    }

    fn extend(&mut self, iter: Vec<Self::Item>) {
        self.0.extend(iter)
    }

    fn iter(&self) -> (r: Vec<Self::Item>) {
        self.0.iter()
    }

    fn into_iter(self) -> (r: Vec<Self::Item>) {
        self.0.into_iter()
    }
}

impl<T: Unit, const NULLABLE: bool> Default for NullArray<T, NULLABLE> where
    Nulls<T>: Validity<NULLABLE>,
    <Nulls<T> as Validity<NULLABLE>>::Storage: Collection,
 {
    /// An empty array.
    fn default() -> (r: Self)
        ensures
            r.wf(),
            r.canonical(),
            r.items() == Seq::<<Self as Collection>::Item>::empty(),
    {
        NullArray(Collection::from_iter(Vec::new()))
    }
}

impl<T: Unit + Copy> From<NullArray<T, false>> for NullArray<T, true> {
    /// Promotes an array without nulls to one with nulls in which every item
    /// is valid: the count stays, and the validity bitmap has one set bit
    /// for each item, in as many bytes as those bits need.
    fn from(value: NullArray<T, false>) -> (r: Self)
        ensures
            value.wf() ==> r.wf(),
            value.canonical() ==> r.canonical(),
            r.0.data == value.0,
            r.0.validity@ == Seq::new(value.items().len(), |i: int| true),
            r.0.validity.bytes().len() == bytes_for(value.items().len()),
            all_set(r.0.validity@),
            all_present(r.items()),
    {
        NullArray(Nullable::wrap(value.0))
    }
}

impl<T: Unit + Copy> FromSpecImpl<NullArray<T, false>> for NullArray<T, true> {
    open spec fn obeys_from_spec() -> bool {
        false
    }

    open spec fn from_spec(v: NullArray<T, false>) -> Self {
        arbitrary()
    }
}

impl<T: Unit> BitmapRef for NullArray<T, true> {
    open spec fn bitmap(&self) -> Bitmap {
        self.0.validity
    }

    fn bitmap_ref(&self) -> (r: &Bitmap) {
        self.0.bitmap_ref()
    }
}

impl<T: Unit> BitmapRefMut for NullArray<T, true> {
    /// Lends out the validity bitmap for writing; the count stays.
    fn bitmap_ref_mut(&mut self) -> (r: &mut Bitmap)
        ensures
            final(self).0.data == old(self).0.data,
    {
        self.0.bitmap_ref_mut()
    }
}

impl<T: Unit + Copy> ValidityBitmap for NullArray<T, true> {
    /// Whether the item at `index` is present.
    fn is_valid(&self, index: usize) -> (r: Option<bool>)
        ensures
            r == (if index < self.items().len() {
                Some(self.items()[index as int].is_some())
            } else {
                None
            }),
    {
        self.0.is_valid(index)
    }

    /// Whether the item at `index` is absent.
    fn is_null(&self, index: usize) -> (r: Option<bool>)
        ensures
            r == (if index < self.items().len() {
                Some(self.items()[index as int].is_none())
            } else {
                None
            }),
    {
        self.0.is_null(index)
    }

    /// Whether every item is present.
    fn all_valid(&self) -> (r: bool)
        ensures
            r == all_present(self.items()),
    {
        self.0.all_valid()
    }
}

/// A run of nulls: the number of items and nothing else. The items are
/// made when they are asked for.
#[derive(Debug)]
pub struct Nulls<T: Unit> {
    /// The number of null elements.
    len: usize,
    _ty: PhantomData<T>,
}

impl<T: Unit> Nulls<T> {
    /// The number of items.
    pub closed spec fn count(&self) -> nat {
        self.len as nat
    }
}

impl<T: Unit> Clone for Nulls<T> {
    fn clone(&self) -> (r: Self)
        ensures
            r == *self,
    {
        Nulls { len: self.len, _ty: PhantomData }
    }
}

impl<T: Unit> Copy for Nulls<T> {

}

impl<T: Unit> Default for Nulls<T> {
    /// An empty run.
    fn default() -> (r: Self)
        ensures
            r.count() == 0,
    {
        Nulls { len: 0, _ty: PhantomData }
    }
}

impl<T: Unit + Copy> Collection for Nulls<T> {
    type Item = T;

    open spec fn wf(&self) -> bool {
        true
    }

    /// As many times the one value of `T` as the run counts.
    open spec fn items(&self) -> Seq<T> {
        units::<T>(self.count())
    }

    open spec fn canonical(&self) -> bool {
        true
    }

    fn len(&self) -> (n: usize) {
        self.len
    }

    /// Counts the items of `iter` and keeps none.
    fn from_iter(iter: Vec<T>) -> (r: Self) {
        let r = Nulls { len: iter.len(), _ty: PhantomData };
        proof {
            assert forall|i: int| 0 <= i < iter@.len() implies iter@[i] == unit::<T>() by {
                T::sole_value(iter@[i], unit::<T>());
            }
        }
        r
    }

    /// Adds the number of items of `iter` to the count.
    fn extend(&mut self, iter: Vec<T>) {
        self.len = self.len + iter.len();
        proof {
            assert forall|i: int| 0 <= i < iter@.len() implies iter@[i] == unit::<T>() by {
                T::sole_value(iter@[i], unit::<T>());
            }
        }
    }

    /// Makes the default of `T` as many times as the run counts.
    fn iter(&self) -> (r: Vec<T>) {
        let mut r: Vec<T> = Vec::new();
        let mut i: usize = 0;
        while i < self.len
            invariant
                i <= self.len,
                r@ == units::<T>(i as nat),
            decreases self.len - i,
        {
            let value = T::default();
            proof {
                T::sole_value(value, unit::<T>());
            }
            r.push(value);
            i = i + 1;
        }
        r
    }

    fn into_iter(self) -> (r: Vec<T>) {
        self.iter()
    }
}

} // verus!
