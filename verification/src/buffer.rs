//! Contiguous buffers of values, and access to the buffer behind a storage.

use crate::collection::Collection;
use crate::fixed_size::{as_bytes, concat_bytes, ByteOrder, FixedSize};
use vstd::prelude::*;

verus! {

/// A storage that lends out the buffer in which its items lie.
pub trait BufferRef<T>: Collection {
    /// The contents of the buffer.
    spec fn buffer(&self) -> Seq<T>;

    /// The items that the storage would hold if its buffer read `buffer`.
    spec fn items_with(&self, buffer: Seq<T>) -> Seq<Self::Item>;

    /// The items are those that the storage holds with its own buffer.
    proof fn lemma_items_with_buffer(&self)
        ensures
            self.items_with(self.buffer()) == self.items(),
    ;

    /// Lends out the buffer.
    fn buffer_ref(&self) -> (r: &[T])
        ensures
            r@ == self.buffer(),
    ;
}

/// A storage that lends out its buffer for writing.
///
/// The items afterwards are those that the new contents of the buffer stand
/// for. A slice keeps its length, so whatever is written through the borrow
/// leaves a well-formed storage well formed and the number of items as it
/// was.
pub trait BufferRefMut<T>: BufferRef<T> {
    /// Lends out the buffer for writing.
    fn buffer_ref_mut(&mut self) -> (r: &mut [T])
        ensures
            r@ == old(self).buffer(),
            final(self).buffer() == final(r)@,
            final(self).items() == old(self).items_with(final(r)@),
            final(r)@.len() == r@.len() ==> final(self).items().len() == old(self).items().len(),
            final(r)@.len() == r@.len() && old(self).wf() ==> final(self).wf(),
    ;
}

/// A growable buffer of values that lie one after the other in memory.
#[derive(Debug)]
pub struct VecBuffer<T>(Vec<T>);

impl<T> View for VecBuffer<T> {
    type V = Seq<T>;

    /// The values, in order.
    closed spec fn view(&self) -> Seq<T> {
        self.0@
    }
}

impl<T> VecBuffer<T> {
    /// The values as a slice.
    pub fn as_slice(&self) -> (r: &[T])
        ensures
            r@ == self@,
    {
        self.0.as_slice()
    }
}

impl<T: FixedSize> VecBuffer<T> {
    /// The bytes of the buffer as they lie in memory: the bytes of each
    /// value in the byte order of the target, one value after the other.
    /// The order is one of the two, and the same for every value.
    pub fn as_bytes(&self) -> (r: Vec<u8>)
        ensures
            r@ == concat_bytes(self@, ByteOrder::LittleEndian) || r@ == concat_bytes(
                self@,
                ByteOrder::BigEndian,
            ),
    {
        as_bytes(self.0.as_slice())
    }
}

impl<T: Copy> Collection for VecBuffer<T> {
    type Item = T;

    open spec fn wf(&self) -> bool {
        true
    }

    open spec fn items(&self) -> Seq<T> {
        self@
    }

    open spec fn canonical(&self) -> bool {
        true
    }

    fn len(&self) -> (n: usize) {
        self.0.len()
    }

    fn from_iter(iter: Vec<T>) -> (r: Self) {
        VecBuffer(iter)
    }

    fn extend(&mut self, iter: Vec<T>) {
        let mut iter = iter;
        self.0.append(&mut iter);
    }

    fn iter(&self) -> (r: Vec<T>) {
        let mut r: Vec<T> = Vec::new();
        let mut i: usize = 0;
        while i < self.0.len()
            invariant
                i <= self@.len(),
                r@ == self@.take(i as int),
            decreases self@.len() - i,
        {
            r.push(self.0[i]);
            i = i + 1;
        }
        r
    }

    fn into_iter(self) -> (r: Vec<T>) {
        self.0
    }
}

impl<T: Copy> Default for VecBuffer<T> {
    /// An empty buffer.
    fn default() -> (r: Self)
        ensures
            r@ == Seq::<T>::empty(),
    {
        VecBuffer(Vec::new())
    }
}

impl<T: Copy> BufferRef<T> for VecBuffer<T> {
    open spec fn buffer(&self) -> Seq<T> {
        self@
    }

    open spec fn items_with(&self, buffer: Seq<T>) -> Seq<T> {
        buffer
    }

    proof fn lemma_items_with_buffer(&self) {
    }

    fn buffer_ref(&self) -> (r: &[T]) {
        self.0.as_slice()
    }
}

impl<T: Copy> BufferRefMut<T> for VecBuffer<T> {
    fn buffer_ref_mut(&mut self) -> (r: &mut [T]) {
        self.0.as_mut_slice()
    }
}

} // verus!
