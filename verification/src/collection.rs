//! What every storage of array elements offers: a length, construction from
//! a sequence of items, extension, and the production of its items in order.

use vstd::prelude::*;

verus! {

/// A finite sequence of items that only grows.
///
/// `items` is the sequence that the value stands for. Every operation is
/// stated over it, so the kinds of storage differ in their layout only.
pub trait Collection: Sized {
    /// The elements of the sequence.
    type Item: Copy;

    /// Whether the parts of the value fit together.
    spec fn wf(&self) -> bool;

    /// The items, in insertion order.
    spec fn items(&self) -> Seq<Self::Item>;

    /// Whether the value is laid out as construction and extension lay it
    /// out, also where no item tells: the padding bits of a bitmap are zero,
    /// and the slot of a null item holds the default of its type. Writing
    /// through a borrowed buffer or bitmap may end this; the items are read
    /// the same either way.
    spec fn canonical(&self) -> bool;

    /// The number of items.
    fn len(&self) -> (n: usize)
        ensures
            n == self.items().len(),
    ;

    /// Collects the items of `iter`, in order.
    fn from_iter(iter: Vec<Self::Item>) -> (r: Self)
        ensures
            r.wf(),
            r.canonical(),
            r.items() == iter@,
    ;

    /// Appends the items of `iter`, in order.
    fn extend(&mut self, iter: Vec<Self::Item>)
        requires
            old(self).wf(),
            old(self).items().len() + iter@.len() <= usize::MAX,
        ensures
            final(self).wf(),
            old(self).canonical() ==> final(self).canonical(),
            final(self).items() == old(self).items() + iter@,
    ;

    /// Produces the items in insertion order and leaves the value in place.
    fn iter(&self) -> (r: Vec<Self::Item>)
        requires
            self.wf(),
        ensures
            r@ == self.items(),
    ;

    /// Produces the items in insertion order and consumes the value.
    fn into_iter(self) -> (r: Vec<Self::Item>)
        requires
            self.wf(),
        ensures
            r@ == self.items(),
    ;
}

} // verus!
