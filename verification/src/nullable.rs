//! Storage whose items may be null: plain storage paired with a validity
//! bitmap of the same length.

use crate::bitmap::{all_set, Bitmap, BitmapRef, BitmapRefMut, ValidityBitmap};
use crate::bits::bytes_for;
use crate::buffer::{BufferRef, BufferRefMut};
use crate::collection::Collection;
use vstd::prelude::*;

verus! {

/// Whether `value` is a value that `T::default()` returns.
pub open spec fn is_default<T: Default>(value: T) -> bool {
    call_ensures(T::default, (), value)
}

/// Whether `value` is what the data holds in the slot of `item`: the value
/// of an item that is present, the default in place of one that is absent.
pub open spec fn is_stored<T: Default>(item: Option<T>, value: T) -> bool {
    match item {
        Some(v) => value == v,
        None => is_default(value),
    }
}

/// Whether every item of `items` is present.
pub open spec fn all_present<T>(items: Seq<Option<T>>) -> bool {
    forall|i: int| 0 <= i < items.len() ==> (#[trigger] items[i]).is_some()
}

/// The validity bits of a sequence of optional items.
pub open spec fn validity_of<T>(items: Seq<Option<T>>) -> Seq<bool> {
    Seq::new(items.len(), |i: int| items[i].is_some())
}

/// The optional items that `values` and `validity` stand for, one for each
/// bit: item `i` is `values[i]` where bit `i` is set, and absent where it is
/// not.
pub open spec fn nullable_items<T>(values: Seq<T>, validity: Seq<bool>) -> Seq<Option<T>> {
    Seq::new(
        validity.len(),
        |i: int|
            if validity[i] {
                Some(values[i])
            } else {
                None
            },
    )
}

/// Storing optional items keeps, at every index, whether the item is
/// present and, where it is, its value: values and validity bits that stand
/// for `items` are the validity bits of `items` and hold the value of every
/// item that is present.
pub proof fn lemma_nullable_items_kept<T>(
    items: Seq<Option<T>>,
    values: Seq<T>,
    validity: Seq<bool>,
)
    requires
        nullable_items(values, validity) == items,
    ensures
        validity == validity_of(items),
        forall|i: int| 0 <= i < items.len() && items[i].is_some() ==> items[i] == Some(values[i]),
{
}

/// Values and validity bits made from `items` by the rule of storing stand
/// for `items` again, whatever the slots of the absent items hold.
pub proof fn lemma_nullable_items_of_stored<T: Default>(items: Seq<Option<T>>, values: Seq<T>)
    requires
        values.len() == items.len(),
        forall|i: int| 0 <= i < items.len() ==> is_stored(items[i], values[i]),
    ensures
        nullable_items(values, validity_of(items)) == items,
{
}

/// Plain storage `data` with a bitmap that tells which of its items are
/// valid. The slot of a null item still holds a value, the default of its
/// type; only the bitmap tells that the item is null.
pub struct Nullable<D> {
    /// The values, with one slot for every item, null or not.
    pub data: D,
    /// Bit `i` is set where item `i` is valid.
    pub validity: Bitmap,
}

impl<D: Collection> Nullable<D> {
    /// Promotes plain storage to nullable storage in which every item is
    /// valid. The data is not looked at: the bitmap has one set bit for each
    /// item, in as many bytes as those bits need.
    pub fn wrap(data: D) -> (r: Self)
        ensures
            r.data == data,
            r.validity.wf(),
            r.validity.canonical(),
            r.validity@ == Seq::new(data.items().len(), |i: int| true),
            r.validity.bytes().len() == bytes_for(data.items().len()),
            all_set(r.validity@),
    {
        let len = data.len();
        let mut validity = Bitmap::new();
        let mut i: usize = 0;
        while i < len
            invariant
                i <= len,
                validity.wf(),
                validity.is_packed(),
                validity@ == Seq::new(i as nat, |j: int| true),
            decreases len - i,
        {
            validity.push(true);
            i = i + 1;
        }
        Nullable { data, validity }
    }
}

/// Splits optional items into the values to store and their validity bits.
fn split<T: Copy + Default>(iter: Vec<Option<T>>) -> (r: (Vec<T>, Vec<bool>))
    ensures
        r.0@.len() == iter@.len(),
        forall|i: int| 0 <= i < iter@.len() ==> is_stored(iter@[i], #[trigger] r.0@[i]),
        r.1@ == validity_of(iter@),
{
    let mut values: Vec<T> = Vec::new();
    let mut bits: Vec<bool> = Vec::new();
    let mut i: usize = 0;
    while i < iter.len()
        invariant
            i <= iter@.len(),
            values@.len() == i,
            forall|j: int| 0 <= j < i ==> is_stored(iter@[j], #[trigger] values@[j]),
            bits@ == validity_of(iter@.take(i as int)),
        decreases iter@.len() - i,
    {
        match iter[i] {
            Some(value) => {
                values.push(value);
                bits.push(true);
            },
            None => {
                values.push(T::default());
                bits.push(false);
            },
        }
        i = i + 1;
    }
    (values, bits)
}

/// Joins values and validity bits into optional items.
fn join<T: Copy>(values: Vec<T>, validity: &Bitmap) -> (r: Vec<Option<T>>)
    requires
        validity.wf(),
        validity@.len() == values@.len(),
    ensures
        r@ == nullable_items(values@, validity@),
{
    let mut r: Vec<Option<T>> = Vec::new();
    let mut i: usize = 0;
    while i < values.len()
        invariant
            validity.wf(),
            validity@.len() == values@.len(),
            i <= values@.len(),
            r@ == nullable_items(values@, validity@).take(i as int),
        decreases values@.len() - i,
    {
        let item = match validity.get(i) {
            Some(true) => Some(values[i]),
            _ => None,
        };
        r.push(item);
        i = i + 1;
    }
    assert(nullable_items(values@, validity@).take(i as int) =~= nullable_items(
        values@,
        validity@,
    ));
    r
}

impl<D: Collection> Collection for Nullable<D> where D::Item: Default {
    type Item = Option<D::Item>;

    /// The data and the bitmap are well formed, and the data has one slot
    /// for each item.
    open spec fn wf(&self) -> bool {
        &&& self.data.wf()
        &&& self.validity.wf()
        &&& self.data.items().len() == self.items().len()
    }

    open spec fn items(&self) -> Seq<Option<D::Item>> {
        nullable_items(self.data.items(), self.validity@)
    }

    /// The data and the bitmap are canonical, and every slot holds what is
    /// stored for its item: the default where the item is null.
    open spec fn canonical(&self) -> bool {
        &&& self.data.canonical()
        &&& self.validity.canonical()
        &&& forall|i: int|
            0 <= i < self.items().len() ==> is_stored(
                self.items()[i],
                #[trigger] self.data.items()[i],
            )
    }

    fn len(&self) -> (n: usize) {
        self.validity.len()
    }

    /// Collects optional items: an item that is present goes into the data
    /// with a set bit, one that is absent leaves the default in the data
    /// with a cleared bit.
    fn from_iter(iter: Vec<Option<D::Item>>) -> (r: Self) {
        let (values, bits) = split(iter);
        let r = Nullable { data: D::from_iter(values), validity: Bitmap::from_iter(bits) };
        r
    }

    /// Appends optional items by the rule of `from_iter`.
    fn extend(&mut self, iter: Vec<Option<D::Item>>) {
        let (values, bits) = split(iter);
        self.data.extend(values);
        self.validity.extend(bits);
    }

    fn iter(&self) -> (r: Vec<Option<D::Item>>) {
        join(self.data.iter(), &self.validity)
    }

    fn into_iter(self) -> (r: Vec<Option<D::Item>>) {
        join(self.data.into_iter(), &self.validity)
    }
}

impl<D: Collection> Default for Nullable<D> where D::Item: Default {
    /// Empty nullable storage.
    fn default() -> (r: Self)
        ensures
            r.wf(),
            r.canonical(),
            r.items() == Seq::<Option<D::Item>>::empty(),
    {
        let r = Nullable { data: D::from_iter(Vec::new()), validity: Bitmap::new() };
        r
    }
}

impl<D> BitmapRef for Nullable<D> {
    open spec fn bitmap(&self) -> Bitmap {
        self.validity
    }

    fn bitmap_ref(&self) -> (r: &Bitmap) {
        &self.validity
    }
}

impl<D> BitmapRefMut for Nullable<D> {
    /// Lends out the validity bitmap for writing; the data stays.
    fn bitmap_ref_mut(&mut self) -> (r: &mut Bitmap)
        ensures
            final(self).data == old(self).data,
    {
        &mut self.validity
    }
}

impl<D: Collection> ValidityBitmap for Nullable<D> where D::Item: Default {
    /// Whether the item at `index` is present.
    fn is_valid(&self, index: usize) -> (r: Option<bool>)
        ensures
            r == (if index < self.items().len() {
                Some(self.items()[index as int].is_some())
            } else {
                None
            }),
    {
        self.validity.get(index)
    }

    /// Whether the item at `index` is absent.
    fn is_null(&self, index: usize) -> (r: Option<bool>)
        ensures
            r == (if index < self.items().len() {
                Some(self.items()[index as int].is_none())
            } else {
                None
            }),
    {
        match self.validity.get(index) {
            Some(valid) => Some(!valid),
            None => None,
        }
    }

    /// Whether every item is present.
    fn all_valid(&self) -> (r: bool)
        ensures
            r == all_present(self.items()),
    {
        let r = self.validity.all_valid();
        proof {
            if !r {
                let i = choose|i: int| 0 <= i < self.validity@.len() && !self.validity@[i];
                assert(self.items()[i].is_none());
            }
        }
        r
    }
}

impl<T, D: BufferRef<T>> BufferRef<T> for Nullable<D> where D::Item: Default {
    open spec fn buffer(&self) -> Seq<T> {
        self.data.buffer()
    }

    open spec fn items_with(&self, buffer: Seq<T>) -> Seq<Option<D::Item>> {
        nullable_items(self.data.items_with(buffer), self.validity@)
    }

    proof fn lemma_items_with_buffer(&self) {
        self.data.lemma_items_with_buffer();
    }

    fn buffer_ref(&self) -> (r: &[T]) {
        self.data.buffer_ref()
    }
}

impl<T, D: BufferRefMut<T>> BufferRefMut<T> for Nullable<D> where D::Item: Default {
    /// Lends out the buffer of the data for writing; the bitmap stays.
    fn buffer_ref_mut(&mut self) -> (r: &mut [T])
        ensures
            final(self).validity == old(self).validity,
    {
        self.data.buffer_ref_mut()
    }
}

} // verus!
