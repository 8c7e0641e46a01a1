//! A sequence of booleans stored one bit each.

use crate::bits::{
    bit_of, bytes_for, lemma_bit_of_pack, lemma_bits_of_zero_and_one, lemma_clear_bit,
    lemma_pack_unique, lemma_set_bit, pack, unpack,
};
use crate::buffer::{BufferRef, BufferRefMut};
use crate::collection::Collection;
use vstd::prelude::*;

verus! {

/// Whether every bit of `s` is set.
pub open spec fn all_set(s: Seq<bool>) -> bool {
    forall|i: int| 0 <= i < s.len() ==> s[i]
}

/// A sequence of bits packed eight to a byte.
///
/// Bit `i` of the sequence is bit `i % 8` of byte `i / 8`, the least
/// significant bit of a byte first. The buffer has as many bytes as the bits
/// need; what the bits past the end of the last byte hold is left open.
pub struct Bitmap {
    buffer: Vec<u8>,
    bits: usize,
}

impl View for Bitmap {
    type V = Seq<bool>;

    /// The bits, in order.
    open spec fn view(&self) -> Seq<bool> {
        unpack(self.bytes(), self.bit_len())
    }
}

impl Bitmap {
    /// The packed bytes.
    pub closed spec fn bytes(&self) -> Seq<u8> {
        self.buffer@
    }

    /// The number of bits.
    pub closed spec fn bit_len(&self) -> nat {
        self.bits as nat
    }

    /// Whether the bits past the end are zero, so that the bytes are exactly
    /// the packing of the bits.
    pub open spec fn is_packed(&self) -> bool {
        self.bytes() == pack(self@)
    }

    /// An empty bitmap.
    pub fn new() -> (r: Self)
        ensures
            r.wf(),
            r@ == Seq::<bool>::empty(),
            r.bytes() == Seq::<u8>::empty(),
            r.is_packed(),
    {
        let r = Bitmap { buffer: Vec::new(), bits: 0 };
        assert(r.bytes() =~= pack(r@));
        r
    }

    /// The bit at `index`, or nothing where `index` is past the end.
    pub fn get(&self, index: usize) -> (r: Option<bool>)
        requires
            self.wf(),
        ensures
            r == (if index < self@.len() {
                Some(self@[index as int])
            } else {
                None
            }),
    {
        if index < self.bits {
            let byte = self.buffer[index / 8];
            let pos = (index % 8) as u8;
            Some((byte >> pos) & 1 == 1)
        } else {
            None
        }
    }

    /// Writes the bit at `index`, which lies inside the bitmap.
    pub fn set(&mut self, index: usize, bit: bool)
        requires
            old(self).wf(),
            index < old(self)@.len(),
        ensures
            final(self).wf(),
            final(self)@ == old(self)@.update(index as int, bit),
            old(self).is_packed() ==> final(self).is_packed(),
    {
        let at = index / 8;
        let pos = (index % 8) as u8;
        let byte = self.buffer[at];
        let mask = 1u8 << pos;
        self.buffer.set(
            at,
            if bit {
                byte | mask
            } else {
                byte & !mask
            },
        );
        proof {
            lemma_set(old(self).bytes(), old(self).bit_len(), self.bytes(), index as int, bit);
        }
    }

    /// Appends one bit.
    pub fn push(&mut self, bit: bool)
        requires
            old(self).wf(),
            old(self)@.len() < usize::MAX,
        ensures
            final(self).wf(),
            final(self)@ == old(self)@.push(bit),
            old(self).is_packed() ==> final(self).is_packed(),
    {
        let pos = (self.bits % 8) as u8;
        if pos == 0 {
            self.buffer.push(
                if bit {
                    1u8
                } else {
                    0u8
                },
            );
        } else {
            let last = self.buffer.len() - 1;
            let byte = self.buffer[last];
            let mask = 1u8 << pos;
            self.buffer.set(
                last,
                if bit {
                    byte | mask
                } else {
                    byte & !mask
                },
            );
        }
        self.bits = self.bits + 1;
        proof {
            lemma_push(old(self).bytes(), old(self).bit_len(), self.bytes(), bit);
        }
    }
}

/// What writing a bit of a packed sequence does: the byte sequence `after`
/// is `before` with bit `index % 8` of byte `index / 8` set or cleared.
proof fn lemma_set(before: Seq<u8>, len: nat, after: Seq<u8>, index: int, bit: bool)
    requires
        before.len() == bytes_for(len),
        0 <= index < len,
        after == before.update(
            index / 8,
            if bit {
                before[index / 8] | (1u8 << ((index % 8) as u8))
            } else {
                before[index / 8] & !(1u8 << ((index % 8) as u8))
            },
        ),
    ensures
        after.len() == bytes_for(len),
        unpack(after, len) == unpack(before, len).update(index, bit),
        before == pack(unpack(before, len)) ==> after == pack(unpack(after, len)),
{
    let pos = (index % 8) as u8;
    assert forall|i: int| 0 <= i < 8 * after.len() implies bit_of(after, i) == (if i == index {
        bit
    } else {
        bit_of(before, i)
    }) by {
        let k = (i % 8) as u8;
        if i / 8 == index / 8 {
            if bit {
                lemma_set_bit(before[index / 8], pos, k);
            } else {
                lemma_clear_bit(before[index / 8], pos, k);
            }
        }
    }
    if before == pack(unpack(before, len)) {
        let s = unpack(after, len);
        assert forall|i: int| 0 <= i < 8 * after.len() implies bit_of(after, i) == (i < s.len()
            && s[i]) by {
            lemma_bit_of_pack(unpack(before, len), i);
        }
        lemma_pack_unique(after, s);
    }
}

/// What appending a bit to a packed sequence does: the byte sequence `after`
/// is `before` with one byte more where the bits filled whole bytes, and with
/// bit `len % 8` of its last byte set or cleared where they did not.
proof fn lemma_push(before: Seq<u8>, len: nat, after: Seq<u8>, bit: bool)
    requires
        before.len() == bytes_for(len),
        len % 8 == 0 ==> after == before.push(
            if bit {
                1u8
            } else {
                0u8
            },
        ),
        len % 8 != 0 ==> after == before.update(
            before.len() - 1,
            if bit {
                before[before.len() - 1] | (1u8 << ((len % 8) as u8))
            } else {
                before[before.len() - 1] & !(1u8 << ((len % 8) as u8))
            },
        ),
    ensures
        after.len() == bytes_for(len + 1),
        unpack(after, len + 1) == unpack(before, len).push(bit),
        before == pack(unpack(before, len)) ==> after == pack(unpack(after, len + 1)),
{
    let pos = (len % 8) as u8;
    let last = len as int / 8;
    assert forall|i: int| 0 <= i < 8 * after.len() implies bit_of(after, i) == (if i == len {
        bit
    } else if i < 8 * before.len() {
        bit_of(before, i)
    } else {
        false
    }) by {
        let k = (i % 8) as u8;
        if pos == 0 {
            if i >= len {
                lemma_bits_of_zero_and_one(k);
            }
        } else if i / 8 == last {
            if bit {
                lemma_set_bit(before[last], pos, k);
            } else {
                lemma_clear_bit(before[last], pos, k);
            }
        } else {
            assert(after[i / 8] == before[i / 8]);
        }
    }
    assert(unpack(after, len + 1) =~= unpack(before, len).push(bit));
    if before == pack(unpack(before, len)) {
        let s = unpack(after, len + 1);
        assert forall|i: int| 0 <= i < 8 * after.len() implies bit_of(after, i) == (i < s.len()
            && s[i]) by {
            if i < 8 * before.len() {
                lemma_bit_of_pack(unpack(before, len), i);
            }
        }
        lemma_pack_unique(after, s);
    }
}

impl Collection for Bitmap {
    type Item = bool;

    open spec fn wf(&self) -> bool {
        self.bytes().len() == bytes_for(self.bit_len())
    }

    open spec fn items(&self) -> Seq<bool> {
        self@
    }

    /// The padding of the last byte is zero.
    open spec fn canonical(&self) -> bool {
        self.is_packed()
    }

    fn len(&self) -> (n: usize) {
        self.bits
    }

    fn from_iter(iter: Vec<bool>) -> (r: Self) {
        let mut r = Bitmap::new();
        assert(iter@.len() == iter.len());
        r.extend(iter);
        r
    }

    fn extend(&mut self, iter: Vec<bool>) {
        let mut i: usize = 0;
        while i < iter.len()
            invariant
                i <= iter@.len(),
                self.wf(),
                self@ == old(self)@ + iter@.take(i as int),
                old(self)@.len() + iter@.len() <= usize::MAX,
                old(self).is_packed() ==> self.is_packed(),
            decreases iter@.len() - i,
        {
            self.push(iter[i]);
            i = i + 1;
        }
    }

    fn iter(&self) -> (r: Vec<bool>) {
        let mut r: Vec<bool> = Vec::new();
        let mut i: usize = 0;
        while i < self.bits
            invariant
                self.wf(),
                i <= self.bits,
                r@ == self@.take(i as int),
            decreases self.bits - i,
        {
            let byte = self.buffer[i / 8];
            let pos = (i % 8) as u8;
            r.push((byte >> pos) & 1 == 1);
            i = i + 1;
        }
        r
    }

    fn into_iter(self) -> (r: Vec<bool>) {
        self.iter()
    }
}

impl core::ops::Index<usize> for Bitmap {
    type Output = bool;

    /// The bit at `index`, which lies inside the bitmap.
    fn index(&self, index: usize) -> (output: &bool)
        ensures
            *output == self@[index as int],
    {
        match self.get(index) {
            Some(true) => &true,
            _ => &false,
        }
    }
}

impl vstd::std_specs::core::IndexSpecImpl<usize> for Bitmap {
    open spec fn index_req(&self, index: &usize) -> bool {
        self.wf() && *index < self@.len()
    }
}

impl Default for Bitmap {
    /// An empty bitmap.
    fn default() -> (r: Self)
        ensures
            r.wf(),
            r@ == Seq::<bool>::empty(),
            r.bytes() == Seq::<u8>::empty(),
            r.is_packed(),
    {
        Bitmap::new()
    }
}

impl BufferRef<u8> for Bitmap {
    open spec fn buffer(&self) -> Seq<u8> {
        self.bytes()
    }

    open spec fn items_with(&self, buffer: Seq<u8>) -> Seq<bool> {
        unpack(buffer, self.bit_len())
    }

    proof fn lemma_items_with_buffer(&self) {
    }

    fn buffer_ref(&self) -> (r: &[u8]) {
        self.buffer.as_slice()
    }
}

impl BufferRefMut<u8> for Bitmap {
    /// Lends out the packed bytes for writing; the number of bits stays.
    fn buffer_ref_mut(&mut self) -> (r: &mut [u8])
        ensures
            final(self).bit_len() == old(self).bit_len(),
    {
        self.buffer.as_mut_slice()
    }
}

/// A value that lends out a bitmap which tells, for each of its items,
/// whether the item is valid.
pub trait BitmapRef {
    /// The validity bitmap.
    spec fn bitmap(&self) -> Bitmap;

    /// Lends out the validity bitmap.
    fn bitmap_ref(&self) -> (r: &Bitmap)
        ensures
            *r == self.bitmap(),
    ;
}

/// A value that lends out its validity bitmap for writing.
///
/// Whoever writes through the borrow keeps the bitmap as long as the data
/// that it describes: nothing checks this afterwards.
pub trait BitmapRefMut: BitmapRef {
    /// Lends out the validity bitmap for writing.
    fn bitmap_ref_mut(&mut self) -> (r: &mut Bitmap)
        ensures
            *r == old(self).bitmap(),
            final(self).bitmap() == *final(r),
    ;
}

/// Questions to a validity bitmap.
pub trait ValidityBitmap: BitmapRef {
    /// Whether the item at `index` is valid, or nothing where `index` is
    /// past the end.
    fn is_valid(&self, index: usize) -> (r: Option<bool>)
        requires
            self.bitmap().wf(),
        ensures
            r == (if index < self.bitmap()@.len() {
                Some(self.bitmap()@[index as int])
            } else {
                None
            }),
    {
        self.bitmap_ref().get(index)
    }

    /// Whether the item at `index` is null, or nothing where `index` is past
    /// the end.
    fn is_null(&self, index: usize) -> (r: Option<bool>)
        requires
            self.bitmap().wf(),
        ensures
            r == (if index < self.bitmap()@.len() {
                Some(!self.bitmap()@[index as int])
            } else {
                None
            }),
    {
        match self.bitmap_ref().get(index) {
            Some(valid) => Some(!valid),
            None => None,
        }
    }

    /// Whether every item is valid.
    fn all_valid(&self) -> (r: bool)
        requires
            self.bitmap().wf(),
        ensures
            r == all_set(self.bitmap()@),
    {
        let bitmap = self.bitmap_ref();
        let len = bitmap.len();
        let mut i: usize = 0;
        while i < len
            invariant
                *bitmap == self.bitmap(),
                bitmap.wf(),
                len == bitmap@.len(),
                i <= len,
                forall|j: int| 0 <= j < i ==> bitmap@[j],
            decreases len - i,
        {
            match bitmap.get(i) {
                Some(true) => {},
                _ => {
                    return false;
                },
            }
            i = i + 1;
        }
        true
    }
}

impl BitmapRef for Bitmap {
    open spec fn bitmap(&self) -> Bitmap {
        *self
    }

    fn bitmap_ref(&self) -> (r: &Bitmap) {
        self
    }
}

impl BitmapRefMut for Bitmap {
    fn bitmap_ref_mut(&mut self) -> (r: &mut Bitmap) {
        self
    }
}

impl ValidityBitmap for Bitmap {

}

} // verus!
