//! Values of a fixed size in bytes, and their representation as bytes.

use vstd::layout::{layout_of_primitives, size_of};
use vstd::prelude::*;

verus! {

/// The order of the bytes of a number in memory.
#[derive(Clone, Copy, Debug, PartialEq, Eq)]
pub enum ByteOrder {
    /// The least significant byte first.
    LittleEndian,
    /// The most significant byte first.
    BigEndian,
}

/// Byte `k` of `x`, byte 0 being the least significant.
pub open spec fn byte_of(x: u64, k: int) -> u8 {
    ((x >> ((8 * k) as u64)) & 0xff) as u8
}

/// The `size` low bytes of `x` in the given order.
pub open spec fn uint_bytes(x: u64, size: nat, order: ByteOrder) -> Seq<u8> {
    Seq::new(
        size,
        |i: int|
            match order {
                ByteOrder::LittleEndian => byte_of(x, i),
                ByteOrder::BigEndian => byte_of(x, size - 1 - i),
            },
    )
}

/// The two bytes of `x` in the other order.
pub open spec fn swapped(x: u16) -> u16 {
    (x << 8u16) | (x >> 8u16)
}

/// `u16::to_le` of std: `x` as it is where the target stores the least
/// significant byte first, and `x` with its two bytes swapped where it
/// stores the most significant byte first. Which of the two comes back is
/// the target's choice, so the contract allows both.
pub assume_specification[ u16::to_le ](x: u16) -> (r: u16)
    ensures
        r == x || r == swapped(x),
;

/// The byte order that a probe tells. The probe is the number 1 after its
/// conversion from the order of the target to little-endian order: it is
/// still 1 where the target stores the least significant byte first, and
/// another number where the conversion had to swap the bytes.
pub fn byte_order_of_probe(probe: u16) -> (order: ByteOrder)
    ensures
        order == (if probe == 1 {
            ByteOrder::LittleEndian
        } else {
            ByteOrder::BigEndian
        }),
{
    if probe == 1u16 {
        ByteOrder::LittleEndian
    } else {
        ByteOrder::BigEndian
    }
}

/// The byte order of the target, told by the probe that the target gives.
/// Which order comes back is the target's choice.
pub fn native_byte_order() -> ByteOrder {
    byte_order_of_probe(1u16.to_le())
}

/// Appends the `size` low bytes of `x` in the given order.
fn extend_uint_bytes(x: u64, size: usize, order: ByteOrder, out: &mut Vec<u8>)
    requires
        size <= 8,
    ensures
        final(out)@ == old(out)@ + uint_bytes(x, size as nat, order),
{
    let mut i: usize = 0;
    while i < size
        invariant
            size <= 8,
            i <= size,
            out@ == old(out)@ + uint_bytes(x, size as nat, order).take(i as int),
        decreases size - i,
    {
        let k = match order {
            ByteOrder::LittleEndian => i,
            ByteOrder::BigEndian => size - 1 - i,
        };
        let shift = (8 * k) as u64;
        let low = (x >> shift) & 0xff;
        assert(low <= 0xff) by (bit_vector)
            requires
                low == (x >> shift) & 0xff,
        ;
        out.push(low as u8);
        i = i + 1;
    }
    assert(uint_bytes(x, size as nat, order).take(i as int) =~= uint_bytes(
        x,
        size as nat,
        order,
    ));
}

/// A kind of value that takes a fixed number of bytes, with no padding
/// inside, and so can be an element of a contiguous buffer.
pub trait FixedSize: Copy {
    /// The number of bytes of a value.
    spec fn size() -> nat;

    /// The bytes of the value in memory under the given byte order.
    spec fn bytes(self, order: ByteOrder) -> Seq<u8>;

    /// A value has `size()` bytes.
    proof fn lemma_bytes_len(self, order: ByteOrder)
        ensures
            self.bytes(order).len() == Self::size(),
    ;

    /// Appends the bytes of the value under the given byte order.
    fn extend_bytes(&self, order: ByteOrder, out: &mut Vec<u8>)
        ensures
            final(out)@ == old(out)@ + self.bytes(order),
    ;
}

impl FixedSize for u8 {
    open spec fn size() -> nat {
        1
    }

    open spec fn bytes(self, order: ByteOrder) -> Seq<u8> {
        seq![self]
    }

    proof fn lemma_bytes_len(self, order: ByteOrder) {
    }

    fn extend_bytes(&self, order: ByteOrder, out: &mut Vec<u8>) {
        out.push(*self);
    }
}

impl FixedSize for u16 {
    open spec fn size() -> nat {
        2
    }

    open spec fn bytes(self, order: ByteOrder) -> Seq<u8> {
        uint_bytes(self as u64, 2, order)
    }

    proof fn lemma_bytes_len(self, order: ByteOrder) {
    }

    fn extend_bytes(&self, order: ByteOrder, out: &mut Vec<u8>) {
        extend_uint_bytes(*self as u64, 2, order, out)
    }
}

impl FixedSize for u32 {
    open spec fn size() -> nat {
        4
    }

    open spec fn bytes(self, order: ByteOrder) -> Seq<u8> {
        uint_bytes(self as u64, 4, order)
    }

    proof fn lemma_bytes_len(self, order: ByteOrder) {
    }

    fn extend_bytes(&self, order: ByteOrder, out: &mut Vec<u8>) {
        extend_uint_bytes(*self as u64, 4, order, out)
    }
}

impl FixedSize for u64 {
    open spec fn size() -> nat {
        8
    }

    open spec fn bytes(self, order: ByteOrder) -> Seq<u8> {
        uint_bytes(self, 8, order)
    }

    proof fn lemma_bytes_len(self, order: ByteOrder) {
    }

    fn extend_bytes(&self, order: ByteOrder, out: &mut Vec<u8>) {
        extend_uint_bytes(*self, 8, order, out)
    }
}

impl FixedSize for usize {
    open spec fn size() -> nat {
        size_of::<usize>()
    }

    open spec fn bytes(self, order: ByteOrder) -> Seq<u8> {
        uint_bytes(self as u64, size_of::<usize>(), order)
    }

    proof fn lemma_bytes_len(self, order: ByteOrder) {
    }

    fn extend_bytes(&self, order: ByteOrder, out: &mut Vec<u8>) {
        broadcast use layout_of_primitives;

        extend_uint_bytes(*self as u64, core::mem::size_of::<usize>(), order, out)
    }
}

impl FixedSize for i8 {
    open spec fn size() -> nat {
        1
    }

    open spec fn bytes(self, order: ByteOrder) -> Seq<u8> {
        seq![self as u8]
    }

    proof fn lemma_bytes_len(self, order: ByteOrder) {
    }

    fn extend_bytes(&self, order: ByteOrder, out: &mut Vec<u8>) {
        out.push(*self as u8);
    }
}

impl FixedSize for i16 {
    open spec fn size() -> nat {
        2
    }

    open spec fn bytes(self, order: ByteOrder) -> Seq<u8> {
        uint_bytes((self as u16) as u64, 2, order)
    }

    proof fn lemma_bytes_len(self, order: ByteOrder) {
    }

    fn extend_bytes(&self, order: ByteOrder, out: &mut Vec<u8>) {
        extend_uint_bytes((*self as u16) as u64, 2, order, out)
    }
}

impl FixedSize for i32 {
    open spec fn size() -> nat {
        4
    }

    open spec fn bytes(self, order: ByteOrder) -> Seq<u8> {
        uint_bytes((self as u32) as u64, 4, order)
    }

    proof fn lemma_bytes_len(self, order: ByteOrder) {
    }

    fn extend_bytes(&self, order: ByteOrder, out: &mut Vec<u8>) {
        extend_uint_bytes((*self as u32) as u64, 4, order, out)
    }
}

impl FixedSize for i64 {
    open spec fn size() -> nat {
        8
    }

    open spec fn bytes(self, order: ByteOrder) -> Seq<u8> {
        uint_bytes(self as u64, 8, order)
    }

    proof fn lemma_bytes_len(self, order: ByteOrder) {
    }

    fn extend_bytes(&self, order: ByteOrder, out: &mut Vec<u8>) {
        extend_uint_bytes(*self as u64, 8, order, out)
    }
}

impl FixedSize for isize {
    open spec fn size() -> nat {
        size_of::<usize>()
    }

    open spec fn bytes(self, order: ByteOrder) -> Seq<u8> {
        uint_bytes((self as usize) as u64, size_of::<usize>(), order)
    }

    proof fn lemma_bytes_len(self, order: ByteOrder) {
    }

    fn extend_bytes(&self, order: ByteOrder, out: &mut Vec<u8>) {
        broadcast use layout_of_primitives;

        extend_uint_bytes((*self as usize) as u64, core::mem::size_of::<usize>(), order, out)
    }
}

/// The bytes of a sequence of values: those of each value, one value after
/// the other with nothing between them.
pub open spec fn concat_bytes<T: FixedSize>(values: Seq<T>, order: ByteOrder) -> Seq<u8>
    decreases values.len(),
{
    if values.len() == 0 {
        Seq::empty()
    } else {
        concat_bytes(values.drop_last(), order) + values.last().bytes(order)
    }
}

/// The bytes of `n` values are `n` times the size of one, and the bytes of
/// value `i` stand where `i` values of that size end.
pub proof fn lemma_concat_bytes<T: FixedSize>(values: Seq<T>, order: ByteOrder)
    ensures
        concat_bytes(values, order).len() == values.len() * T::size(),
        forall|i: int|
            0 <= i < values.len() ==> #[trigger] concat_bytes(values, order).subrange(
                i * T::size(),
                (i + 1) * T::size(),
            ) == values[i].bytes(order),
    decreases values.len(),
{
    let size = T::size() as int;
    if values.len() > 0 {
        let front = values.drop_last();
        let n = front.len() as int;
        lemma_concat_bytes(front, order);
        values.last().lemma_bytes_len(order);
        assert(n * size + size == (n + 1) * size) by (nonlinear_arith);
        assert forall|i: int| 0 <= i < values.len() implies #[trigger] concat_bytes(
            values,
            order,
        ).subrange(i * size, (i + 1) * size) == values[i].bytes(order) by {
            assert(0 <= i * size && (i + 1) * size == i * size + size) by (nonlinear_arith)
                requires
                    0 <= i,
                    0 <= size,
            ;
            if i < n {
                assert((i + 1) * size <= n * size) by (nonlinear_arith)
                    requires
                        0 <= i < n,
                        0 <= size,
                ;
                assert(concat_bytes(values, order).subrange(i * size, (i + 1) * size)
                    =~= concat_bytes(front, order).subrange(i * size, (i + 1) * size));
            } else {
                assert(concat_bytes(values, order).subrange(i * size, (i + 1) * size)
                    =~= values.last().bytes(order));
            }
        }
    }
}

/// The bytes of a sequence of bytes are the sequence itself.
pub proof fn lemma_concat_bytes_of_bytes(values: Seq<u8>, order: ByteOrder)
    ensures
        concat_bytes(values, order) == values,
    decreases values.len(),
{
    if values.len() > 0 {
        lemma_concat_bytes_of_bytes(values.drop_last(), order);
    }
}

/// The size of a primitive integer is the size that it has in memory.
pub proof fn lemma_size_of_primitives()
    ensures
        <u8 as FixedSize>::size() == size_of::<u8>(),
        <u16 as FixedSize>::size() == size_of::<u16>(),
        <u32 as FixedSize>::size() == size_of::<u32>(),
        <u64 as FixedSize>::size() == size_of::<u64>(),
        <usize as FixedSize>::size() == size_of::<usize>(),
        <i8 as FixedSize>::size() == size_of::<i8>(),
        <i16 as FixedSize>::size() == size_of::<i16>(),
        <i32 as FixedSize>::size() == size_of::<i32>(),
        <i64 as FixedSize>::size() == size_of::<i64>(),
        <isize as FixedSize>::size() == size_of::<isize>(),
{
    broadcast use layout_of_primitives;

}

impl<T: FixedSize, const N: usize> FixedSize for [T; N] {
    open spec fn size() -> nat {
        N as nat * T::size()
    }

    open spec fn bytes(self, order: ByteOrder) -> Seq<u8> {
        concat_bytes(self@, order)
    }

    proof fn lemma_bytes_len(self, order: ByteOrder) {
        lemma_concat_bytes(self@, order);
    }

    fn extend_bytes(&self, order: ByteOrder, out: &mut Vec<u8>) {
        extend_concat_bytes(self.as_slice(), order, out)
    }
}

/// Appends the bytes of `values` under the given byte order.
pub fn extend_concat_bytes<T: FixedSize>(values: &[T], order: ByteOrder, out: &mut Vec<u8>)
    ensures
        final(out)@ == old(out)@ + concat_bytes(values@, order),
{
    let mut i: usize = 0;
    while i < values.len()
        invariant
            i <= values@.len(),
            out@ == old(out)@ + concat_bytes(values@.take(i as int), order),
        decreases values@.len() - i,
    {
        values[i].extend_bytes(order, out);
        assert(values@.take(i + 1).drop_last() =~= values@.take(i as int));
        i = i + 1;
    }
    assert(values@.take(i as int) =~= values@);
}

/// The bytes of `values` under the given byte order.
pub fn as_bytes_in<T: FixedSize>(values: &[T], order: ByteOrder) -> (r: Vec<u8>)
    ensures
        r@ == concat_bytes(values@, order),
{
    let mut r: Vec<u8> = Vec::new();
    extend_concat_bytes(values, order, &mut r);
    r
}

/// The bytes of `values` as they lie in memory, in the byte order of the
/// target. The order is one of the two, and the same for every value.
pub fn as_bytes<T: FixedSize>(values: &[T]) -> (r: Vec<u8>)
    ensures
        r@ == concat_bytes(values@, ByteOrder::LittleEndian) || r@ == concat_bytes(
            values@,
            ByteOrder::BigEndian,
        ),
{
    as_bytes_in(values, native_byte_order())
}

} // verus!
