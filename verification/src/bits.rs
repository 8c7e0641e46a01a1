//! The bit-packing layout shared by every bitmap: eight bits per byte, the
//! least significant bit of a byte first.

use vstd::prelude::*;

verus! {

/// Whether bit `k` of `byte` is set, bit 0 being the least significant.
pub open spec fn bit_at(byte: u8, k: int) -> bool {
    (byte >> (k as u8)) & 1 == 1
}

/// Bit `i` of a packed byte sequence: bit `i % 8` of byte `i / 8`.
pub open spec fn bit_of(bytes: Seq<u8>, i: int) -> bool {
    bit_at(bytes[i / 8], i % 8)
}

/// The number of bytes that hold `bits` bits.
pub open spec fn bytes_for(bits: nat) -> nat {
    ((bits + 7) / 8) as nat
}

/// The first `len` bits of a packed byte sequence.
pub open spec fn unpack(bytes: Seq<u8>, len: nat) -> Seq<bool> {
    Seq::new(len, |i: int| bit_of(bytes, i))
}

/// The value of `s[i]` as a bit in position 0, with `false` past the end.
pub open spec fn flag(s: Seq<bool>, i: int) -> u8 {
    if 0 <= i < s.len() && s[i] {
        1u8
    } else {
        0u8
    }
}

/// Byte `j` of the packing of `s`: bit `k` is `s[8 * j + k]`, and the bits
/// past the end of `s` are zero.
pub open spec fn pack_byte(s: Seq<bool>, j: int) -> u8 {
    flag(s, 8 * j) | (flag(s, 8 * j + 1) << 1u8) | (flag(s, 8 * j + 2) << 2u8) | (flag(
        s,
        8 * j + 3,
    ) << 3u8) | (flag(s, 8 * j + 4) << 4u8) | (flag(s, 8 * j + 5) << 5u8) | (flag(s, 8 * j + 6)
        << 6u8) | (flag(s, 8 * j + 7) << 7u8)
}

/// The packing of `s` into bytes, zero padded to a whole number of bytes.
pub open spec fn pack(s: Seq<bool>) -> Seq<u8> {
    Seq::new(bytes_for(s.len()), |j: int| pack_byte(s, j))
}

/// Setting bit `k` of a byte sets that bit and leaves the others.
pub proof fn lemma_set_bit(byte: u8, k: u8, j: u8)
    requires
        k < 8,
        j < 8,
    ensures
        bit_at(byte | (1u8 << k), j as int) == (j == k || bit_at(byte, j as int)),
{
    assert((((byte | (1u8 << k)) >> j) & 1 == 1) == (j == k || (byte >> j) & 1 == 1))
        by (bit_vector)
        requires
            k < 8,
            j < 8,
    ;
}

/// Clearing bit `k` of a byte clears that bit and leaves the others.
pub proof fn lemma_clear_bit(byte: u8, k: u8, j: u8)
    requires
        k < 8,
        j < 8,
    ensures
        bit_at(byte & !(1u8 << k), j as int) == (j != k && bit_at(byte, j as int)),
{
    assert((((byte & !(1u8 << k)) >> j) & 1 == 1) == (j != k && (byte >> j) & 1 == 1))
        by (bit_vector)
        requires
            k < 8,
            j < 8,
    ;
}

/// The bytes 0 and 1 hold no bit and bit 0 alone.
pub proof fn lemma_bits_of_zero_and_one(j: u8)
    requires
        j < 8,
    ensures
        !bit_at(0u8, j as int),
        bit_at(1u8, j as int) == (j == 0),
{
    assert(!((0u8 >> j) & 1 == 1)) by (bit_vector)
        requires
            j < 8,
    ;
    assert(((1u8 >> j) & 1 == 1) == (j == 0)) by (bit_vector)
        requires
            j < 8,
    ;
}

/// A byte is determined by its eight bits.
pub proof fn lemma_byte_ext(a: u8, b: u8)
    requires
        forall|k: int| 0 <= k < 8 ==> bit_at(a, k) == bit_at(b, k),
    ensures
        a == b,
{
    assert(bit_at(a, 0) == bit_at(b, 0));
    assert(bit_at(a, 1) == bit_at(b, 1));
    assert(bit_at(a, 2) == bit_at(b, 2));
    assert(bit_at(a, 3) == bit_at(b, 3));
    assert(bit_at(a, 4) == bit_at(b, 4));
    assert(bit_at(a, 5) == bit_at(b, 5));
    assert(bit_at(a, 6) == bit_at(b, 6));
    assert(bit_at(a, 7) == bit_at(b, 7));
    assert(a == b) by (bit_vector)
        requires
            ((a >> 0u8) & 1 == 1) == ((b >> 0u8) & 1 == 1),
            ((a >> 1u8) & 1 == 1) == ((b >> 1u8) & 1 == 1),
            ((a >> 2u8) & 1 == 1) == ((b >> 2u8) & 1 == 1),
            ((a >> 3u8) & 1 == 1) == ((b >> 3u8) & 1 == 1),
            ((a >> 4u8) & 1 == 1) == ((b >> 4u8) & 1 == 1),
            ((a >> 5u8) & 1 == 1) == ((b >> 5u8) & 1 == 1),
            ((a >> 6u8) & 1 == 1) == ((b >> 6u8) & 1 == 1),
            ((a >> 7u8) & 1 == 1) == ((b >> 7u8) & 1 == 1),
    ;
}

/// Bit `k` of a byte assembled from eight flags is flag `k`.
proof fn lemma_assembled_bit(f0: u8, f1: u8, f2: u8, f3: u8, f4: u8, f5: u8, f6: u8, f7: u8, k: u8)
    requires
        f0 <= 1,
        f1 <= 1,
        f2 <= 1,
        f3 <= 1,
        f4 <= 1,
        f5 <= 1,
        f6 <= 1,
        f7 <= 1,
        k < 8,
    ensures
        bit_at(
            f0 | (f1 << 1u8) | (f2 << 2u8) | (f3 << 3u8) | (f4 << 4u8) | (f5 << 5u8) | (f6 << 6u8)
                | (f7 << 7u8),
            k as int,
        ) == (if k == 0 {
            f0
        } else if k == 1 {
            f1
        } else if k == 2 {
            f2
        } else if k == 3 {
            f3
        } else if k == 4 {
            f4
        } else if k == 5 {
            f5
        } else if k == 6 {
            f6
        } else {
            f7
        } == 1),
{
    assert((((f0 | (f1 << 1u8) | (f2 << 2u8) | (f3 << 3u8) | (f4 << 4u8) | (f5 << 5u8) | (f6
        << 6u8) | (f7 << 7u8)) >> k) & 1 == 1) == (if k == 0 {
        f0
    } else if k == 1 {
        f1
    } else if k == 2 {
        f2
    } else if k == 3 {
        f3
    } else if k == 4 {
        f4
    } else if k == 5 {
        f5
    } else if k == 6 {
        f6
    } else {
        f7
    } == 1)) by (bit_vector)
        requires
            f0 <= 1,
            f1 <= 1,
            f2 <= 1,
            f3 <= 1,
            f4 <= 1,
            f5 <= 1,
            f6 <= 1,
            f7 <= 1,
            k < 8,
    ;
}

/// Bit `i` of the packing of `s` is `s[i]` inside `s` and zero in the padding.
pub proof fn lemma_bit_of_pack(s: Seq<bool>, i: int)
    requires
        0 <= i < 8 * bytes_for(s.len()),
    ensures
        bit_of(pack(s), i) == (i < s.len() && s[i]),
{
    let j = i / 8;
    let k = i % 8;
    lemma_assembled_bit(
        flag(s, 8 * j),
        flag(s, 8 * j + 1),
        flag(s, 8 * j + 2),
        flag(s, 8 * j + 3),
        flag(s, 8 * j + 4),
        flag(s, 8 * j + 5),
        flag(s, 8 * j + 6),
        flag(s, 8 * j + 7),
        k as u8,
    );
}

/// Unpacking what was packed gives the bits back: the packed form loses
/// nothing of a sequence of booleans.
pub proof fn lemma_unpack_pack(s: Seq<bool>)
    ensures
        pack(s).len() == bytes_for(s.len()),
        unpack(pack(s), s.len()) == s,
{
    assert forall|i: int| 0 <= i < s.len() implies bit_of(pack(s), i) == s[i] by {
        lemma_bit_of_pack(s, i);
    }
}

/// The packing of `s` is the only byte sequence of its length that holds
/// the bits of `s` and zeros in the padding.
pub proof fn lemma_pack_unique(bytes: Seq<u8>, s: Seq<bool>)
    requires
        bytes.len() == bytes_for(s.len()),
        forall|i: int| 0 <= i < 8 * bytes.len() ==> bit_of(bytes, i) == (i < s.len() && s[i]),
    ensures
        bytes == pack(s),
{
    assert forall|j: int| 0 <= j < bytes.len() implies bytes[j] == pack(s)[j] by {
        assert forall|k: int| 0 <= k < 8 implies bit_at(bytes[j], k) == bit_at(pack(s)[j], k) by {
            let i = 8 * j + k;
            lemma_bit_of_pack(s, i);
            assert(bit_of(bytes, i) == bit_at(bytes[j], k));
        }
        lemma_byte_ext(bytes[j], pack(s)[j]);
    }
}

} // verus!
