//! The frame checksum: the two's-complement negation of the 16-bit wrapping
//! sum of the covered bytes.

use vstd::prelude::*;

verus! {

/// The sum of all bytes of `data`, as an unbounded natural number.
pub open spec fn byte_sum(data: Seq<u8>) -> nat
    decreases data.len(),
{
    if data.len() == 0 {
        0
    } else {
        byte_sum(data.drop_last()) + data.last() as nat
    }
}

/// The checksum of `data`: the value that, added to the byte sum, gives a
/// multiple of 65536.
pub open spec fn checksum_of(data: Seq<u8>) -> u16 {
    ((0x1_0000 - byte_sum(data) % 0x1_0000) % 0x1_0000) as u16
}

/// Whether `expected` is the checksum of `data`.
pub open spec fn checksum_matches(data: Seq<u8>, expected: u16) -> bool {
    checksum_of(data) == expected
}

/// Computes the checksum of `data`.
pub fn calc_checksum(data: &[u8]) -> (sum: u16)
    ensures
        sum == checksum_of(data@),
{
    let mut acc: u16 = 0;
    let mut i: usize = 0;
    while i < data.len()
        invariant
            i <= data@.len(),
            acc as nat == byte_sum(data@.subrange(0, i as int)) % 0x1_0000,
        decreases data@.len() - i,
    {
        proof {
            let next = data@.subrange(0, i + 1);
            assert(next.drop_last() == data@.subrange(0, i as int));
            assert(next.last() == data@[i as int]);
        }
        let b: u16 = data[i] as u16;
        acc = acc.wrapping_add(b);
        i += 1;
    }
    proof {
        assert(data@.subrange(0, i as int) == data@);
        assert((!acc).wrapping_add(1) == ((0x1_0000 - acc as int) % 0x1_0000) as u16) by (bit_vector);
    }
    (!acc).wrapping_add(1)
}

/// Tells whether `checksum` is the checksum of `data`.
pub fn verify_checksum(data: &[u8], checksum: u16) -> (ok: bool)
    ensures
        ok == checksum_matches(data@, checksum),
{
    calc_checksum(data) == checksum
}

/// Every byte sequence, the empty one included, passes verification against
/// its own checksum.
pub proof fn lemma_checksum_verifies(data: Seq<u8>)
    ensures
        checksum_matches(data, checksum_of(data)),
{
}

/// The checksum of the empty sequence is zero: the sum is zero, and so is
/// its negation.
pub proof fn lemma_checksum_of_empty()
    ensures
        checksum_of(Seq::<u8>::empty()) == 0,
{
}

/// The checksum is the 16-bit negation of the byte sum: the two add up to a
/// multiple of 65536. It is what complementing the sixteen bits of the
/// wrapped sum and then adding one, again in sixteen bits, gives.
pub proof fn lemma_checksum_negates_sum(data: Seq<u8>)
    ensures
        (byte_sum(data) + checksum_of(data)) % 0x1_0000 == 0,
        checksum_of(data) == ((0xFFFF - byte_sum(data) % 0x1_0000) + 1) % 0x1_0000,
{
}

/// Replacing one byte moves the byte sum by the difference of the two bytes.
pub proof fn lemma_byte_sum_update(data: Seq<u8>, i: int, b: u8)
    requires
        0 <= i < data.len(),
    ensures
        byte_sum(data.update(i, b)) == byte_sum(data) - data[i] + b,
    decreases data.len(),
{
    let changed = data.update(i, b);
    if i == data.len() - 1 {
        assert(changed.drop_last() =~= data.drop_last());
    } else {
        lemma_byte_sum_update(data.drop_last(), i, b);
        assert(changed.drop_last() =~= data.drop_last().update(i, b));
    }
}

/// The byte `b` with bit number `bit` inverted.
pub open spec fn flip_bit(b: u8, bit: u8) -> u8 {
    b ^ (1u8 << bit)
}

/// The sequence `data` with one bit of the byte at index `i` inverted.
pub open spec fn with_flipped_bit(data: Seq<u8>, i: int, bit: u8) -> Seq<u8> {
    data.update(i, flip_bit(data[i], bit))
}

/// Inverting one of its eight bits changes a byte.
pub proof fn lemma_flip_bit_changes_byte(b: u8, bit: u8)
    requires
        bit < 8,
    ensures
        flip_bit(b, bit) != b,
{
    assert(bit < 8 ==> b ^ (1u8 << bit) != b) by (bit_vector);
}

/// A change of any single byte changes the checksum. A flipped bit is the
/// special case in which the old and the new byte differ by a power of two.
pub proof fn lemma_checksum_detects_byte_change(data: Seq<u8>, i: int, b: u8)
    requires
        0 <= i < data.len(),
        b != data[i],
    ensures
        checksum_of(data.update(i, b)) != checksum_of(data),
{
    lemma_byte_sum_update(data, i, b);
    let before = byte_sum(data) as int;
    let after = byte_sum(data.update(i, b)) as int;
    assert(after - before == b - data[i]);
    assert(before % 0x1_0000 != after % 0x1_0000);
}

/// Inverting any single bit of the covered bytes changes the checksum.
pub proof fn lemma_checksum_detects_bit_flip(data: Seq<u8>, i: int, bit: u8)
    requires
        0 <= i < data.len(),
        bit < 8,
    ensures
        checksum_of(with_flipped_bit(data, i, bit)) != checksum_of(data),
{
    lemma_flip_bit_changes_byte(data[i], bit);
    lemma_checksum_detects_byte_change(data, i, flip_bit(data[i], bit));
}

} // verus!
