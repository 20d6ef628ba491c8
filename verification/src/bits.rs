//! Bit-level spec helpers: reading single bits of a byte or of the 32-bit
//! key-scan word, and the facts about them that the transport proofs use.

use vstd::prelude::*;

verus! {

/// Bit `i` of the byte `b` (LSB is bit 0).
pub open spec fn u8_bit(b: u8, i: u8) -> bool {
    (b >> i) & 1 == 1
}

/// Bit `i` of the 32-bit word `w` (LSB is bit 0).
pub open spec fn u32_bit(w: u32, i: u32) -> bool {
    (w >> i) & 1 == 1
}

/// A byte is determined by its eight bits.
pub proof fn lemma_u8_eq_by_bits(x: u8, y: u8)
    requires
        forall|i: u8| i < 8 ==> u8_bit(x, i) == u8_bit(y, i),
    ensures
        x == y,
{
    assert(u8_bit(x, 0) == u8_bit(y, 0));
    assert(u8_bit(x, 1) == u8_bit(y, 1));
    assert(u8_bit(x, 2) == u8_bit(y, 2));
    assert(u8_bit(x, 3) == u8_bit(y, 3));
    assert(u8_bit(x, 4) == u8_bit(y, 4));
    assert(u8_bit(x, 5) == u8_bit(y, 5));
    assert(u8_bit(x, 6) == u8_bit(y, 6));
    assert(u8_bit(x, 7) == u8_bit(y, 7));
    assert(x == y) by (bit_vector)
        requires
            ((x >> 0u8) & 1 == 1) == ((y >> 0u8) & 1 == 1),
            ((x >> 1u8) & 1 == 1) == ((y >> 1u8) & 1 == 1),
            ((x >> 2u8) & 1 == 1) == ((y >> 2u8) & 1 == 1),
            ((x >> 3u8) & 1 == 1) == ((y >> 3u8) & 1 == 1),
            ((x >> 4u8) & 1 == 1) == ((y >> 4u8) & 1 == 1),
            ((x >> 5u8) & 1 == 1) == ((y >> 5u8) & 1 == 1),
            ((x >> 6u8) & 1 == 1) == ((y >> 6u8) & 1 == 1),
            ((x >> 7u8) & 1 == 1) == ((y >> 7u8) & 1 == 1),
    ;
}

/// Setting bit `i` of a byte leaves every other bit as it was and makes
/// bit `i` one.
pub proof fn lemma_u8_set_bit(b: u8, i: u8)
    requires
        i < 8,
    ensures
        forall|j: u8| j < 8 ==> #[trigger] u8_bit(b | (1u8 << i), j) == (j == i || u8_bit(b, j)),
{
    assert forall|j: u8|
        j < 8 implies #[trigger] u8_bit(b | (1u8 << i), j) == (j == i || u8_bit(b, j)) by {
        assert((((b | (1u8 << i)) >> j) & 1 == 1) == (j == i || ((b >> j) & 1 == 1))) by (bit_vector)
            requires
                i < 8,
                j < 8,
        ;
    }
}

/// An OR of two words has a bit set exactly where one of them does.
pub proof fn lemma_u32_or_bits(x: u32, y: u32)
    ensures
        forall|j: u32| j < 32 ==> u32_bit(x | y, j) == (u32_bit(x, j) || u32_bit(y, j)),
{
    assert forall|j: u32| j < 32 implies u32_bit(x | y, j) == (u32_bit(x, j) || u32_bit(y, j)) by {
        assert((((x | y) >> j) & 1 == 1) == (((x >> j) & 1 == 1) || ((y >> j) & 1 == 1)))
            by (bit_vector);
    }
}

/// A byte widened and shifted left by `8 * i` occupies exactly the bit
/// range `[8 * i, 8 * i + 8)` of the resulting word.
pub proof fn lemma_u32_shifted_byte_bits(b: u8, i: u32)
    requires
        i < 4,
    ensures
        forall|j: u32|
            j < 32 ==> #[trigger] u32_bit((b as u32) << (8 * i), j) == (8 * i <= j && j < 8 * i + 8
                && u8_bit(b, (j - 8 * i) as u8)),
{
    assert forall|j: u32|
        j < 32 implies #[trigger] u32_bit((b as u32) << (8 * i), j) == (8 * i <= j && j < 8 * i + 8
        && u8_bit(b, (j - 8 * i) as u8)) by {
        assert(((((b as u32) << (8 * i)) >> j) & 1 == 1) == (8 * i <= j && j < 8 * i + 8 && ((b >> (
        (j - 8 * i) as u8)) & 1 == 1))) by (bit_vector)
            requires
                i < 4,
                j < 32,
        ;
    }
}

} // verus!
