//! Single bits of a byte, as read and written by the bit-field parameters.

use vstd::prelude::*;

verus! {

/// Whether bit `bit` of `b` is set.
pub open spec fn spec_bit(b: u8, bit: u8) -> bool {
    (b >> bit) & 1u8 == 1u8
}

/// `b` with bit `bit` set to `val` and every other bit unchanged.
pub open spec fn spec_with_bit(b: u8, bit: u8, val: bool) -> u8 {
    (b & !(1u8 << bit)) | ((if val { 1u8 } else { 0u8 }) << bit)
}

/// Whether bit `bit` of `b` is set.
pub fn bit_is_set(b: u8, bit: u8) -> (r: bool)
    requires
        bit < 8,
    ensures
        r == spec_bit(b, bit),
{
    let r = (b & (1u8 << bit)) != 0;
    assert(((b & (1u8 << bit)) != 0) == ((b >> bit) & 1u8 == 1u8)) by (bit_vector)
        requires
            bit < 8,
    ;
    r
}

/// `b` with bit `bit` set to `val`.
pub fn with_bit(b: u8, bit: u8, val: bool) -> (r: u8)
    requires
        bit < 8,
    ensures
        r == spec_with_bit(b, bit, val),
{
    (b & !(1u8 << bit)) | ((if val { 1u8 } else { 0u8 }) << bit)
}

/// Bit `k` of a byte is its binary digit of weight 2^k: bit 0 is the
/// lowest, bit 7 the highest.
pub proof fn lemma_bit_weights(b: u8)
    ensures
        spec_bit(b, 0) == (b % 2 == 1),
        spec_bit(b, 1) == ((b / 2) % 2 == 1),
        spec_bit(b, 2) == ((b / 4) % 2 == 1),
        spec_bit(b, 3) == ((b / 8) % 2 == 1),
        spec_bit(b, 4) == ((b / 16) % 2 == 1),
        spec_bit(b, 5) == ((b / 32) % 2 == 1),
        spec_bit(b, 6) == ((b / 64) % 2 == 1),
        spec_bit(b, 7) == (b >= 128),
{
    assert(((b >> 0u8) & 1u8 == 1u8) == (b % 2 == 1)
        && ((b >> 1u8) & 1u8 == 1u8) == ((b / 2) % 2 == 1)
        && ((b >> 2u8) & 1u8 == 1u8) == ((b / 4) % 2 == 1)
        && ((b >> 3u8) & 1u8 == 1u8) == ((b / 8) % 2 == 1)
        && ((b >> 4u8) & 1u8 == 1u8) == ((b / 16) % 2 == 1)
        && ((b >> 5u8) & 1u8 == 1u8) == ((b / 32) % 2 == 1)
        && ((b >> 6u8) & 1u8 == 1u8) == ((b / 64) % 2 == 1)
        && ((b >> 7u8) & 1u8 == 1u8) == (b >= 128)) by (bit_vector);
}

/// Setting a bit and reading it back gives the value set; the other bits
/// keep their values.
pub proof fn lemma_with_bit(b: u8, bit: u8, val: bool)
    requires
        bit < 8,
    ensures
        spec_bit(spec_with_bit(b, bit, val), bit) == val,
        forall|other: u8|
            other < 8 && other != bit ==> spec_bit(#[trigger] spec_with_bit(b, bit, val), other)
                == spec_bit(b, other),
{
    let v: u8 = if val { 1u8 } else { 0u8 };
    assert(((b & !(1u8 << bit)) | (v << bit)) >> bit & 1u8 == v) by (bit_vector)
        requires
            bit < 8,
            v < 2,
    ;
    assert forall|other: u8| other < 8 && other != bit implies spec_bit(
        #[trigger] spec_with_bit(b, bit, val),
        other,
    ) == spec_bit(b, other) by {
        assert(((b & !(1u8 << bit)) | (v << bit)) >> other & 1u8 == (b >> other) & 1u8)
            by (bit_vector)
            requires
                bit < 8,
                other < 8,
                other != bit,
                v < 2,
        ;
    }
}

/// Setting a bit to the value it already has leaves the byte unchanged.
pub proof fn lemma_with_bit_same(b: u8, bit: u8)
    requires
        bit < 8,
    ensures
        spec_with_bit(b, bit, spec_bit(b, bit)) == b,
{
    let v: u8 = if spec_bit(b, bit) { 1u8 } else { 0u8 };
    assert(v == (b >> bit) & 1u8) by (bit_vector)
        requires
            bit < 8,
            v == (if (b >> bit) & 1u8 == 1u8 { 1u8 } else { 0u8 }),
    ;
    assert(((b & !(1u8 << bit)) | (v << bit)) == b) by (bit_vector)
        requires
            bit < 8,
            v == (b >> bit) & 1u8,
    ;
}

} // verus!
