//! Bit-level facts about 64-bit masks, shared by the set algebra and the codec.

use vstd::prelude::*;

use crate::cap::CAP_BITMASK;

verus! {

/// Whether bit `i` of `bits` is set.
pub open spec fn bit_set(bits: u64, i: u64) -> bool {
    bits & (1u64 << i) != 0
}

/// A bit of a union is set exactly when it is set on either side.
pub proof fn lemma_bit_or(a: u64, b: u64, i: u64)
    requires
        i < 64,
    ensures
        bit_set(a | b, i) == (bit_set(a, i) || bit_set(b, i)),
{
    assert(((a | b) & (1u64 << i) != 0) == ((a & (1u64 << i) != 0) || (b & (1u64 << i) != 0)))
        by (bit_vector)
        requires i < 64;
}

/// A bit of an intersection is set exactly when it is set on both sides.
pub proof fn lemma_bit_and(a: u64, b: u64, i: u64)
    requires
        i < 64,
    ensures
        bit_set(a & b, i) == (bit_set(a, i) && bit_set(b, i)),
{
    assert(((a & b) & (1u64 << i) != 0) == ((a & (1u64 << i) != 0) && (b & (1u64 << i) != 0)))
        by (bit_vector)
        requires i < 64;
}

/// A bit of a symmetric difference is set exactly when it is set on one side only.
pub proof fn lemma_bit_xor(a: u64, b: u64, i: u64)
    requires
        i < 64,
    ensures
        bit_set(a ^ b, i) == (bit_set(a, i) != bit_set(b, i)),
{
    assert(((a ^ b) & (1u64 << i) != 0) == ((a & (1u64 << i) != 0) != (b & (1u64 << i) != 0)))
        by (bit_vector)
        requires i < 64;
}

/// A bit of `a & !b` is set exactly when it is set in `a` but not in `b`.
pub proof fn lemma_bit_andnot(a: u64, b: u64, i: u64)
    requires
        i < 64,
    ensures
        bit_set(a & !b, i) == (bit_set(a, i) && !bit_set(b, i)),
{
    assert(((a & !b) & (1u64 << i) != 0) == ((a & (1u64 << i) != 0) && !(b & (1u64 << i) != 0)))
        by (bit_vector)
        requires i < 64;
}

/// A bit of the truncated complement is set exactly when the position is
/// valid and the bit is clear in the operand.
pub proof fn lemma_bit_complement(a: u64, i: u64)
    requires
        i < 64,
    ensures
        bit_set(!a & CAP_BITMASK, i) == (i < 41 && !bit_set(a, i)),
{
    assert((((!a) & 0x1FF_FFFF_FFFFu64) & (1u64 << i) != 0) == (i < 41 && (a & (1u64 << i)
        == 0))) by (bit_vector)
        requires i < 64;
}

/// No bit of zero is set.
pub proof fn lemma_bit_zero(i: u64)
    requires
        i < 64,
    ensures
        !bit_set(0, i),
{
    assert(0u64 & (1u64 << i) == 0) by (bit_vector)
        requires i < 64;
}

/// A single-bit mask has exactly its own bit set.
pub proof fn lemma_bit_single(i: u64, j: u64)
    requires
        i < 64,
        j < 64,
    ensures
        bit_set(1u64 << j, i) == (i == j),
{
    assert(((1u64 << j) & (1u64 << i) != 0) == (i == j)) by (bit_vector)
        requires i < 64 && j < 64;
}

/// A bit of a masked value is set exactly when the position is valid and the
/// bit is set in the raw value.
pub proof fn lemma_bit_masked(a: u64, i: u64)
    requires
        i < 64,
    ensures
        bit_set(a & CAP_BITMASK, i) == (i < 41 && bit_set(a, i)),
{
    assert(((a & 0x1FF_FFFF_FFFFu64) & (1u64 << i) != 0) == (i < 41 && (a & (1u64 << i) != 0)))
        by (bit_vector)
        requires i < 64;
}

/// Masking is idempotent, and every set operation on masked operands yields a
/// masked result; so does setting or clearing a single valid bit.
pub proof fn lemma_mask_closure(a: u64, b: u64, i: u64)
    requires
        i < 41,
    ensures
        (a & CAP_BITMASK) & CAP_BITMASK == a & CAP_BITMASK,
        a & CAP_BITMASK == a && b & CAP_BITMASK == b ==> {
            &&& (a | b) & CAP_BITMASK == (a | b)
            &&& (a ^ b) & CAP_BITMASK == (a ^ b)
        },
        a & CAP_BITMASK == a ==> {
            &&& (a & b) & CAP_BITMASK == (a & b)
            &&& (a & !b) & CAP_BITMASK == (a & !b)
        },
        a & CAP_BITMASK == a ==> (a | (1u64 << i)) & CAP_BITMASK == (a | (1u64 << i)),
        a & CAP_BITMASK == a ==> (a & !(1u64 << i)) & CAP_BITMASK == (a & !(1u64 << i)),
        (!a & CAP_BITMASK) & CAP_BITMASK == !a & CAP_BITMASK,
        0u64 & CAP_BITMASK == 0u64,
{
    assert((a & 0x1FF_FFFF_FFFFu64) & 0x1FF_FFFF_FFFFu64 == a & 0x1FF_FFFF_FFFFu64 && ((!a
        & 0x1FF_FFFF_FFFFu64) & 0x1FF_FFFF_FFFFu64 == !a & 0x1FF_FFFF_FFFFu64) && (0u64
        & 0x1FF_FFFF_FFFFu64 == 0u64)) by (bit_vector);
    assert(a & 0x1FF_FFFF_FFFFu64 == a && b & 0x1FF_FFFF_FFFFu64 == b ==> ((a | b)
        & 0x1FF_FFFF_FFFFu64 == (a | b) && (a ^ b) & 0x1FF_FFFF_FFFFu64 == (a ^ b)))
        by (bit_vector);
    assert(a & 0x1FF_FFFF_FFFFu64 == a ==> ((a & b) & 0x1FF_FFFF_FFFFu64 == (a & b) && (a & !b)
        & 0x1FF_FFFF_FFFFu64 == (a & !b))) by (bit_vector);
    assert(a & 0x1FF_FFFF_FFFFu64 == a ==> (a | (1u64 << i)) & 0x1FF_FFFF_FFFFu64 == (a | (1u64
        << i))) by (bit_vector)
        requires i < 41;
    assert(a & 0x1FF_FFFF_FFFFu64 == a ==> (a & !(1u64 << i)) & 0x1FF_FFFF_FFFFu64 == (a
        & !(1u64 << i))) by (bit_vector)
        requires i < 41;
}

} // verus!
