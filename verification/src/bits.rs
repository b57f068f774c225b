//! Facts about single bits of a `u32`, for the mask types.

use vstd::prelude::*;

verus! {

/// Two single-bit words overlap exactly when they are the same bit.
pub proof fn lemma_single_bits_overlap(i: u32, j: u32)
    requires
        i < 32,
        j < 32,
    ensures
        ((1u32 << i) & (1u32 << j) != 0) <==> i == j,
{
    assert(((1u32 << i) & (1u32 << j) != 0) <==> i == j) by (bit_vector)
        requires
            i < 32,
            j < 32,
    ;
}

/// A bit is set in `a | b` exactly when it is set in `a` or in `b`.
pub proof fn lemma_or_bit(a: u32, b: u32, k: u32)
    requires
        k < 32,
    ensures
        ((a | b) & (1u32 << k) != 0) <==> (a & (1u32 << k) != 0 || b & (1u32 << k) != 0),
{
    assert(((a | b) & (1u32 << k) != 0) <==> (a & (1u32 << k) != 0 || b & (1u32 << k) != 0))
        by (bit_vector)
        requires
            k < 32,
    ;
}

/// A bit is set in `a & b` exactly when it is set in `a` and in `b`.
pub proof fn lemma_and_bit(a: u32, b: u32, k: u32)
    requires
        k < 32,
    ensures
        ((a & b) & (1u32 << k) != 0) <==> (a & (1u32 << k) != 0 && b & (1u32 << k) != 0),
{
    assert(((a & b) & (1u32 << k) != 0) <==> (a & (1u32 << k) != 0 && b & (1u32 << k) != 0))
        by (bit_vector)
        requires
            k < 32,
    ;
}

/// A word below `2^n` whose low `n` bits are all clear is zero.
pub proof fn lemma_zero_if_no_bit(x: u32, n: u32)
    requires
        n < 32,
        x < (1u32 << n),
        forall|k: u32| k < n ==> x & (1u32 << k) == 0,
    ensures
        x == 0,
    decreases n,
{
    if n == 0 {
        assert(x == 0) by (bit_vector)
            requires
                x < (1u32 << 0u32),
        ;
    } else {
        let m: u32 = (n - 1) as u32;
        assert(x < (1u32 << m)) by (bit_vector)
            requires
                0 < n < 32,
                m == n - 1,
                x < (1u32 << n),
                x & (1u32 << m) == 0,
        ;
        lemma_zero_if_no_bit(x, m);
    }
}

} // verus!
