//! Lane-wise operations on sequences of bit patterns: the mathematical model
//! that the contracts of the vector operations are stated over.
//!
//! A packed floating-point vector is viewed as the sequence of the bit
//! patterns of its lanes, lane 0 first. Nothing here reads a pattern as a
//! number: a NaN payload or a signalling bit is a bit like any other.

use vstd::prelude::*;

verus! {

/// Lane-wise AND of 64-bit patterns.
pub open spec fn and64(a: Seq<u64>, b: Seq<u64>) -> Seq<u64> {
    Seq::new(a.len(), |i: int| a[i] & b[i])
}

/// Lane-wise XOR of 64-bit patterns.
pub open spec fn xor64(a: Seq<u64>, b: Seq<u64>) -> Seq<u64> {
    Seq::new(a.len(), |i: int| a[i] ^ b[i])
}

/// Lane-wise AND of the complement of `a` with `b`, on 64-bit patterns.
pub open spec fn andnot64(a: Seq<u64>, b: Seq<u64>) -> Seq<u64> {
    Seq::new(a.len(), |i: int| !a[i] & b[i])
}

/// `n` lanes that all hold the 64-bit pattern `x`.
pub open spec fn splat64(n: nat, x: u64) -> Seq<u64> {
    Seq::new(n, |i: int| x)
}

/// Lane-wise AND of 32-bit patterns.
pub open spec fn and32(a: Seq<u32>, b: Seq<u32>) -> Seq<u32> {
    Seq::new(a.len(), |i: int| a[i] & b[i])
}

/// Lane-wise XOR of 32-bit patterns.
pub open spec fn xor32(a: Seq<u32>, b: Seq<u32>) -> Seq<u32> {
    Seq::new(a.len(), |i: int| a[i] ^ b[i])
}

/// Lane-wise AND of the complement of `a` with `b`, on 32-bit patterns.
pub open spec fn andnot32(a: Seq<u32>, b: Seq<u32>) -> Seq<u32> {
    Seq::new(a.len(), |i: int| !a[i] & b[i])
}

/// `n` lanes that all hold the 32-bit pattern `x`.
pub open spec fn splat32(n: nat, x: u32) -> Seq<u32> {
    Seq::new(n, |i: int| x)
}

/// Whether an eight-bit mask selects lane `i`: bit `i` of `k`, bit 0 being the
/// least significant. Meant for `0 <= i < 8`.
pub open spec fn mask_bit(k: u8, i: int) -> bool {
    (k >> (i as u8)) & 1u8 == 1u8
}

/// Lane-wise choice under a mask: lane `i` comes from `a` where the mask
/// selects it and from `b` where it does not.
pub open spec fn select64(k: u8, a: Seq<u64>, b: Seq<u64>) -> Seq<u64> {
    Seq::new(
        a.len(),
        |i: int|
            if mask_bit(k, i) {
                a[i]
            } else {
                b[i]
            },
    )
}

/// Lane-wise choice against zero: lane `i` comes from `a` where the mask
/// selects it and is all zero bits where it does not.
pub open spec fn zero_select64(k: u8, a: Seq<u64>) -> Seq<u64> {
    Seq::new(
        a.len(),
        |i: int|
            if mask_bit(k, i) {
                a[i]
            } else {
                0u64
            },
    )
}

/// AND of a sequence with itself gives the sequence back.
pub proof fn lemma_and64_idempotent(a: Seq<u64>)
    ensures
        and64(a, a) == a,
{
    assert forall|i: int| 0 <= i < a.len() implies #[trigger] and64(a, a)[i] == a[i] by {
        let x: u64 = a[i];
        assert(x & x == x) by (bit_vector);
    }
    assert(and64(a, a) =~= a);
}

/// AND does not depend on the order of its operands.
pub proof fn lemma_and64_commutative(a: Seq<u64>, b: Seq<u64>)
    requires
        a.len() == b.len(),
    ensures
        and64(a, b) == and64(b, a),
{
    assert forall|i: int| 0 <= i < a.len() implies #[trigger] and64(a, b)[i] == and64(b, a)[i] by {
        let x: u64 = a[i];
        let y: u64 = b[i];
        assert(x & y == y & x) by (bit_vector);
    }
    assert(and64(a, b) =~= and64(b, a));
}

/// XOR with the same operand twice gives the first operand back.
pub proof fn lemma_xor64_involution(a: Seq<u64>, b: Seq<u64>)
    ensures
        xor64(xor64(a, b), b) == a,
{
    assert forall|i: int| 0 <= i < a.len() implies #[trigger] xor64(xor64(a, b), b)[i]
        == a[i] by {
        let x: u64 = a[i];
        let y: u64 = b[i];
        assert((x ^ y) ^ y == x) by (bit_vector);
    }
    assert(xor64(xor64(a, b), b) =~= a);
}

/// XOR with the all-ones pattern, then AND with `b`, is AND-NOT.
pub proof fn lemma_andnot64_composed(a: Seq<u64>, b: Seq<u64>)
    ensures
        and64(xor64(a, splat64(a.len(), u64::MAX)), b) == andnot64(a, b),
{
    let ones = splat64(a.len(), u64::MAX);
    assert forall|i: int| 0 <= i < a.len() implies #[trigger] and64(xor64(a, ones), b)[i]
        == andnot64(a, b)[i] by {
        let x: u64 = a[i];
        let y: u64 = b[i];
        assert((x ^ 0xffff_ffff_ffff_ffffu64) & y == !x & y) by (bit_vector);
    }
    assert(and64(xor64(a, ones), b) =~= andnot64(a, b));
}

/// AND of a sequence with itself gives the sequence back.
pub proof fn lemma_and32_idempotent(a: Seq<u32>)
    ensures
        and32(a, a) == a,
{
    assert forall|i: int| 0 <= i < a.len() implies #[trigger] and32(a, a)[i] == a[i] by {
        let x: u32 = a[i];
        assert(x & x == x) by (bit_vector);
    }
    assert(and32(a, a) =~= a);
}

/// AND does not depend on the order of its operands.
pub proof fn lemma_and32_commutative(a: Seq<u32>, b: Seq<u32>)
    requires
        a.len() == b.len(),
    ensures
        and32(a, b) == and32(b, a),
{
    assert forall|i: int| 0 <= i < a.len() implies #[trigger] and32(a, b)[i] == and32(b, a)[i] by {
        let x: u32 = a[i];
        let y: u32 = b[i];
        assert(x & y == y & x) by (bit_vector);
    }
    assert(and32(a, b) =~= and32(b, a));
}

/// XOR with the same operand twice gives the first operand back.
pub proof fn lemma_xor32_involution(a: Seq<u32>, b: Seq<u32>)
    ensures
        xor32(xor32(a, b), b) == a,
{
    assert forall|i: int| 0 <= i < a.len() implies #[trigger] xor32(xor32(a, b), b)[i]
        == a[i] by {
        let x: u32 = a[i];
        let y: u32 = b[i];
        assert((x ^ y) ^ y == x) by (bit_vector);
    }
    assert(xor32(xor32(a, b), b) =~= a);
}

/// XOR with the all-ones pattern, then AND with `b`, is AND-NOT.
pub proof fn lemma_andnot32_composed(a: Seq<u32>, b: Seq<u32>)
    ensures
        and32(xor32(a, splat32(a.len(), u32::MAX)), b) == andnot32(a, b),
{
    let ones = splat32(a.len(), u32::MAX);
    assert forall|i: int| 0 <= i < a.len() implies #[trigger] and32(xor32(a, ones), b)[i]
        == andnot32(a, b)[i] by {
        let x: u32 = a[i];
        let y: u32 = b[i];
        assert((x ^ 0xffff_ffffu32) & y == !x & y) by (bit_vector);
    }
    assert(and32(xor32(a, ones), b) =~= andnot32(a, b));
}

/// The mask with all eight bits set selects every lane.
pub proof fn lemma_mask_bit_all_ones(i: int)
    requires
        0 <= i < 8,
    ensures
        mask_bit(0xffu8, i),
{
    let j: u8 = i as u8;
    assert((0xffu8 >> j) & 1u8 == 1u8) by (bit_vector)
        requires
            j < 8,
    ;
}

/// The mask with no bit set selects no lane.
pub proof fn lemma_mask_bit_zero(i: int)
    ensures
        !mask_bit(0u8, i),
{
    let j: u8 = i as u8;
    assert((0u8 >> j) & 1u8 == 0u8) by (bit_vector);
}

/// Under the full mask the choice is the first operand, lane for lane.
pub proof fn lemma_select64_all_ones(a: Seq<u64>, b: Seq<u64>)
    requires
        a.len() <= 8,
    ensures
        select64(0xffu8, a, b) == a,
{
    assert forall|i: int| 0 <= i < a.len() implies #[trigger] select64(0xffu8, a, b)[i]
        == a[i] by {
        lemma_mask_bit_all_ones(i);
    }
    assert(select64(0xffu8, a, b) =~= a);
}

/// Under the empty mask the choice is the second operand, lane for lane.
pub proof fn lemma_select64_zero(a: Seq<u64>, b: Seq<u64>)
    requires
        a.len() == b.len(),
    ensures
        select64(0u8, a, b) == b,
{
    assert forall|i: int| 0 <= i < a.len() implies #[trigger] select64(0u8, a, b)[i] == b[i] by {
        lemma_mask_bit_zero(i);
    }
    assert(select64(0u8, a, b) =~= b);
}

/// Choosing against zero is choosing with the all-zero sequence as the
/// second operand.
pub proof fn lemma_zero_select64(k: u8, a: Seq<u64>)
    ensures
        zero_select64(k, a) == select64(k, a, splat64(a.len(), 0)),
{
    assert(zero_select64(k, a) =~= select64(k, a, splat64(a.len(), 0)));
}

} // verus!
