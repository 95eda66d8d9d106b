//! Bitwise logic on packed double- and single-precision vectors.
//!
//! Every operation works on bit patterns, lane by lane. No lane is read as a
//! floating-point number, so a NaN goes through with its payload and
//! nothing is rounded or signalled.

use vstd::prelude::*;
use crate::lanes::{
    and32, and64, andnot32, andnot64, lemma_and32_commutative, lemma_and32_idempotent,
    lemma_and64_commutative, lemma_and64_idempotent, lemma_andnot32_composed,
    lemma_andnot64_composed, lemma_select64_all_ones, lemma_select64_zero,
    lemma_xor32_involution, lemma_xor64_involution, lemma_zero_select64, mask_bit, select64,
    splat64, xor32, xor64, zero_select64,
};
use crate::x86::{__m512, __m512d, __mmask8, _mm512_setzero_pd, simd_select_bitmask};

verus! {

/// Bitwise AND of the double-precision lanes of `a` and `b`.
pub fn _mm512_and_pd(a: __m512d, b: __m512d) -> (dst: __m512d)
    ensures
        dst@ == and64(a@, b@),
        dst@.len() == a@.len(),
{
    let mut bits: [u64; 8] = [0u64; 8];
    let mut i: usize = 0;
    while i < 8
        invariant
            i <= 8,
            forall|j: int| 0 <= j < i ==> bits@[j] == a@[j] & b@[j],
        decreases 8 - i,
    {
        bits[i] = a.bits[i] & b.bits[i];
        i += 1;
    }
    __m512d { bits }
}

/// Bitwise XOR of the double-precision lanes of `a` and `b`.
pub fn _mm512_xor_pd(a: __m512d, b: __m512d) -> (dst: __m512d)
    ensures
        dst@ == xor64(a@, b@),
        dst@.len() == a@.len(),
{
    let mut bits: [u64; 8] = [0u64; 8];
    let mut i: usize = 0;
    while i < 8
        invariant
            i <= 8,
            forall|j: int| 0 <= j < i ==> bits@[j] == a@[j] ^ b@[j],
        decreases 8 - i,
    {
        bits[i] = a.bits[i] ^ b.bits[i];
        i += 1;
    }
    __m512d { bits }
}

/// Bitwise NOT of the double-precision lanes of `a`, then AND with those of
/// `b`. The complement is taken by XOR with the all-ones vector.
pub fn _mm512_andnot_pd(a: __m512d, b: __m512d) -> (dst: __m512d)
    ensures
        dst@ == andnot64(a@, b@),
        dst@.len() == a@.len(),
{
    let not_a = _mm512_xor_pd(a, __m512d::splat(u64::MAX));
    let dst = _mm512_and_pd(not_a, b);
    proof {
        lemma_andnot64_composed(a@, b@);
    }
    dst
}

/// AND-NOT of `a` and `b` under the write mask `k`: a lane whose mask bit is
/// set holds the AND-NOT, a lane whose bit is clear is copied from `src`.
pub fn _mm512_mask_andnot_pd(src: __m512d, k: __mmask8, a: __m512d, b: __m512d) -> (dst:
    __m512d)
    ensures
        dst@ == select64(k, andnot64(a@, b@), src@),
        dst@.len() == a@.len(),
{
    let andnot = _mm512_andnot_pd(a, b);
    simd_select_bitmask(k, andnot, src)
}

/// AND-NOT of `a` and `b` under the zero mask `k`: a lane whose mask bit is
/// set holds the AND-NOT, a lane whose bit is clear is zeroed.
pub fn _mm512_maskz_andnot_pd(k: __mmask8, a: __m512d, b: __m512d) -> (dst: __m512d)
    ensures
        dst@ == zero_select64(k, andnot64(a@, b@)),
        dst@.len() == a@.len(),
{
    let andnot = _mm512_andnot_pd(a, b);
    let zero = _mm512_setzero_pd();
    proof {
        lemma_zero_select64(k, andnot@);
    }
    simd_select_bitmask(k, andnot, zero)
}

/// Bitwise AND of the single-precision lanes of `a` and `b`.
pub fn _mm512_and_ps(a: __m512, b: __m512) -> (dst: __m512)
    ensures
        dst@ == and32(a@, b@),
        dst@.len() == a@.len(),
{
    let mut bits: [u32; 16] = [0u32; 16];
    let mut i: usize = 0;
    while i < 16
        invariant
            i <= 16,
            forall|j: int| 0 <= j < i ==> bits@[j] == a@[j] & b@[j],
        decreases 16 - i,
    {
        bits[i] = a.bits[i] & b.bits[i];
        i += 1;
    }
    __m512 { bits }
}

/// Bitwise XOR of the single-precision lanes of `a` and `b`.
pub fn _mm512_xor_ps(a: __m512, b: __m512) -> (dst: __m512)
    ensures
        dst@ == xor32(a@, b@),
        dst@.len() == a@.len(),
{
    let mut bits: [u32; 16] = [0u32; 16];
    let mut i: usize = 0;
    while i < 16
        invariant
            i <= 16,
            forall|j: int| 0 <= j < i ==> bits@[j] == a@[j] ^ b@[j],
        decreases 16 - i,
    {
        bits[i] = a.bits[i] ^ b.bits[i];
        i += 1;
    }
    __m512 { bits }
}

/// Bitwise NOT of the single-precision lanes of `a`, then AND with those of
/// `b`. The complement is taken by XOR with the all-ones vector.
pub fn _mm512_andnot_ps(a: __m512, b: __m512) -> (dst: __m512)
    ensures
        dst@ == andnot32(a@, b@),
        dst@.len() == a@.len(),
{
    let not_a = _mm512_xor_ps(a, __m512::splat(u32::MAX));
    let dst = _mm512_and_ps(not_a, b);
    proof {
        lemma_andnot32_composed(a@, b@);
    }
    dst
}

/// Each lane of the AND-NOT of two double-precision vectors is the complement
/// of the lane of `a`, ANDed with the lane of `b`.
pub proof fn lemma_andnot_pd_lanes(a: __m512d, b: __m512d)
    ensures
        andnot64(a@, b@).len() == 8,
        forall|i: int| 0 <= i < 8 ==> #[trigger] andnot64(a@, b@)[i] == !a@[i] & b@[i],
{
}

/// Each lane of the AND-NOT of two single-precision vectors is the complement
/// of the lane of `a`, ANDed with the lane of `b`.
pub proof fn lemma_andnot_ps_lanes(a: __m512, b: __m512)
    ensures
        andnot32(a@, b@).len() == 16,
        forall|i: int| 0 <= i < 16 ==> #[trigger] andnot32(a@, b@)[i] == !a@[i] & b@[i],
{
}

/// XOR undoes itself: XOR of `a` with `b`, then with `b` again, is `a`.
pub proof fn lemma_xor_pd_involution(a: __m512d, b: __m512d)
    ensures
        xor64(xor64(a@, b@), b@) == a@,
{
    lemma_xor64_involution(a@, b@);
}

/// XOR undoes itself: XOR of `a` with `b`, then with `b` again, is `a`.
pub proof fn lemma_xor_ps_involution(a: __m512, b: __m512)
    ensures
        xor32(xor32(a@, b@), b@) == a@,
{
    lemma_xor32_involution(a@, b@);
}

/// AND of a vector with itself is that vector, and AND gives the same
/// vector whichever operand comes first.
pub proof fn lemma_and_pd_idempotent_commutative(a: __m512d, b: __m512d)
    ensures
        and64(a@, a@) == a@,
        and64(a@, b@) == and64(b@, a@),
{
    lemma_and64_idempotent(a@);
    lemma_and64_commutative(a@, b@);
}

/// AND of a vector with itself is that vector, and AND gives the same
/// vector whichever operand comes first.
pub proof fn lemma_and_ps_idempotent_commutative(a: __m512, b: __m512)
    ensures
        and32(a@, a@) == a@,
        and32(a@, b@) == and32(b@, a@),
{
    lemma_and32_idempotent(a@);
    lemma_and32_commutative(a@, b@);
}

/// Write-masked AND-NOT, lane by lane: a lane whose mask bit is set equals the
/// lane of the unmasked AND-NOT, and a lane whose bit is clear equals the lane
/// of `src`.
pub proof fn lemma_mask_andnot_pd_lanes(src: __m512d, k: __mmask8, a: __m512d, b: __m512d)
    ensures
        forall|i: int|
            0 <= i < 8 && mask_bit(k, i) ==> #[trigger] select64(k, andnot64(a@, b@), src@)[i]
                == andnot64(a@, b@)[i],
        forall|i: int|
            0 <= i < 8 && !mask_bit(k, i) ==> #[trigger] select64(k, andnot64(a@, b@), src@)[i]
                == src@[i],
{
}

/// With every mask bit set, write-masked AND-NOT is the unmasked AND-NOT.
pub proof fn lemma_mask_andnot_pd_full_mask(src: __m512d, a: __m512d, b: __m512d)
    ensures
        select64(0xffu8, andnot64(a@, b@), src@) == andnot64(a@, b@),
{
    lemma_select64_all_ones(andnot64(a@, b@), src@);
}

/// With no mask bit set, write-masked AND-NOT gives `src` back unchanged.
pub proof fn lemma_mask_andnot_pd_empty_mask(src: __m512d, a: __m512d, b: __m512d)
    ensures
        select64(0u8, andnot64(a@, b@), src@) == src@,
{
    lemma_select64_zero(andnot64(a@, b@), src@);
}

/// Zero-masked AND-NOT is write-masked AND-NOT with the all-zero vector as
/// `src`, and each of its lanes whose mask bit is clear is exactly zero.
pub proof fn lemma_maskz_andnot_pd_as_mask(zero: __m512d, k: __mmask8, a: __m512d, b: __m512d)
    requires
        zero@ == splat64(8, 0),
    ensures
        zero_select64(k, andnot64(a@, b@)) == select64(k, andnot64(a@, b@), zero@),
        forall|i: int|
            0 <= i < 8 && !mask_bit(k, i) ==> #[trigger] zero_select64(k, andnot64(a@, b@))[i]
                == 0,
{
    lemma_zero_select64(k, andnot64(a@, b@));
}

} // verus!
