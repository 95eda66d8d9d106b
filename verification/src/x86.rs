//! The 512-bit vector types, as bit patterns, and what builds and selects
//! them.

use vstd::prelude::*;
use crate::lanes::{select64, splat32, splat64};

pub mod avx512dq;

verus! {

/// Eight packed double-precision lanes, each held as its 64-bit pattern.
/// Lane 0 is `bits[0]`.
#[allow(non_camel_case_types)]
#[derive(Clone, Copy, Debug, PartialEq, Eq)]
pub struct __m512d {
    pub bits: [u64; 8],
}

/// Sixteen packed single-precision lanes, each held as its 32-bit pattern.
/// Lane 0 is `bits[0]`.
#[allow(non_camel_case_types)]
#[derive(Clone, Copy, Debug, PartialEq, Eq)]
pub struct __m512 {
    pub bits: [u32; 16],
}

/// One bit per lane of an eight-lane vector; bit 0 stands for lane 0.
#[allow(non_camel_case_types)]
pub type __mmask8 = u8;

impl View for __m512d {
    type V = Seq<u64>;

    open spec fn view(&self) -> Seq<u64> {
        self.bits@
    }
}

impl View for __m512 {
    type V = Seq<u32>;

    open spec fn view(&self) -> Seq<u32> {
        self.bits@
    }
}

impl __m512d {
    /// All eight lanes hold the pattern `x`.
    pub fn splat(x: u64) -> (dst: __m512d)
        ensures
            dst@ == splat64(8, x),
    {
        __m512d { bits: [x; 8] }
    }

    /// A vector has eight lanes of 64 bits, 512 bits in all.
    pub proof fn lemma_lane_count(self)
        ensures
            self@.len() == 8,
            self@.len() * u64::BITS == 512,
    {
    }

    /// Vectors with the same lanes are the same vector.
    pub proof fn lemma_view_injective(self, other: __m512d)
        requires
            self@ == other@,
        ensures
            self == other,
    {
        assert(self.bits =~= other.bits);
    }
}

impl __m512 {
    /// All sixteen lanes hold the pattern `x`.
    pub fn splat(x: u32) -> (dst: __m512)
        ensures
            dst@ == splat32(16, x),
    {
        __m512 { bits: [x; 16] }
    }

    /// A vector has sixteen lanes of 32 bits, 512 bits in all.
    pub proof fn lemma_lane_count(self)
        ensures
            self@.len() == 16,
            self@.len() * u32::BITS == 512,
    {
    }

    /// Vectors with the same lanes are the same vector.
    pub proof fn lemma_view_injective(self, other: __m512)
        requires
            self@ == other@,
        ensures
            self == other,
    {
        assert(self.bits =~= other.bits);
    }
}

/// The vector whose eight lanes are all zero bits.
pub fn _mm512_setzero_pd() -> (dst: __m512d)
    ensures
        dst@ == splat64(8, 0),
{
    __m512d::splat(0)
}

/// Chooses each lane by its mask bit: from `a` where the bit is set, from `b`
/// where it is clear.
pub fn simd_select_bitmask(k: __mmask8, a: __m512d, b: __m512d) -> (dst: __m512d)
    ensures
        dst@ == select64(k, a@, b@),
{
    let mut bits: [u64; 8] = b.bits;
    let mut i: usize = 0;
    while i < 8
        invariant
            i <= 8,
            forall|j: int| 0 <= j < i ==> bits@[j] == select64(k, a@, b@)[j],
            forall|j: int| i <= j < 8 ==> bits@[j] == b@[j],
        decreases 8 - i,
    {
        if (k >> (i as u8)) & 1 == 1 {
            bits[i] = a.bits[i];
        }
        i += 1;
    }
    __m512d { bits }
}

} // verus!
