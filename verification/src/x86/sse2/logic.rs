//! Bitwise logic on 128 bits of integer data.

use crate::x86::__m128i;
use vstd::prelude::*;

verus! {

/// Computes the bitwise AND of `a` and `b`.
pub fn _mm_and_si128(a: __m128i, b: __m128i) -> (r: __m128i)
    ensures
        forall|i: int| 0 <= i < 16 ==> #[trigger] r@[i] == a@[i] & b@[i],
{
    let mut lanes = a.lanes;
    let mut i: usize = 0;
    while i < 16
        invariant
            i <= 16,
            forall|j: int| 0 <= j < i ==> #[trigger] lanes@[j] == a@[j] & b@[j],
        decreases 16 - i,
    {
        lanes[i] = a.lanes[i] & b.lanes[i];
        i += 1;
    }
    __m128i { lanes }
}

/// Computes the bitwise NOT of `a` and then its AND with `b`.
pub fn _mm_andnot_si128(a: __m128i, b: __m128i) -> (r: __m128i)
    ensures
        forall|i: int| 0 <= i < 16 ==> #[trigger] r@[i] == (!a@[i]) & b@[i],
{
    let mut lanes = a.lanes;
    let mut i: usize = 0;
    while i < 16
        invariant
            i <= 16,
            forall|j: int| 0 <= j < i ==> #[trigger] lanes@[j] == (!a@[j]) & b@[j],
        decreases 16 - i,
    {
        lanes[i] = (!a.lanes[i]) & b.lanes[i];
        i += 1;
    }
    __m128i { lanes }
}

/// Computes the bitwise OR of `a` and `b`.
pub fn _mm_or_si128(a: __m128i, b: __m128i) -> (r: __m128i)
    ensures
        forall|i: int| 0 <= i < 16 ==> #[trigger] r@[i] == a@[i] | b@[i],
{
    let mut lanes = a.lanes;
    let mut i: usize = 0;
    while i < 16
        invariant
            i <= 16,
            forall|j: int| 0 <= j < i ==> #[trigger] lanes@[j] == a@[j] | b@[j],
        decreases 16 - i,
    {
        lanes[i] = a.lanes[i] | b.lanes[i];
        i += 1;
    }
    __m128i { lanes }
}

/// Computes the bitwise XOR of `a` and `b`.
pub fn _mm_xor_si128(a: __m128i, b: __m128i) -> (r: __m128i)
    ensures
        forall|i: int| 0 <= i < 16 ==> #[trigger] r@[i] == a@[i] ^ b@[i],
{
    let mut lanes = a.lanes;
    let mut i: usize = 0;
    while i < 16
        invariant
            i <= 16,
            forall|j: int| 0 <= j < i ==> #[trigger] lanes@[j] == a@[j] ^ b@[j],
        decreases 16 - i,
    {
        lanes[i] = a.lanes[i] ^ b.lanes[i];
        i += 1;
    }
    __m128i { lanes }
}

} // verus!
