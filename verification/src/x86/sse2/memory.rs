//! Loads from and stores to a vector that lives in memory.

use crate::v128::{i64x2, i8x16};
use crate::x86::__m128i;
use vstd::prelude::*;

verus! {

/// Loads the low 64-bit lane of the vector at `mem_addr`; the high lane of
/// the result is zero.
pub fn _mm_loadl_epi64(mem_addr: &i64x2) -> (r: i64x2)
    ensures
        r@ == seq![mem_addr@[0], 0i64],
{
    i64x2::new(mem_addr.extract(0), 0)
}

/// Loads the 128 bits of integer data at `mem_addr`.
pub fn _mm_load_si128(mem_addr: &__m128i) -> (r: __m128i)
    ensures
        r == *mem_addr,
{
    *mem_addr
}

/// Loads the 128 bits of integer data at `mem_addr`.
pub fn _mm_loadu_si128(mem_addr: &__m128i) -> (r: __m128i)
    ensures
        r == *mem_addr,
{
    *mem_addr
}

/// Stores the bytes of `a` whose byte in `mask` has its highest bit set; the
/// other bytes at `mem_addr` stay as they are.
pub fn _mm_maskmoveu_si128(a: i8x16, mask: i8x16, mem_addr: &mut i8x16)
    ensures
        forall|i: int|
            0 <= i < 16 ==> #[trigger] final(mem_addr)@[i] == (if mask@[i] < 0 {
                a@[i]
            } else {
                old(mem_addr)@[i]
            }),
{
    let mut lanes = mem_addr.lanes;
    let mut i: usize = 0;
    while i < 16
        invariant
            i <= 16,
            forall|j: int|
                0 <= j < i ==> #[trigger] lanes@[j] == (if mask@[j] < 0 {
                    a@[j]
                } else {
                    old(mem_addr)@[j]
                }),
            forall|j: int| i <= j < 16 ==> #[trigger] lanes@[j] == old(mem_addr)@[j],
        decreases 16 - i,
    {
        if mask.lanes[i] < 0 {
            lanes[i] = a.lanes[i];
        }
        i += 1;
    }
    *mem_addr = i8x16 { lanes };
}

/// Stores the 128 bits of integer data in `a` at `mem_addr`.
pub fn _mm_store_si128(mem_addr: &mut __m128i, a: __m128i)
    ensures
        *final(mem_addr) == a,
{
    *mem_addr = a;
}

/// Stores the 128 bits of integer data in `a` at `mem_addr`.
pub fn _mm_storeu_si128(mem_addr: &mut __m128i, a: __m128i)
    ensures
        *final(mem_addr) == a,
{
    *mem_addr = a;
}

/// Stores the low 64 bits of `a` over the low 64 bits at `mem_addr`; the
/// high 64 bits there stay as they are.
pub fn _mm_storel_epi64(mem_addr: &mut __m128i, a: __m128i)
    ensures
        forall|i: int| 0 <= i < 8 ==> #[trigger] final(mem_addr)@[i] == a@[i],
        forall|i: int| 8 <= i < 16 ==> #[trigger] final(mem_addr)@[i] == old(mem_addr)@[i],
{
    let mut lanes = mem_addr.lanes;
    let mut i: usize = 0;
    while i < 8
        invariant
            i <= 8,
            forall|j: int| 0 <= j < i ==> #[trigger] lanes@[j] == a@[j],
            forall|j: int| 8 <= j < 16 ==> #[trigger] lanes@[j] == old(mem_addr)@[j],
        decreases 8 - i,
    {
        lanes[i] = a.lanes[i];
        i += 1;
    }
    *mem_addr = __m128i { lanes };
}

} // verus!
