//! Interleaving of the lanes of one half of two vectors.

use crate::permute::{simd_shuffle16, simd_shuffle2, simd_shuffle4, simd_shuffle8};
use crate::v128::{i16x8, i32x4, i64x2, i8x16};
use vstd::prelude::*;

verus! {

/// The lanes of `a` and of `b` from lane `from` on, taken in turn: one of
/// `a`, then the one of `b` at the same place, as many as `a` has lanes.
pub open spec fn interleaved<T>(a: Seq<T>, b: Seq<T>, from: int) -> Seq<T> {
    Seq::new(
        a.len(),
        |i: int|
            if i % 2 == 0 {
                a[from + i / 2]
            } else {
                b[from + i / 2]
            },
    )
}

/// Interleaves the eight high 8-bit lanes of `a` and `b`.
pub fn _mm_unpackhi_epi8(a: i8x16, b: i8x16) -> (r: i8x16)
    ensures
        r@ == interleaved(a@, b@, 8),
{
    let r = simd_shuffle16(a, b, [8, 24, 9, 25, 10, 26, 11, 27, 12, 28, 13, 29, 14, 30, 15, 31]);
    assert(r@ =~= interleaved(a@, b@, 8));
    r
}

/// Interleaves the four high 16-bit lanes of `a` and `b`.
pub fn _mm_unpackhi_epi16(a: i16x8, b: i16x8) -> (r: i16x8)
    ensures
        r@ == interleaved(a@, b@, 4),
{
    let r = simd_shuffle8(a, b, [4, 12, 5, 13, 6, 14, 7, 15]);
    assert(r@ =~= interleaved(a@, b@, 4));
    r
}

/// Interleaves the two high 32-bit lanes of `a` and `b`.
pub fn _mm_unpackhi_epi32(a: i32x4, b: i32x4) -> (r: i32x4)
    ensures
        r@ == interleaved(a@, b@, 2),
{
    let r = simd_shuffle4(a, b, [2, 6, 3, 7]);
    assert(r@ =~= interleaved(a@, b@, 2));
    r
}

/// Puts the high 64-bit lane of `a` below the high 64-bit lane of `b`.
pub fn _mm_unpackhi_epi64(a: i64x2, b: i64x2) -> (r: i64x2)
    ensures
        r@ == interleaved(a@, b@, 1),
{
    let r = simd_shuffle2(a, b, [1, 3]);
    assert(r@ =~= interleaved(a@, b@, 1));
    r
}

/// Interleaves the eight low 8-bit lanes of `a` and `b`.
pub fn _mm_unpacklo_epi8(a: i8x16, b: i8x16) -> (r: i8x16)
    ensures
        r@ == interleaved(a@, b@, 0),
{
    let r = simd_shuffle16(a, b, [0, 16, 1, 17, 2, 18, 3, 19, 4, 20, 5, 21, 6, 22, 7, 23]);
    assert(r@ =~= interleaved(a@, b@, 0));
    r
}

/// Interleaves the four low 16-bit lanes of `a` and `b`.
pub fn _mm_unpacklo_epi16(a: i16x8, b: i16x8) -> (r: i16x8)
    ensures
        r@ == interleaved(a@, b@, 0),
{
    let r = simd_shuffle8(a, b, [0, 8, 1, 9, 2, 10, 3, 11]);
    assert(r@ =~= interleaved(a@, b@, 0));
    r
}

/// Interleaves the two low 32-bit lanes of `a` and `b`.
pub fn _mm_unpacklo_epi32(a: i32x4, b: i32x4) -> (r: i32x4)
    ensures
        r@ == interleaved(a@, b@, 0),
{
    let r = simd_shuffle4(a, b, [0, 4, 1, 5]);
    assert(r@ =~= interleaved(a@, b@, 0));
    r
}

/// Puts the low 64-bit lane of `a` below the low 64-bit lane of `b`.
pub fn _mm_unpacklo_epi64(a: i64x2, b: i64x2) -> (r: i64x2)
    ensures
        r@ == interleaved(a@, b@, 0),
{
    let r = simd_shuffle2(a, b, [0, 2]);
    assert(r@ =~= interleaved(a@, b@, 0));
    r
}

} // verus!
