//! Vectors built from their lanes.

use crate::v128::{i16x8, i32x4, i64x2, i8x16};
use crate::x86::__m128i;
use vstd::prelude::*;

verus! {

/// Sets the 64-bit lanes to the values given, the highest lane first.
pub fn _mm_set_epi64x(e1: i64, e0: i64) -> (r: i64x2)
    ensures
        r@ == seq![e0, e1],
{
    i64x2::new(e0, e1)
}

/// Sets the 32-bit lanes to the values given, the highest lane first.
pub fn _mm_set_epi32(e3: i32, e2: i32, e1: i32, e0: i32) -> (r: i32x4)
    ensures
        r@ == seq![e0, e1, e2, e3],
{
    i32x4::new(e0, e1, e2, e3)
}

/// Sets the 16-bit lanes to the values given, the highest lane first.
pub fn _mm_set_epi16(
    e7: i16, e6: i16, e5: i16, e4: i16, e3: i16, e2: i16, e1: i16, e0: i16,
) -> (r: i16x8)
    ensures
        r@ == seq![e0, e1, e2, e3, e4, e5, e6, e7],
{
    i16x8::new(e0, e1, e2, e3, e4, e5, e6, e7)
}

/// Sets the 8-bit lanes to the values given, the highest lane first.
pub fn _mm_set_epi8(
    e15: i8, e14: i8, e13: i8, e12: i8, e11: i8, e10: i8, e9: i8, e8: i8, e7: i8, e6: i8,
    e5: i8, e4: i8, e3: i8, e2: i8, e1: i8, e0: i8,
) -> (r: i8x16)
    ensures
        r@ == seq![
            e0, e1, e2, e3, e4, e5, e6, e7, e8, e9, e10, e11, e12, e13, e14, e15,
        ],
{
    i8x16::new(
        e0, e1, e2, e3, e4, e5, e6, e7, e8, e9, e10, e11, e12, e13, e14, e15,
    )
}

/// Broadcasts `a` to every 64-bit lane.
pub fn _mm_set1_epi64x(a: i64) -> (r: i64x2)
    ensures
        r@ == Seq::new(2, |i: int| a),
{
    i64x2::splat(a)
}

/// Broadcasts `a` to every 32-bit lane.
pub fn _mm_set1_epi32(a: i32) -> (r: i32x4)
    ensures
        r@ == Seq::new(4, |i: int| a),
{
    i32x4::splat(a)
}

/// Broadcasts `a` to every 16-bit lane.
pub fn _mm_set1_epi16(a: i16) -> (r: i16x8)
    ensures
        r@ == Seq::new(8, |i: int| a),
{
    i16x8::splat(a)
}

/// Broadcasts `a` to every 8-bit lane.
pub fn _mm_set1_epi8(a: i8) -> (r: i8x16)
    ensures
        r@ == Seq::new(16, |i: int| a),
{
    i8x16::splat(a)
}

/// Sets the 32-bit lanes to the values given, the lowest lane first.
pub fn _mm_setr_epi32(e3: i32, e2: i32, e1: i32, e0: i32) -> (r: i32x4)
    ensures
        r@ == seq![e3, e2, e1, e0],
{
    i32x4::new(e3, e2, e1, e0)
}

/// Sets the 16-bit lanes to the values given, the lowest lane first.
pub fn _mm_setr_epi16(
    e7: i16, e6: i16, e5: i16, e4: i16, e3: i16, e2: i16, e1: i16, e0: i16,
) -> (r: i16x8)
    ensures
        r@ == seq![e7, e6, e5, e4, e3, e2, e1, e0],
{
    i16x8::new(e7, e6, e5, e4, e3, e2, e1, e0)
}

/// Sets the 8-bit lanes to the values given, the lowest lane first.
pub fn _mm_setr_epi8(
    e15: i8, e14: i8, e13: i8, e12: i8, e11: i8, e10: i8, e9: i8, e8: i8, e7: i8, e6: i8,
    e5: i8, e4: i8, e3: i8, e2: i8, e1: i8, e0: i8,
) -> (r: i8x16)
    ensures
        r@ == seq![
            e15, e14, e13, e12, e11, e10, e9, e8, e7, e6, e5, e4, e3, e2, e1, e0,
        ],
{
    i8x16::new(
        e15, e14, e13, e12, e11, e10, e9, e8, e7, e6, e5, e4, e3, e2, e1, e0,
    )
}

/// Returns the vector with every bit zero.
pub fn _mm_setzero_si128() -> (r: __m128i)
    ensures
        r@ == Seq::new(16, |i: int| 0i8),
{
    __m128i::splat(0)
}

} // verus!
