//! Lane-by-lane integer arithmetic.

use crate::lane::{
    sat_i16, sat_i8, sat_u16, sat_u8, saturate_i16, saturate_i8, saturate_u16, saturate_u8,
    wrap16, wrap32, wrap64, wrap8,
};
use crate::v128::{i16x8, i32x4, i64x2, i8x16, u16x8, u32x4, u64x2, u8x16};
use vstd::prelude::*;

verus! {

/// Adds the 8-bit lanes of `a` and `b`; a sum out of range wraps around.
pub fn _mm_add_epi8(a: i8x16, b: i8x16) -> (r: i8x16)
    ensures
        forall|i: int| 0 <= i < 16 ==> #[trigger] r@[i] == wrap8(a@[i] + b@[i]),
{
    let mut lanes = a.lanes;
    let mut i: usize = 0;
    while i < 16
        invariant
            i <= 16,
            forall|j: int| 0 <= j < i ==> #[trigger] lanes@[j] == wrap8(a@[j] + b@[j]),
        decreases 16 - i,
    {
        lanes[i] = a.lanes[i].wrapping_add(b.lanes[i]);
        i += 1;
    }
    i8x16 { lanes }
}

/// Adds the 16-bit lanes of `a` and `b`; a sum out of range wraps around.
pub fn _mm_add_epi16(a: i16x8, b: i16x8) -> (r: i16x8)
    ensures
        forall|i: int| 0 <= i < 8 ==> #[trigger] r@[i] == wrap16(a@[i] + b@[i]),
{
    let mut lanes = a.lanes;
    let mut i: usize = 0;
    while i < 8
        invariant
            i <= 8,
            forall|j: int| 0 <= j < i ==> #[trigger] lanes@[j] == wrap16(a@[j] + b@[j]),
        decreases 8 - i,
    {
        lanes[i] = a.lanes[i].wrapping_add(b.lanes[i]);
        i += 1;
    }
    i16x8 { lanes }
}

/// Adds the 32-bit lanes of `a` and `b`; a sum out of range wraps around.
pub fn _mm_add_epi32(a: i32x4, b: i32x4) -> (r: i32x4)
    ensures
        forall|i: int| 0 <= i < 4 ==> #[trigger] r@[i] == wrap32(a@[i] + b@[i]),
{
    let mut lanes = a.lanes;
    let mut i: usize = 0;
    while i < 4
        invariant
            i <= 4,
            forall|j: int| 0 <= j < i ==> #[trigger] lanes@[j] == wrap32(a@[j] + b@[j]),
        decreases 4 - i,
    {
        lanes[i] = a.lanes[i].wrapping_add(b.lanes[i]);
        i += 1;
    }
    i32x4 { lanes }
}

/// Adds the 64-bit lanes of `a` and `b`; a sum out of range wraps around.
pub fn _mm_add_epi64(a: i64x2, b: i64x2) -> (r: i64x2)
    ensures
        forall|i: int| 0 <= i < 2 ==> #[trigger] r@[i] == wrap64(a@[i] + b@[i]),
{
    let mut lanes = a.lanes;
    let mut i: usize = 0;
    while i < 2
        invariant
            i <= 2,
            forall|j: int| 0 <= j < i ==> #[trigger] lanes@[j] == wrap64(a@[j] + b@[j]),
        decreases 2 - i,
    {
        lanes[i] = a.lanes[i].wrapping_add(b.lanes[i]);
        i += 1;
    }
    i64x2 { lanes }
}

/// Adds the signed 8-bit lanes of `a` and `b`; a sum out of range becomes the
/// nearest number in range.
pub fn _mm_adds_epi8(a: i8x16, b: i8x16) -> (r: i8x16)
    ensures
        forall|i: int| 0 <= i < 16 ==> #[trigger] r@[i] == sat_i8(a@[i] + b@[i]),
{
    let mut lanes = a.lanes;
    let mut i: usize = 0;
    while i < 16
        invariant
            i <= 16,
            forall|j: int| 0 <= j < i ==> #[trigger] lanes@[j] == sat_i8(a@[j] + b@[j]),
        decreases 16 - i,
    {
        lanes[i] = saturate_i8(a.lanes[i] as i16 + b.lanes[i] as i16);
        i += 1;
    }
    i8x16 { lanes }
}

/// Adds the signed 16-bit lanes of `a` and `b`; a sum out of range becomes the
/// nearest number in range.
pub fn _mm_adds_epi16(a: i16x8, b: i16x8) -> (r: i16x8)
    ensures
        forall|i: int| 0 <= i < 8 ==> #[trigger] r@[i] == sat_i16(a@[i] + b@[i]),
{
    let mut lanes = a.lanes;
    let mut i: usize = 0;
    while i < 8
        invariant
            i <= 8,
            forall|j: int| 0 <= j < i ==> #[trigger] lanes@[j] == sat_i16(a@[j] + b@[j]),
        decreases 8 - i,
    {
        lanes[i] = saturate_i16(a.lanes[i] as i32 + b.lanes[i] as i32);
        i += 1;
    }
    i16x8 { lanes }
}

/// Adds the unsigned 8-bit lanes of `a` and `b`; a sum out of range becomes the
/// nearest number in range.
pub fn _mm_adds_epu8(a: u8x16, b: u8x16) -> (r: u8x16)
    ensures
        forall|i: int| 0 <= i < 16 ==> #[trigger] r@[i] == sat_u8(a@[i] + b@[i]),
{
    let mut lanes = a.lanes;
    let mut i: usize = 0;
    while i < 16
        invariant
            i <= 16,
            forall|j: int| 0 <= j < i ==> #[trigger] lanes@[j] == sat_u8(a@[j] + b@[j]),
        decreases 16 - i,
    {
        lanes[i] = saturate_u8(a.lanes[i] as i16 + b.lanes[i] as i16);
        i += 1;
    }
    u8x16 { lanes }
}

/// Adds the unsigned 16-bit lanes of `a` and `b`; a sum out of range becomes the
/// nearest number in range.
pub fn _mm_adds_epu16(a: u16x8, b: u16x8) -> (r: u16x8)
    ensures
        forall|i: int| 0 <= i < 8 ==> #[trigger] r@[i] == sat_u16(a@[i] + b@[i]),
{
    let mut lanes = a.lanes;
    let mut i: usize = 0;
    while i < 8
        invariant
            i <= 8,
            forall|j: int| 0 <= j < i ==> #[trigger] lanes@[j] == sat_u16(a@[j] + b@[j]),
        decreases 8 - i,
    {
        lanes[i] = saturate_u16(a.lanes[i] as i32 + b.lanes[i] as i32);
        i += 1;
    }
    u16x8 { lanes }
}

/// Averages the unsigned 8-bit lanes of `a` and `b`, rounding halves up.
pub fn _mm_avg_epu8(a: u8x16, b: u8x16) -> (r: u8x16)
    ensures
        forall|i: int| 0 <= i < 16 ==> #[trigger] r@[i] == (a@[i] + b@[i] + 1) / 2,
{
    let mut lanes = a.lanes;
    let mut i: usize = 0;
    while i < 16
        invariant
            i <= 16,
            forall|j: int| 0 <= j < i ==> #[trigger] lanes@[j] == (a@[j] + b@[j] + 1) / 2,
        decreases 16 - i,
    {
        lanes[i] = ((a.lanes[i] as u16 + b.lanes[i] as u16 + 1) / 2) as u8;
        i += 1;
    }
    u8x16 { lanes }
}

/// Averages the unsigned 16-bit lanes of `a` and `b`, rounding halves up.
pub fn _mm_avg_epu16(a: u16x8, b: u16x8) -> (r: u16x8)
    ensures
        forall|i: int| 0 <= i < 8 ==> #[trigger] r@[i] == (a@[i] + b@[i] + 1) / 2,
{
    let mut lanes = a.lanes;
    let mut i: usize = 0;
    while i < 8
        invariant
            i <= 8,
            forall|j: int| 0 <= j < i ==> #[trigger] lanes@[j] == (a@[j] + b@[j] + 1) / 2,
        decreases 8 - i,
    {
        lanes[i] = ((a.lanes[i] as u32 + b.lanes[i] as u32 + 1) / 2) as u16;
        i += 1;
    }
    u16x8 { lanes }
}

/// Keeps, lane by lane, the greater of the signed 16-bit lanes of `a` and `b`.
pub fn _mm_max_epi16(a: i16x8, b: i16x8) -> (r: i16x8)
    ensures
        forall|i: int| 0 <= i < 8 ==> #[trigger] r@[i] == (if a@[i] >= b@[i] {
            a@[i]
        } else {
            b@[i]
        }),
{
    let mut lanes = a.lanes;
    let mut i: usize = 0;
    while i < 8
        invariant
            i <= 8,
            forall|j: int| 0 <= j < i ==> #[trigger] lanes@[j] == (if a@[j] >= b@[j] {
            a@[j]
        } else {
            b@[j]
        }),
        decreases 8 - i,
    {
        lanes[i] = if a.lanes[i] >= b.lanes[i] {
            a.lanes[i]
        } else {
            b.lanes[i]
        };
        i += 1;
    }
    i16x8 { lanes }
}

/// Keeps, lane by lane, the greater of the unsigned 8-bit lanes of `a` and `b`.
pub fn _mm_max_epu8(a: u8x16, b: u8x16) -> (r: u8x16)
    ensures
        forall|i: int| 0 <= i < 16 ==> #[trigger] r@[i] == (if a@[i] >= b@[i] {
            a@[i]
        } else {
            b@[i]
        }),
{
    let mut lanes = a.lanes;
    let mut i: usize = 0;
    while i < 16
        invariant
            i <= 16,
            forall|j: int| 0 <= j < i ==> #[trigger] lanes@[j] == (if a@[j] >= b@[j] {
            a@[j]
        } else {
            b@[j]
        }),
        decreases 16 - i,
    {
        lanes[i] = if a.lanes[i] >= b.lanes[i] {
            a.lanes[i]
        } else {
            b.lanes[i]
        };
        i += 1;
    }
    u8x16 { lanes }
}

/// Keeps, lane by lane, the lesser of the signed 16-bit lanes of `a` and `b`.
pub fn _mm_min_epi16(a: i16x8, b: i16x8) -> (r: i16x8)
    ensures
        forall|i: int| 0 <= i < 8 ==> #[trigger] r@[i] == (if a@[i] <= b@[i] {
            a@[i]
        } else {
            b@[i]
        }),
{
    let mut lanes = a.lanes;
    let mut i: usize = 0;
    while i < 8
        invariant
            i <= 8,
            forall|j: int| 0 <= j < i ==> #[trigger] lanes@[j] == (if a@[j] <= b@[j] {
            a@[j]
        } else {
            b@[j]
        }),
        decreases 8 - i,
    {
        lanes[i] = if a.lanes[i] <= b.lanes[i] {
            a.lanes[i]
        } else {
            b.lanes[i]
        };
        i += 1;
    }
    i16x8 { lanes }
}

/// Keeps, lane by lane, the lesser of the unsigned 8-bit lanes of `a` and `b`.
pub fn _mm_min_epu8(a: u8x16, b: u8x16) -> (r: u8x16)
    ensures
        forall|i: int| 0 <= i < 16 ==> #[trigger] r@[i] == (if a@[i] <= b@[i] {
            a@[i]
        } else {
            b@[i]
        }),
{
    let mut lanes = a.lanes;
    let mut i: usize = 0;
    while i < 16
        invariant
            i <= 16,
            forall|j: int| 0 <= j < i ==> #[trigger] lanes@[j] == (if a@[j] <= b@[j] {
            a@[j]
        } else {
            b@[j]
        }),
        decreases 16 - i,
    {
        lanes[i] = if a.lanes[i] <= b.lanes[i] {
            a.lanes[i]
        } else {
            b.lanes[i]
        };
        i += 1;
    }
    u8x16 { lanes }
}

/// Subtracts the 8-bit lanes of `b` from those of `a`; a difference out of range
/// wraps around.
pub fn _mm_sub_epi8(a: i8x16, b: i8x16) -> (r: i8x16)
    ensures
        forall|i: int| 0 <= i < 16 ==> #[trigger] r@[i] == wrap8(a@[i] - b@[i]),
{
    let mut lanes = a.lanes;
    let mut i: usize = 0;
    while i < 16
        invariant
            i <= 16,
            forall|j: int| 0 <= j < i ==> #[trigger] lanes@[j] == wrap8(a@[j] - b@[j]),
        decreases 16 - i,
    {
        lanes[i] = a.lanes[i].wrapping_sub(b.lanes[i]);
        i += 1;
    }
    i8x16 { lanes }
}

/// Subtracts the 16-bit lanes of `b` from those of `a`; a difference out of range
/// wraps around.
pub fn _mm_sub_epi16(a: i16x8, b: i16x8) -> (r: i16x8)
    ensures
        forall|i: int| 0 <= i < 8 ==> #[trigger] r@[i] == wrap16(a@[i] - b@[i]),
{
    let mut lanes = a.lanes;
    let mut i: usize = 0;
    while i < 8
        invariant
            i <= 8,
            forall|j: int| 0 <= j < i ==> #[trigger] lanes@[j] == wrap16(a@[j] - b@[j]),
        decreases 8 - i,
    {
        lanes[i] = a.lanes[i].wrapping_sub(b.lanes[i]);
        i += 1;
    }
    i16x8 { lanes }
}

/// Subtracts the 32-bit lanes of `b` from those of `a`; a difference out of range
/// wraps around.
pub fn _mm_sub_epi32(a: i32x4, b: i32x4) -> (r: i32x4)
    ensures
        forall|i: int| 0 <= i < 4 ==> #[trigger] r@[i] == wrap32(a@[i] - b@[i]),
{
    let mut lanes = a.lanes;
    let mut i: usize = 0;
    while i < 4
        invariant
            i <= 4,
            forall|j: int| 0 <= j < i ==> #[trigger] lanes@[j] == wrap32(a@[j] - b@[j]),
        decreases 4 - i,
    {
        lanes[i] = a.lanes[i].wrapping_sub(b.lanes[i]);
        i += 1;
    }
    i32x4 { lanes }
}

/// Subtracts the 64-bit lanes of `b` from those of `a`; a difference out of range
/// wraps around.
pub fn _mm_sub_epi64(a: i64x2, b: i64x2) -> (r: i64x2)
    ensures
        forall|i: int| 0 <= i < 2 ==> #[trigger] r@[i] == wrap64(a@[i] - b@[i]),
{
    let mut lanes = a.lanes;
    let mut i: usize = 0;
    while i < 2
        invariant
            i <= 2,
            forall|j: int| 0 <= j < i ==> #[trigger] lanes@[j] == wrap64(a@[j] - b@[j]),
        decreases 2 - i,
    {
        lanes[i] = a.lanes[i].wrapping_sub(b.lanes[i]);
        i += 1;
    }
    i64x2 { lanes }
}

/// Subtracts the signed 8-bit lanes of `b` from those of `a`; a difference out of
/// range becomes the nearest number in range.
pub fn _mm_subs_epi8(a: i8x16, b: i8x16) -> (r: i8x16)
    ensures
        forall|i: int| 0 <= i < 16 ==> #[trigger] r@[i] == sat_i8(a@[i] - b@[i]),
{
    let mut lanes = a.lanes;
    let mut i: usize = 0;
    while i < 16
        invariant
            i <= 16,
            forall|j: int| 0 <= j < i ==> #[trigger] lanes@[j] == sat_i8(a@[j] - b@[j]),
        decreases 16 - i,
    {
        lanes[i] = saturate_i8(a.lanes[i] as i16 - b.lanes[i] as i16);
        i += 1;
    }
    i8x16 { lanes }
}

/// Subtracts the signed 16-bit lanes of `b` from those of `a`; a difference out of
/// range becomes the nearest number in range.
pub fn _mm_subs_epi16(a: i16x8, b: i16x8) -> (r: i16x8)
    ensures
        forall|i: int| 0 <= i < 8 ==> #[trigger] r@[i] == sat_i16(a@[i] - b@[i]),
{
    let mut lanes = a.lanes;
    let mut i: usize = 0;
    while i < 8
        invariant
            i <= 8,
            forall|j: int| 0 <= j < i ==> #[trigger] lanes@[j] == sat_i16(a@[j] - b@[j]),
        decreases 8 - i,
    {
        lanes[i] = saturate_i16(a.lanes[i] as i32 - b.lanes[i] as i32);
        i += 1;
    }
    i16x8 { lanes }
}

/// Subtracts the unsigned 8-bit lanes of `b` from those of `a`; a difference out of
/// range becomes the nearest number in range.
pub fn _mm_subs_epu8(a: u8x16, b: u8x16) -> (r: u8x16)
    ensures
        forall|i: int| 0 <= i < 16 ==> #[trigger] r@[i] == sat_u8(a@[i] - b@[i]),
{
    let mut lanes = a.lanes;
    let mut i: usize = 0;
    while i < 16
        invariant
            i <= 16,
            forall|j: int| 0 <= j < i ==> #[trigger] lanes@[j] == sat_u8(a@[j] - b@[j]),
        decreases 16 - i,
    {
        lanes[i] = saturate_u8(a.lanes[i] as i16 - b.lanes[i] as i16);
        i += 1;
    }
    u8x16 { lanes }
}

/// Subtracts the unsigned 16-bit lanes of `b` from those of `a`; a difference out of
/// range becomes the nearest number in range.
pub fn _mm_subs_epu16(a: u16x8, b: u16x8) -> (r: u16x8)
    ensures
        forall|i: int| 0 <= i < 8 ==> #[trigger] r@[i] == sat_u16(a@[i] - b@[i]),
{
    let mut lanes = a.lanes;
    let mut i: usize = 0;
    while i < 8
        invariant
            i <= 8,
            forall|j: int| 0 <= j < i ==> #[trigger] lanes@[j] == sat_u16(a@[j] - b@[j]),
        decreases 8 - i,
    {
        lanes[i] = saturate_u16(a.lanes[i] as i32 - b.lanes[i] as i32);
        i += 1;
    }
    u16x8 { lanes }
}
/// The product of two 16-bit numbers, which always fits 32 bits.
fn mul_i16(x: i16, y: i16) -> (p: i32)
    ensures
        p == x * y,
        -0x4000_0000 < p <= 0x4000_0000,
{
    assert(-0x4000_0000 < x * y <= 0x4000_0000) by (nonlinear_arith)
        requires
            -0x8000 <= x <= 0x7FFF,
            -0x8000 <= y <= 0x7FFF,
    ;
    (x as i32) * (y as i32)
}

/// The product of two unsigned 16-bit numbers, which always fits 32 bits.
fn mul_u16(x: u16, y: u16) -> (p: u32)
    ensures
        p == x * y,
{
    assert(0 <= x * y <= 0xFFFF * 0xFFFF) by (nonlinear_arith)
        requires
            0 <= x <= 0xFFFF,
            0 <= y <= 0xFFFF,
    ;
    (x as u32) * (y as u32)
}

/// The product of two unsigned 32-bit numbers, which always fits 64 bits.
fn mul_u32(x: u32, y: u32) -> (p: u64)
    ensures
        p == x * y,
{
    assert(0 <= x * y <= 0xFFFF_FFFF * 0xFFFF_FFFF) by (nonlinear_arith)
        requires
            0 <= x <= 0xFFFF_FFFF,
            0 <= y <= 0xFFFF_FFFF,
    ;
    (x as u64) * (y as u64)
}

/// Multiplies the signed 16-bit lanes of `a` and `b` into 32-bit products and
/// adds each pair of neighbouring products into one 32-bit lane; a sum out
/// of range wraps around.
pub fn _mm_madd_epi16(a: i16x8, b: i16x8) -> (r: i32x4)
    ensures
        forall|i: int|
            0 <= i < 4 ==> #[trigger] r@[i] == wrap32(
                a@[2 * i] * b@[2 * i] + a@[2 * i + 1] * b@[2 * i + 1],
            ),
{
    let mut lanes = [0i32; 4];
    let mut i: usize = 0;
    while i < 4
        invariant
            i <= 4,
            forall|j: int|
                0 <= j < i ==> #[trigger] lanes@[j] == wrap32(
                    a@[2 * j] * b@[2 * j] + a@[2 * j + 1] * b@[2 * j + 1],
                ),
        decreases 4 - i,
    {
        let lo = mul_i16(a.lanes[2 * i], b.lanes[2 * i]);
        let hi = mul_i16(a.lanes[2 * i + 1], b.lanes[2 * i + 1]);
        lanes[i] = lo.wrapping_add(hi);
        i += 1;
    }
    i32x4 { lanes }
}

/// Multiplies the signed 16-bit lanes of `a` and `b` and keeps the high 16
/// bits of each 32-bit product.
pub fn _mm_mulhi_epi16(a: i16x8, b: i16x8) -> (r: i16x8)
    ensures
        forall|i: int| 0 <= i < 8 ==> #[trigger] r@[i] == (a@[i] * b@[i]) / 0x1_0000,
{
    let mut lanes = a.lanes;
    let mut i: usize = 0;
    while i < 8
        invariant
            i <= 8,
            forall|j: int| 0 <= j < i ==> #[trigger] lanes@[j] == (a@[j] * b@[j]) / 0x1_0000,
        decreases 8 - i,
    {
        let p = mul_i16(a.lanes[i], b.lanes[i]);
        let h: i32 = p >> 16;
        assert(h == p / 0x1_0000 && -0x8000 <= h <= 0x7FFF) by (bit_vector)
            requires
                h == p >> 16,
                -0x4000_0000 < p <= 0x4000_0000,
        ;
        lanes[i] = h as i16;
        i += 1;
    }
    i16x8 { lanes }
}

/// Multiplies the unsigned 16-bit lanes of `a` and `b` and keeps the high 16
/// bits of each 32-bit product.
pub fn _mm_mulhi_epu16(a: u16x8, b: u16x8) -> (r: u16x8)
    ensures
        forall|i: int| 0 <= i < 8 ==> #[trigger] r@[i] == (a@[i] * b@[i]) / 0x1_0000,
{
    let mut lanes = a.lanes;
    let mut i: usize = 0;
    while i < 8
        invariant
            i <= 8,
            forall|j: int| 0 <= j < i ==> #[trigger] lanes@[j] == (a@[j] * b@[j]) / 0x1_0000,
        decreases 8 - i,
    {
        let p = mul_u16(a.lanes[i], b.lanes[i]);
        lanes[i] = (p / 0x1_0000) as u16;
        i += 1;
    }
    u16x8 { lanes }
}

/// Multiplies the 16-bit lanes of `a` and `b` and keeps the low 16 bits of
/// each 32-bit product.
pub fn _mm_mullo_epi16(a: i16x8, b: i16x8) -> (r: i16x8)
    ensures
        forall|i: int| 0 <= i < 8 ==> #[trigger] r@[i] == wrap16(a@[i] * b@[i]),
{
    let mut lanes = a.lanes;
    let mut i: usize = 0;
    while i < 8
        invariant
            i <= 8,
            forall|j: int| 0 <= j < i ==> #[trigger] lanes@[j] == wrap16(a@[j] * b@[j]),
        decreases 8 - i,
    {
        lanes[i] = a.lanes[i].wrapping_mul(b.lanes[i]);
        i += 1;
    }
    i16x8 { lanes }
}

/// Multiplies the low unsigned 32-bit half of each 64-bit element of `a` and
/// `b`, that is lanes 0 and 2, into full 64-bit products.
pub fn _mm_mul_epu32(a: u32x4, b: u32x4) -> (r: u64x2)
    ensures
        forall|i: int| 0 <= i < 2 ==> #[trigger] r@[i] == a@[2 * i] * b@[2 * i],
{
    let mut lanes = [0u64; 2];
    let mut i: usize = 0;
    while i < 2
        invariant
            i <= 2,
            forall|j: int| 0 <= j < i ==> #[trigger] lanes@[j] == a@[2 * j] * b@[2 * j],
        decreases 2 - i,
    {
        lanes[i] = mul_u32(a.lanes[2 * i], b.lanes[2 * i]);
        i += 1;
    }
    u64x2 { lanes }
}

/// The distance between two bytes.
pub open spec fn abs_diff(x: u8, y: u8) -> int {
    if x >= y {
        x - y
    } else {
        y - x
    }
}

/// The sum of the distances between the eight bytes of `a` and of `b` from
/// place `o` on.
pub open spec fn sum_abs_diff8(a: Seq<u8>, b: Seq<u8>, o: int) -> int {
    abs_diff(a[o], b[o]) + abs_diff(a[o + 1], b[o + 1]) + abs_diff(a[o + 2], b[o + 2]) + abs_diff(
        a[o + 3],
        b[o + 3],
    ) + abs_diff(a[o + 4], b[o + 4]) + abs_diff(a[o + 5], b[o + 5]) + abs_diff(a[o + 6], b[o + 6])
        + abs_diff(a[o + 7], b[o + 7])
}

/// The distance between two bytes.
fn distance(x: u8, y: u8) -> (d: u64)
    ensures
        d == abs_diff(x, y),
        d <= 0xFF,
{
    if x >= y {
        (x - y) as u64
    } else {
        (y - x) as u64
    }
}

/// The sum of the distances between the eight bytes of `a` and of `b` from place
/// `o` on.
fn distance_sum8(a: &[u8; 16], b: &[u8; 16], o: usize) -> (sum: u64)
    requires
        o + 8 <= 16,
    ensures
        sum == sum_abs_diff8(a@, b@, o as int),
{
    let d0 = distance(a[o], b[o]);
    let d1 = distance(a[o + 1], b[o + 1]);
    let d2 = distance(a[o + 2], b[o + 2]);
    let d3 = distance(a[o + 3], b[o + 3]);
    let d4 = distance(a[o + 4], b[o + 4]);
    let d5 = distance(a[o + 5], b[o + 5]);
    let d6 = distance(a[o + 6], b[o + 6]);
    let d7 = distance(a[o + 7], b[o + 7]);
    d0 + d1 + d2 + d3 + d4 + d5 + d6 + d7
}

/// Sums the distances between the unsigned bytes of `a` and of `b`, the low
/// eight into lane 0 and the high eight into lane 1.
pub fn _mm_sad_epu8(a: u8x16, b: u8x16) -> (r: u64x2)
    ensures
        forall|i: int| 0 <= i < 2 ==> #[trigger] r@[i] == sum_abs_diff8(a@, b@, 8 * i),
{
    let mut lanes = [0u64; 2];
    let mut i: usize = 0;
    while i < 2
        invariant
            i <= 2,
            forall|j: int| 0 <= j < i ==> #[trigger] lanes@[j] == sum_abs_diff8(a@, b@, 8 * j),
        decreases 2 - i,
    {
        lanes[i] = distance_sum8(&a.lanes, &b.lanes, 8 * i);
        i += 1;
    }
    u64x2 { lanes }
}

} // verus!
