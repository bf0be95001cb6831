//! Lane-by-lane bit shifts.
//!
//! A count is read as an unsigned number. From the lane's width on, a logical
//! shift leaves zero and an arithmetic shift leaves the sign in every bit.

use crate::lane::{
    join64, join64_at, signed16, signed32, signed64, to_signed16, to_signed32, to_signed64,
    to_unsigned16, to_unsigned32, to_unsigned64, unsigned16, unsigned32, unsigned64,
};
use crate::v128::{i16x8, i32x4, i64x2};
use vstd::prelude::*;

verus! {

/// The count that a vector carries for a shift: its low 64 bits, read as an
/// unsigned number.
pub open spec fn shift_count(bytes: Seq<u8>) -> u64 {
    join64(bytes, 0)
}

/// `x` shifted left by `c` bits within 16 bits, zeros coming in.
pub open spec fn shl16(x: i16, c: int) -> i16 {
    if 0 <= c < 16 {
        signed16(unsigned16(x) << (c as u32))
    } else {
        0
    }
}

/// `x` shifted right by `c` bits, zeros coming in.
pub open spec fn shr16(x: i16, c: int) -> i16 {
    if 0 <= c < 16 {
        signed16(unsigned16(x) >> (c as u32))
    } else {
        0
    }
}

/// `x` shifted right by `c` bits, copies of the sign bit coming in.
pub open spec fn sar16(x: i16, c: int) -> i16 {
    if 0 <= c < 16 {
        x >> (c as u32)
    } else if x < 0 {
        -1i16
    } else {
        0
    }
}

/// `x` shifted left by `c` bits within 32 bits, zeros coming in.
pub open spec fn shl32(x: i32, c: int) -> i32 {
    if 0 <= c < 32 {
        signed32(unsigned32(x) << (c as u32))
    } else {
        0
    }
}

/// `x` shifted right by `c` bits, zeros coming in.
pub open spec fn shr32(x: i32, c: int) -> i32 {
    if 0 <= c < 32 {
        signed32(unsigned32(x) >> (c as u32))
    } else {
        0
    }
}

/// `x` shifted right by `c` bits, copies of the sign bit coming in.
pub open spec fn sar32(x: i32, c: int) -> i32 {
    if 0 <= c < 32 {
        x >> (c as u32)
    } else if x < 0 {
        -1i32
    } else {
        0
    }
}

/// `x` shifted left by `c` bits within 64 bits, zeros coming in.
pub open spec fn shl64(x: i64, c: int) -> i64 {
    if 0 <= c < 64 {
        signed64(unsigned64(x) << (c as u32))
    } else {
        0
    }
}

/// `x` shifted right by `c` bits, zeros coming in.
pub open spec fn shr64(x: i64, c: int) -> i64 {
    if 0 <= c < 64 {
        signed64(unsigned64(x) >> (c as u32))
    } else {
        0
    }
}

/// Shifts every 16-bit lane of `a` left by `c` bits.
fn shift_left16(a: i16x8, c: u64) -> (r: i16x8)
    ensures
        forall|i: int| 0 <= i < 8 ==> #[trigger] r@[i] == shl16(a@[i], c as int),
{
    let mut lanes = a.lanes;
    let mut i: usize = 0;
    while i < 8
        invariant
            i <= 8,
            forall|j: int| 0 <= j < i ==> #[trigger] lanes@[j] == shl16(a@[j], c as int),
        decreases 8 - i,
    {
        lanes[i] = if c < 16 {
            to_signed16(to_unsigned16(a.lanes[i]) << (c as u32))
        } else {
            0
        };
        i += 1;
    }
    i16x8 { lanes }
}

/// Shifts the 16-bit lanes of `a` left by `imm8` bits while shifting in zeros.
pub fn _mm_slli_epi16(a: i16x8, imm8: i32) -> (r: i16x8)
    ensures
        forall|i: int| 0 <= i < 8 ==> #[trigger] r@[i] == shl16(a@[i], unsigned32(imm8) as int),
{
    shift_left16(a, to_unsigned32(imm8) as u64)
}

/// Shifts the 16-bit lanes of `a` left by the count in the low 64 bits of
/// `count` while shifting in zeros.
pub fn _mm_sll_epi16(a: i16x8, count: i16x8) -> (r: i16x8)
    ensures
        forall|i: int|
            0 <= i < 8 ==> #[trigger] r@[i] == shl16(a@[i], shift_count(count.bytes()) as int),
{
    shift_left16(a, join64_at(&count.to_bytes(), 0))
}

/// Shifts every 32-bit lane of `a` left by `c` bits.
fn shift_left32(a: i32x4, c: u64) -> (r: i32x4)
    ensures
        forall|i: int| 0 <= i < 4 ==> #[trigger] r@[i] == shl32(a@[i], c as int),
{
    let mut lanes = a.lanes;
    let mut i: usize = 0;
    while i < 4
        invariant
            i <= 4,
            forall|j: int| 0 <= j < i ==> #[trigger] lanes@[j] == shl32(a@[j], c as int),
        decreases 4 - i,
    {
        lanes[i] = if c < 32 {
            to_signed32(to_unsigned32(a.lanes[i]) << (c as u32))
        } else {
            0
        };
        i += 1;
    }
    i32x4 { lanes }
}

/// Shifts the 32-bit lanes of `a` left by `imm8` bits while shifting in zeros.
pub fn _mm_slli_epi32(a: i32x4, imm8: i32) -> (r: i32x4)
    ensures
        forall|i: int| 0 <= i < 4 ==> #[trigger] r@[i] == shl32(a@[i], unsigned32(imm8) as int),
{
    shift_left32(a, to_unsigned32(imm8) as u64)
}

/// Shifts the 32-bit lanes of `a` left by the count in the low 64 bits of
/// `count` while shifting in zeros.
pub fn _mm_sll_epi32(a: i32x4, count: i32x4) -> (r: i32x4)
    ensures
        forall|i: int|
            0 <= i < 4 ==> #[trigger] r@[i] == shl32(a@[i], shift_count(count.bytes()) as int),
{
    shift_left32(a, join64_at(&count.to_bytes(), 0))
}

/// Shifts every 64-bit lane of `a` left by `c` bits.
fn shift_left64(a: i64x2, c: u64) -> (r: i64x2)
    ensures
        forall|i: int| 0 <= i < 2 ==> #[trigger] r@[i] == shl64(a@[i], c as int),
{
    let mut lanes = a.lanes;
    let mut i: usize = 0;
    while i < 2
        invariant
            i <= 2,
            forall|j: int| 0 <= j < i ==> #[trigger] lanes@[j] == shl64(a@[j], c as int),
        decreases 2 - i,
    {
        lanes[i] = if c < 64 {
            to_signed64(to_unsigned64(a.lanes[i]) << (c as u32))
        } else {
            0
        };
        i += 1;
    }
    i64x2 { lanes }
}

/// Shifts the 64-bit lanes of `a` left by `imm8` bits while shifting in zeros.
pub fn _mm_slli_epi64(a: i64x2, imm8: i32) -> (r: i64x2)
    ensures
        forall|i: int| 0 <= i < 2 ==> #[trigger] r@[i] == shl64(a@[i], unsigned32(imm8) as int),
{
    shift_left64(a, to_unsigned32(imm8) as u64)
}

/// Shifts the 64-bit lanes of `a` left by the count in the low 64 bits of
/// `count` while shifting in zeros.
pub fn _mm_sll_epi64(a: i64x2, count: i64x2) -> (r: i64x2)
    ensures
        forall|i: int|
            0 <= i < 2 ==> #[trigger] r@[i] == shl64(a@[i], shift_count(count.bytes()) as int),
{
    shift_left64(a, join64_at(&count.to_bytes(), 0))
}

/// Shifts every %d-bit lane of `a` right by `c` bits, copies of the sign bit
/// coming in.
fn shift_right_sign16(a: i16x8, c: u64) -> (r: i16x8)
    ensures
        forall|i: int| 0 <= i < 8 ==> #[trigger] r@[i] == sar16(a@[i], c as int),
{
    let mut lanes = a.lanes;
    let mut i: usize = 0;
    while i < 8
        invariant
            i <= 8,
            forall|j: int| 0 <= j < i ==> #[trigger] lanes@[j] == sar16(a@[j], c as int),
        decreases 8 - i,
    {
        lanes[i] = if c < 16 {
            a.lanes[i] >> (c as u32)
        } else if a.lanes[i] < 0 {
            -1
        } else {
            0
        };
        i += 1;
    }
    i16x8 { lanes }
}

/// Shifts the 16-bit lanes of `a` right by `imm8` bits while shifting in sign bits.
pub fn _mm_srai_epi16(a: i16x8, imm8: i32) -> (r: i16x8)
    ensures
        forall|i: int| 0 <= i < 8 ==> #[trigger] r@[i] == sar16(a@[i], unsigned32(imm8) as int),
{
    shift_right_sign16(a, to_unsigned32(imm8) as u64)
}

/// Shifts the 16-bit lanes of `a` right by the count in the low 64 bits of
/// `count` while shifting in sign bits.
pub fn _mm_sra_epi16(a: i16x8, count: i16x8) -> (r: i16x8)
    ensures
        forall|i: int|
            0 <= i < 8 ==> #[trigger] r@[i] == sar16(a@[i], shift_count(count.bytes()) as int),
{
    shift_right_sign16(a, join64_at(&count.to_bytes(), 0))
}

/// Shifts every %d-bit lane of `a` right by `c` bits, copies of the sign bit
/// coming in.
fn shift_right_sign32(a: i32x4, c: u64) -> (r: i32x4)
    ensures
        forall|i: int| 0 <= i < 4 ==> #[trigger] r@[i] == sar32(a@[i], c as int),
{
    let mut lanes = a.lanes;
    let mut i: usize = 0;
    while i < 4
        invariant
            i <= 4,
            forall|j: int| 0 <= j < i ==> #[trigger] lanes@[j] == sar32(a@[j], c as int),
        decreases 4 - i,
    {
        lanes[i] = if c < 32 {
            a.lanes[i] >> (c as u32)
        } else if a.lanes[i] < 0 {
            -1
        } else {
            0
        };
        i += 1;
    }
    i32x4 { lanes }
}

/// Shifts the 32-bit lanes of `a` right by `imm8` bits while shifting in sign bits.
pub fn _mm_srai_epi32(a: i32x4, imm8: i32) -> (r: i32x4)
    ensures
        forall|i: int| 0 <= i < 4 ==> #[trigger] r@[i] == sar32(a@[i], unsigned32(imm8) as int),
{
    shift_right_sign32(a, to_unsigned32(imm8) as u64)
}

/// Shifts the 32-bit lanes of `a` right by the count in the low 64 bits of
/// `count` while shifting in sign bits.
pub fn _mm_sra_epi32(a: i32x4, count: i32x4) -> (r: i32x4)
    ensures
        forall|i: int|
            0 <= i < 4 ==> #[trigger] r@[i] == sar32(a@[i], shift_count(count.bytes()) as int),
{
    shift_right_sign32(a, join64_at(&count.to_bytes(), 0))
}

/// Shifts every 16-bit lane of `a` right by `c` bits, zeros coming in.
fn shift_right16(a: i16x8, c: u64) -> (r: i16x8)
    ensures
        forall|i: int| 0 <= i < 8 ==> #[trigger] r@[i] == shr16(a@[i], c as int),
{
    let mut lanes = a.lanes;
    let mut i: usize = 0;
    while i < 8
        invariant
            i <= 8,
            forall|j: int| 0 <= j < i ==> #[trigger] lanes@[j] == shr16(a@[j], c as int),
        decreases 8 - i,
    {
        lanes[i] = if c < 16 {
            to_signed16(to_unsigned16(a.lanes[i]) >> (c as u32))
        } else {
            0
        };
        i += 1;
    }
    i16x8 { lanes }
}

/// Shifts the 16-bit lanes of `a` right by `imm8` bits while shifting in zeros.
pub fn _mm_srli_epi16(a: i16x8, imm8: i32) -> (r: i16x8)
    ensures
        forall|i: int| 0 <= i < 8 ==> #[trigger] r@[i] == shr16(a@[i], unsigned32(imm8) as int),
{
    shift_right16(a, to_unsigned32(imm8) as u64)
}

/// Shifts the 16-bit lanes of `a` right by the count in the low 64 bits of
/// `count` while shifting in zeros.
pub fn _mm_srl_epi16(a: i16x8, count: i16x8) -> (r: i16x8)
    ensures
        forall|i: int|
            0 <= i < 8 ==> #[trigger] r@[i] == shr16(a@[i], shift_count(count.bytes()) as int),
{
    shift_right16(a, join64_at(&count.to_bytes(), 0))
}

/// Shifts every 32-bit lane of `a` right by `c` bits, zeros coming in.
fn shift_right32(a: i32x4, c: u64) -> (r: i32x4)
    ensures
        forall|i: int| 0 <= i < 4 ==> #[trigger] r@[i] == shr32(a@[i], c as int),
{
    let mut lanes = a.lanes;
    let mut i: usize = 0;
    while i < 4
        invariant
            i <= 4,
            forall|j: int| 0 <= j < i ==> #[trigger] lanes@[j] == shr32(a@[j], c as int),
        decreases 4 - i,
    {
        lanes[i] = if c < 32 {
            to_signed32(to_unsigned32(a.lanes[i]) >> (c as u32))
        } else {
            0
        };
        i += 1;
    }
    i32x4 { lanes }
}

/// Shifts the 32-bit lanes of `a` right by `imm8` bits while shifting in zeros.
pub fn _mm_srli_epi32(a: i32x4, imm8: i32) -> (r: i32x4)
    ensures
        forall|i: int| 0 <= i < 4 ==> #[trigger] r@[i] == shr32(a@[i], unsigned32(imm8) as int),
{
    shift_right32(a, to_unsigned32(imm8) as u64)
}

/// Shifts the 32-bit lanes of `a` right by the count in the low 64 bits of
/// `count` while shifting in zeros.
pub fn _mm_srl_epi32(a: i32x4, count: i32x4) -> (r: i32x4)
    ensures
        forall|i: int|
            0 <= i < 4 ==> #[trigger] r@[i] == shr32(a@[i], shift_count(count.bytes()) as int),
{
    shift_right32(a, join64_at(&count.to_bytes(), 0))
}

/// Shifts every 64-bit lane of `a` right by `c` bits, zeros coming in.
fn shift_right64(a: i64x2, c: u64) -> (r: i64x2)
    ensures
        forall|i: int| 0 <= i < 2 ==> #[trigger] r@[i] == shr64(a@[i], c as int),
{
    let mut lanes = a.lanes;
    let mut i: usize = 0;
    while i < 2
        invariant
            i <= 2,
            forall|j: int| 0 <= j < i ==> #[trigger] lanes@[j] == shr64(a@[j], c as int),
        decreases 2 - i,
    {
        lanes[i] = if c < 64 {
            to_signed64(to_unsigned64(a.lanes[i]) >> (c as u32))
        } else {
            0
        };
        i += 1;
    }
    i64x2 { lanes }
}

/// Shifts the 64-bit lanes of `a` right by `imm8` bits while shifting in zeros.
pub fn _mm_srli_epi64(a: i64x2, imm8: i32) -> (r: i64x2)
    ensures
        forall|i: int| 0 <= i < 2 ==> #[trigger] r@[i] == shr64(a@[i], unsigned32(imm8) as int),
{
    shift_right64(a, to_unsigned32(imm8) as u64)
}

/// Shifts the 64-bit lanes of `a` right by the count in the low 64 bits of
/// `count` while shifting in zeros.
pub fn _mm_srl_epi64(a: i64x2, count: i64x2) -> (r: i64x2)
    ensures
        forall|i: int|
            0 <= i < 2 ==> #[trigger] r@[i] == shr64(a@[i], shift_count(count.bytes()) as int),
{
    shift_right64(a, join64_at(&count.to_bytes(), 0))
}

} // verus!
