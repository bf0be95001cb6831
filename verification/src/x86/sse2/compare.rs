//! Lane-by-lane comparisons of signed integers. A lane of the result has
//! every bit set where the comparison holds and no bit set where it does not.

use crate::v128::{i16x8, i32x4, i8x16};
use vstd::prelude::*;

verus! {

/// The 8-bit lane that stands for a truth value: all ones, which reads as
/// -1, for true, and zero for false.
pub open spec fn mask8(holds: bool) -> i8 {
    if holds {
        -1i8
    } else {
        0i8
    }
}

/// The 16-bit lane that stands for a truth value: all ones, which reads as
/// -1, for true, and zero for false.
pub open spec fn mask16(holds: bool) -> i16 {
    if holds {
        -1i16
    } else {
        0i16
    }
}

/// The 32-bit lane that stands for a truth value: all ones, which reads as
/// -1, for true, and zero for false.
pub open spec fn mask32(holds: bool) -> i32 {
    if holds {
        -1i32
    } else {
        0i32
    }
}

/// Compares the 8-bit lanes of `a` and `b` for equality.
pub fn _mm_cmpeq_epi8(a: i8x16, b: i8x16) -> (r: i8x16)
    ensures
        forall|i: int| 0 <= i < 16 ==> #[trigger] r@[i] == mask8(a@[i] == b@[i]),
{
    let mut lanes = a.lanes;
    let mut i: usize = 0;
    while i < 16
        invariant
            i <= 16,
            forall|j: int| 0 <= j < i ==> #[trigger] lanes@[j] == mask8(a@[j] == b@[j]),
        decreases 16 - i,
    {
        lanes[i] = if a.lanes[i] == b.lanes[i] {
            -1
        } else {
            0
        };
        i += 1;
    }
    i8x16 { lanes }
}

/// Compares the 16-bit lanes of `a` and `b` for equality.
pub fn _mm_cmpeq_epi16(a: i16x8, b: i16x8) -> (r: i16x8)
    ensures
        forall|i: int| 0 <= i < 8 ==> #[trigger] r@[i] == mask16(a@[i] == b@[i]),
{
    let mut lanes = a.lanes;
    let mut i: usize = 0;
    while i < 8
        invariant
            i <= 8,
            forall|j: int| 0 <= j < i ==> #[trigger] lanes@[j] == mask16(a@[j] == b@[j]),
        decreases 8 - i,
    {
        lanes[i] = if a.lanes[i] == b.lanes[i] {
            -1
        } else {
            0
        };
        i += 1;
    }
    i16x8 { lanes }
}

/// Compares the 32-bit lanes of `a` and `b` for equality.
pub fn _mm_cmpeq_epi32(a: i32x4, b: i32x4) -> (r: i32x4)
    ensures
        forall|i: int| 0 <= i < 4 ==> #[trigger] r@[i] == mask32(a@[i] == b@[i]),
{
    let mut lanes = a.lanes;
    let mut i: usize = 0;
    while i < 4
        invariant
            i <= 4,
            forall|j: int| 0 <= j < i ==> #[trigger] lanes@[j] == mask32(a@[j] == b@[j]),
        decreases 4 - i,
    {
        lanes[i] = if a.lanes[i] == b.lanes[i] {
            -1
        } else {
            0
        };
        i += 1;
    }
    i32x4 { lanes }
}

/// Compares the 8-bit lanes of `a` and `b` for greater-than.
pub fn _mm_cmpgt_epi8(a: i8x16, b: i8x16) -> (r: i8x16)
    ensures
        forall|i: int| 0 <= i < 16 ==> #[trigger] r@[i] == mask8(a@[i] > b@[i]),
{
    let mut lanes = a.lanes;
    let mut i: usize = 0;
    while i < 16
        invariant
            i <= 16,
            forall|j: int| 0 <= j < i ==> #[trigger] lanes@[j] == mask8(a@[j] > b@[j]),
        decreases 16 - i,
    {
        lanes[i] = if a.lanes[i] > b.lanes[i] {
            -1
        } else {
            0
        };
        i += 1;
    }
    i8x16 { lanes }
}

/// Compares the 16-bit lanes of `a` and `b` for greater-than.
pub fn _mm_cmpgt_epi16(a: i16x8, b: i16x8) -> (r: i16x8)
    ensures
        forall|i: int| 0 <= i < 8 ==> #[trigger] r@[i] == mask16(a@[i] > b@[i]),
{
    let mut lanes = a.lanes;
    let mut i: usize = 0;
    while i < 8
        invariant
            i <= 8,
            forall|j: int| 0 <= j < i ==> #[trigger] lanes@[j] == mask16(a@[j] > b@[j]),
        decreases 8 - i,
    {
        lanes[i] = if a.lanes[i] > b.lanes[i] {
            -1
        } else {
            0
        };
        i += 1;
    }
    i16x8 { lanes }
}

/// Compares the 32-bit lanes of `a` and `b` for greater-than.
pub fn _mm_cmpgt_epi32(a: i32x4, b: i32x4) -> (r: i32x4)
    ensures
        forall|i: int| 0 <= i < 4 ==> #[trigger] r@[i] == mask32(a@[i] > b@[i]),
{
    let mut lanes = a.lanes;
    let mut i: usize = 0;
    while i < 4
        invariant
            i <= 4,
            forall|j: int| 0 <= j < i ==> #[trigger] lanes@[j] == mask32(a@[j] > b@[j]),
        decreases 4 - i,
    {
        lanes[i] = if a.lanes[i] > b.lanes[i] {
            -1
        } else {
            0
        };
        i += 1;
    }
    i32x4 { lanes }
}

/// Compares the 8-bit lanes of `a` and `b` for less-than.
pub fn _mm_cmplt_epi8(a: i8x16, b: i8x16) -> (r: i8x16)
    ensures
        forall|i: int| 0 <= i < 16 ==> #[trigger] r@[i] == mask8(a@[i] < b@[i]),
{
    let mut lanes = a.lanes;
    let mut i: usize = 0;
    while i < 16
        invariant
            i <= 16,
            forall|j: int| 0 <= j < i ==> #[trigger] lanes@[j] == mask8(a@[j] < b@[j]),
        decreases 16 - i,
    {
        lanes[i] = if a.lanes[i] < b.lanes[i] {
            -1
        } else {
            0
        };
        i += 1;
    }
    i8x16 { lanes }
}

/// Compares the 16-bit lanes of `a` and `b` for less-than.
pub fn _mm_cmplt_epi16(a: i16x8, b: i16x8) -> (r: i16x8)
    ensures
        forall|i: int| 0 <= i < 8 ==> #[trigger] r@[i] == mask16(a@[i] < b@[i]),
{
    let mut lanes = a.lanes;
    let mut i: usize = 0;
    while i < 8
        invariant
            i <= 8,
            forall|j: int| 0 <= j < i ==> #[trigger] lanes@[j] == mask16(a@[j] < b@[j]),
        decreases 8 - i,
    {
        lanes[i] = if a.lanes[i] < b.lanes[i] {
            -1
        } else {
            0
        };
        i += 1;
    }
    i16x8 { lanes }
}

/// Compares the 32-bit lanes of `a` and `b` for less-than.
pub fn _mm_cmplt_epi32(a: i32x4, b: i32x4) -> (r: i32x4)
    ensures
        forall|i: int| 0 <= i < 4 ==> #[trigger] r@[i] == mask32(a@[i] < b@[i]),
{
    let mut lanes = a.lanes;
    let mut i: usize = 0;
    while i < 4
        invariant
            i <= 4,
            forall|j: int| 0 <= j < i ==> #[trigger] lanes@[j] == mask32(a@[j] < b@[j]),
        decreases 4 - i,
    {
        lanes[i] = if a.lanes[i] < b.lanes[i] {
            -1
        } else {
            0
        };
        i += 1;
    }
    i32x4 { lanes }
}

} // verus!
