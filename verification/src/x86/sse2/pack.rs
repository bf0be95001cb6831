//! Narrowing of two vectors into one: every lane of `a`, then every lane of
//! `b`, each brought into the range of the narrower lane.

use crate::lane::{sat_i16, sat_i8, sat_u8, saturate_i16, saturate_i8, saturate_u8};
use crate::v128::{i16x8, i32x4, i8x16, u8x16};
use vstd::prelude::*;

verus! {

/// Converts the 16-bit lanes of `a` and `b` to signed 8-bit lanes; a lane out
/// of range becomes the nearest `i8`.
pub fn _mm_packs_epi16(a: i16x8, b: i16x8) -> (r: i8x16)
    ensures
        forall|i: int| 0 <= i < 16 ==> #[trigger] r@[i] == sat_i8((a@ + b@)[i] as int),
{
    let mut lanes = [0i8; 16];
    let mut i: usize = 0;
    while i < 16
        invariant
            i <= 16,
            forall|j: int| 0 <= j < i ==> #[trigger] lanes@[j] == sat_i8((a@ + b@)[j] as int),
        decreases 16 - i,
    {
        lanes[i] = saturate_i8(
            if i < 8 {
                a.lanes[i]
            } else {
                b.lanes[i - 8]
            },
        );
        i += 1;
    }
    i8x16 { lanes }
}

/// Converts the 32-bit lanes of `a` and `b` to signed 16-bit lanes; a lane
/// out of range becomes the nearest `i16`.
pub fn _mm_packs_epi32(a: i32x4, b: i32x4) -> (r: i16x8)
    ensures
        forall|i: int| 0 <= i < 8 ==> #[trigger] r@[i] == sat_i16((a@ + b@)[i] as int),
{
    let mut lanes = [0i16; 8];
    let mut i: usize = 0;
    while i < 8
        invariant
            i <= 8,
            forall|j: int| 0 <= j < i ==> #[trigger] lanes@[j] == sat_i16((a@ + b@)[j] as int),
        decreases 8 - i,
    {
        lanes[i] = saturate_i16(
            if i < 4 {
                a.lanes[i]
            } else {
                b.lanes[i - 4]
            },
        );
        i += 1;
    }
    i16x8 { lanes }
}

/// Converts the 16-bit lanes of `a` and `b` to unsigned 8-bit lanes; a lane
/// out of range becomes the nearest `u8`.
pub fn _mm_packus_epi16(a: i16x8, b: i16x8) -> (r: u8x16)
    ensures
        forall|i: int| 0 <= i < 16 ==> #[trigger] r@[i] == sat_u8((a@ + b@)[i] as int),
{
    let mut lanes = [0u8; 16];
    let mut i: usize = 0;
    while i < 16
        invariant
            i <= 16,
            forall|j: int| 0 <= j < i ==> #[trigger] lanes@[j] == sat_u8((a@ + b@)[j] as int),
        decreases 16 - i,
    {
        lanes[i] = saturate_u8(
            if i < 8 {
                a.lanes[i]
            } else {
                b.lanes[i - 8]
            },
        );
        i += 1;
    }
    u8x16 { lanes }
}

} // verus!
