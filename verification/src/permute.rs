//! The fixed-pattern permutation primitive: every lane of the result is the
//! lane that the pattern names among the lanes of two inputs laid end to end.

use crate::v128::{i16x8, i32x4, i64x2, i8x16};
use vstd::prelude::*;

verus! {

/// The lanes that the pattern `idx` picks: lane `i` of the result is lane
/// `idx[i]` of `a` followed by `b`.
pub open spec fn shuffled<T>(a: Seq<T>, b: Seq<T>, idx: Seq<u32>) -> Seq<T> {
    Seq::new(idx.len(), |i: int| (a + b)[idx[i] as int])
}

/// Whether every entry of the pattern names one of `n` source lanes.
pub open spec fn pattern_in_range(idx: Seq<u32>, n: int) -> bool {
    forall|i: int| 0 <= i < idx.len() ==> #[trigger] idx[i] < n
}

/// Permutes two lanes out of the four of `a` and `b`.
pub fn simd_shuffle2(a: i64x2, b: i64x2, idx: [u32; 2]) -> (r: i64x2)
    requires
        pattern_in_range(idx@, 4),
    ensures
        r@ == shuffled(a@, b@, idx@),
        forall|i: int| 0 <= i < r@.len() ==> (a@ + b@).contains(#[trigger] r@[i]),
{
    let mut lanes = a.lanes;
    let mut i: usize = 0;
    while i < 2
        invariant
            i <= 2,
            pattern_in_range(idx@, 4),
            forall|j: int| 0 <= j < i ==> #[trigger] lanes@[j] == (a@ + b@)[idx@[j] as int],
        decreases 2 - i,
    {
        let s = idx[i] as usize;
        lanes[i] = if s < 2 {
            a.lanes[s]
        } else {
            b.lanes[s - 2]
        };
        i += 1;
    }
    assert(lanes@ =~= shuffled(a@, b@, idx@));
    i64x2 { lanes }
}

/// Permutes four lanes out of the eight of `a` and `b`.
pub fn simd_shuffle4(a: i32x4, b: i32x4, idx: [u32; 4]) -> (r: i32x4)
    requires
        pattern_in_range(idx@, 8),
    ensures
        r@ == shuffled(a@, b@, idx@),
        forall|i: int| 0 <= i < r@.len() ==> (a@ + b@).contains(#[trigger] r@[i]),
{
    let mut lanes = a.lanes;
    let mut i: usize = 0;
    while i < 4
        invariant
            i <= 4,
            pattern_in_range(idx@, 8),
            forall|j: int| 0 <= j < i ==> #[trigger] lanes@[j] == (a@ + b@)[idx@[j] as int],
        decreases 4 - i,
    {
        let s = idx[i] as usize;
        lanes[i] = if s < 4 {
            a.lanes[s]
        } else {
            b.lanes[s - 4]
        };
        i += 1;
    }
    assert(lanes@ =~= shuffled(a@, b@, idx@));
    i32x4 { lanes }
}

/// Permutes eight lanes out of the sixteen of `a` and `b`.
pub fn simd_shuffle8(a: i16x8, b: i16x8, idx: [u32; 8]) -> (r: i16x8)
    requires
        pattern_in_range(idx@, 16),
    ensures
        r@ == shuffled(a@, b@, idx@),
        forall|i: int| 0 <= i < r@.len() ==> (a@ + b@).contains(#[trigger] r@[i]),
{
    let mut lanes = a.lanes;
    let mut i: usize = 0;
    while i < 8
        invariant
            i <= 8,
            pattern_in_range(idx@, 16),
            forall|j: int| 0 <= j < i ==> #[trigger] lanes@[j] == (a@ + b@)[idx@[j] as int],
        decreases 8 - i,
    {
        let s = idx[i] as usize;
        lanes[i] = if s < 8 {
            a.lanes[s]
        } else {
            b.lanes[s - 8]
        };
        i += 1;
    }
    assert(lanes@ =~= shuffled(a@, b@, idx@));
    i16x8 { lanes }
}

/// Permutes sixteen lanes out of the thirty-two of `a` and `b`.
pub fn simd_shuffle16(a: i8x16, b: i8x16, idx: [u32; 16]) -> (r: i8x16)
    requires
        pattern_in_range(idx@, 32),
    ensures
        r@ == shuffled(a@, b@, idx@),
        forall|i: int| 0 <= i < r@.len() ==> (a@ + b@).contains(#[trigger] r@[i]),
{
    let mut lanes = a.lanes;
    let mut i: usize = 0;
    while i < 16
        invariant
            i <= 16,
            pattern_in_range(idx@, 32),
            forall|j: int| 0 <= j < i ==> #[trigger] lanes@[j] == (a@ + b@)[idx@[j] as int],
        decreases 16 - i,
    {
        let s = idx[i] as usize;
        lanes[i] = if s < 16 {
            a.lanes[s]
        } else {
            b.lanes[s - 16]
        };
        i += 1;
    }
    assert(lanes@ =~= shuffled(a@, b@, idx@));
    i8x16 { lanes }
}

} // verus!
