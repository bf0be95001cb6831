//! Moves between a scalar and the lowest lane of a vector.

use crate::v128::{i32x4, i64x2};
use vstd::prelude::*;

verus! {

/// Returns the vector whose lowest lane is `a` and whose other lanes are zero.
pub fn _mm_cvtsi32_si128(a: i32) -> (r: i32x4)
    ensures
        r@ == seq![a, 0i32, 0i32, 0i32],
{
    i32x4::new(a, 0, 0, 0)
}

/// Returns the vector whose lowest lane is `a` and whose other lane is zero.
pub fn _mm_cvtsi64_si128(a: i64) -> (r: i64x2)
    ensures
        r@ == seq![a, 0i64],
{
    i64x2::new(a, 0)
}

/// Returns the vector whose lowest lane is `a` and whose other lane is zero.
pub fn _mm_cvtsi64x_si128(a: i64) -> (r: i64x2)
    ensures
        r@ == seq![a, 0i64],
{
    _mm_cvtsi64_si128(a)
}

/// Returns the lowest lane of `a`.
pub fn _mm_cvtsi128_si32(a: i32x4) -> (r: i32)
    ensures
        r == a@[0],
{
    a.extract(0)
}

/// Returns the lowest lane of `a`.
pub fn _mm_cvtsi128_si64(a: i64x2) -> (r: i64)
    ensures
        r == a@[0],
{
    a.extract(0)
}

/// Returns the lowest lane of `a`.
pub fn _mm_cvtsi128_si64x(a: i64x2) -> (r: i64)
    ensures
        r == a@[0],
{
    _mm_cvtsi128_si64(a)
}

/// Returns the vector whose low lane is that of `a` and whose high lane is zero.
pub fn _mm_move_epi64(a: i64x2) -> (r: i64x2)
    ensures
        r@ == seq![a@[0], 0i64],
{
    let r = a.replace(1, 0);
    assert(r@ =~= seq![a@[0], 0i64]);
    r
}

} // verus!
