//! The operations on two 64-bit floating-point lanes that only move or
//! combine bits.

use crate::v128::f64x2;
use vstd::prelude::*;

verus! {

/// Computes the bitwise AND of the lanes of `a` and `b`.
pub fn _mm_and_pd(a: f64x2, b: f64x2) -> (r: f64x2)
    ensures
        forall|i: int| 0 <= i < 2 ==> #[trigger] r@[i] == a@[i] & b@[i],
{
    f64x2 { bits: [a.bits[0] & b.bits[0], a.bits[1] & b.bits[1]] }
}

/// Computes the bitwise NOT of `a` and then its AND with `b`.
pub fn _mm_andnot_pd(a: f64x2, b: f64x2) -> (r: f64x2)
    ensures
        forall|i: int| 0 <= i < 2 ==> #[trigger] r@[i] == (!a@[i]) & b@[i],
{
    f64x2 { bits: [(!a.bits[0]) & b.bits[0], (!a.bits[1]) & b.bits[1]] }
}

/// Computes the bitwise OR of the lanes of `a` and `b`.
pub fn _mm_or_pd(a: f64x2, b: f64x2) -> (r: f64x2)
    ensures
        forall|i: int| 0 <= i < 2 ==> #[trigger] r@[i] == a@[i] | b@[i],
{
    f64x2 { bits: [a.bits[0] | b.bits[0], a.bits[1] | b.bits[1]] }
}

/// Computes the bitwise XOR of the lanes of `a` and `b`.
pub fn _mm_xor_pd(a: f64x2, b: f64x2) -> (r: f64x2)
    ensures
        forall|i: int| 0 <= i < 2 ==> #[trigger] r@[i] == a@[i] ^ b@[i],
{
    f64x2 { bits: [a.bits[0] ^ b.bits[0], a.bits[1] ^ b.bits[1]] }
}

/// Whether the sign bit, the highest of the 64, is set in the pattern `x`.
pub open spec fn sign_bit(x: u64) -> bool {
    x >= 0x8000_0000_0000_0000
}

/// Returns the mask of the sign bits of the two lanes of `a`: bit 0 for lane
/// 0 and bit 1 for lane 1. Every other bit is zero.
pub fn _mm_movemask_pd(a: f64x2) -> (r: i32)
    ensures
        r == (if sign_bit(a@[0]) {
            1int
        } else {
            0int
        }) + (if sign_bit(a@[1]) {
            2int
        } else {
            0int
        }),
{
    let lo: i32 = if a.bits[0] >= 0x8000_0000_0000_0000 {
        1
    } else {
        0
    };
    let hi: i32 = if a.bits[1] >= 0x8000_0000_0000_0000 {
        2
    } else {
        0
    };
    lo + hi
}

/// Loads the two lanes at `mem_addr`.
pub fn _mm_load_pd(mem_addr: &f64x2) -> (r: f64x2)
    ensures
        r == *mem_addr,
{
    *mem_addr
}

/// Stores the two lanes of `a` at `mem_addr`.
pub fn _mm_store_pd(mem_addr: &mut f64x2, a: f64x2)
    ensures
        *final(mem_addr) == a,
{
    *mem_addr = a;
}

} // verus!
