//! Operations that read or write one lane chosen by a number only known when
//! the call is made, and the mask of the lanes' signs.
//!
//! A lane number is brought into range by keeping its low three bits.

use crate::lane::{to_unsigned32, wrap16};
use crate::v128::{i16x8, i8x16};
use vstd::prelude::*;

verus! {

/// The lane of an eight-lane vector that `imm8` names: its low three bits.
pub open spec fn lane_index(imm8: i32) -> int {
    imm8 as int % 8
}

/// Brings a lane number into range by keeping its low three bits.
fn lane_of(imm8: i32) -> (idx: u32)
    ensures
        idx == lane_index(imm8),
        idx < 8,
{
    let u = to_unsigned32(imm8);
    let idx = u & 0b111;
    assert(idx == u % 8) by (bit_vector)
        requires
            idx == u & 0b111,
    ;
    idx
}

/// Returns lane `imm8` of `a`, the lane number taken modulo 8.
pub fn _mm_extract_epi16(a: i16x8, imm8: i32) -> (r: i32)
    ensures
        r == a@[lane_index(imm8)],
{
    a.extract(lane_of(imm8)) as i32
}

/// Returns `a` with lane `imm8`, the lane number taken modulo 8, replaced by
/// the low 16 bits of `i`.
pub fn _mm_insert_epi16(a: i16x8, i: i32, imm8: i32) -> (r: i16x8)
    ensures
        r@ == a@.update(lane_index(imm8), wrap16(i as int)),
{
    let v = i as i16;
    assert(v == if (i as int) % 0x1_0000 >= 0x8000 {
        (i as int) % 0x1_0000 - 0x1_0000
    } else {
        (i as int) % 0x1_0000
    }) by (bit_vector)
        requires
            v == i as i16,
    ;
    a.replace(lane_of(imm8), v)
}

/// The number whose bit `k`, counted from `from`, is set where lane
/// `from + k` of `v` is negative.
pub open spec fn sign_mask(v: Seq<i8>, from: int) -> int
    decreases v.len() - from,
{
    if from >= v.len() {
        0
    } else {
        (if v[from] < 0 {
            1int
        } else {
            0int
        }) + 2 * sign_mask(v, from + 1)
    }
}

/// Two to the power `n`.
spec fn weight(n: int) -> int
    decreases n,
{
    if n <= 0 {
        1
    } else {
        2 * weight(n - 1)
    }
}

/// The sign mask of the lanes from `from` on has no more bits than there are
/// such lanes.
proof fn lemma_sign_mask_bound(v: Seq<i8>, from: int)
    requires
        0 <= from <= v.len(),
    ensures
        0 <= sign_mask(v, from) < weight(v.len() - from),
    decreases v.len() - from,
{
    if from < v.len() {
        lemma_sign_mask_bound(v, from + 1);
    }
}

/// Returns the mask of the signs of the sixteen lanes of `a`: bit `i` is set
/// where lane `i` is negative, and the bits from 16 on are zero.
pub fn _mm_movemask_epi8(a: i8x16) -> (r: i32)
    ensures
        r == sign_mask(a@, 0),
        0 <= r < 0x1_0000,
{
    let mut r: i32 = 0;
    let mut i: usize = 16;
    while i > 0
        invariant
            i <= 16,
            r == sign_mask(a@, i as int),
        decreases i,
    {
        proof {
            lemma_sign_mask_bound(a@, i as int);
            assert(weight(16 - i) <= 0x8000) by {
                reveal_with_fuel(weight, 16);
            }
        }
        i -= 1;
        r = 2 * r + if a.lanes[i] < 0 {
            1
        } else {
            0
        };
    }
    proof {
        lemma_sign_mask_bound(a@, 0);
        assert(weight(16) == 0x1_0000) by {
            reveal_with_fuel(weight, 17);
        }
    }
    r
}

} // verus!
