//! Shuffles under a control that is only known when the call is made.
//!
//! The permutation primitive takes a pattern of concrete lane numbers. The
//! control holds four 2-bit fields, one for each lane of the result, so each
//! field is narrowed by a four-way decision of its own to one of the numbers
//! 0 to 3, and only then is the pattern put together.

use crate::permute::{simd_shuffle4, simd_shuffle8};
use crate::v128::{i16x8, i32x4};
use vstd::prelude::*;

verus! {

/// Field `k` (0 to 3) of a shuffle control: the number held by bits `2k` and
/// `2k + 1` of `imm8`. The bits of `imm8` from the eighth on are not read.
pub open spec fn control_field(imm8: i32, k: int) -> int {
    if k == 0 {
        imm8 as int % 4
    } else if k == 1 {
        imm8 as int / 4 % 4
    } else if k == 2 {
        imm8 as int / 16 % 4
    } else {
        imm8 as int / 64 % 4
    }
}

/// The four lanes that the control picks out of the four lanes `v`: lane `i`
/// is the lane of `v` that field `i` names.
pub open spec fn picked<T>(v: Seq<T>, imm8: i32) -> Seq<T> {
    Seq::new(4, |i: int| v[control_field(imm8, i)])
}

/// Whether the control leaves every lane where it is: field `k` names lane `k`.
pub open spec fn is_identity_control(imm8: i32) -> bool {
    forall|k: int| 0 <= k < 4 ==> #[trigger] control_field(imm8, k) == k
}

/// Whether the control spreads lane `s` over all four lanes: every field
/// names lane `s`.
pub open spec fn is_broadcast_control(imm8: i32, s: int) -> bool {
    forall|k: int| 0 <= k < 4 ==> #[trigger] control_field(imm8, k) == s
}

/// The control byte: the low eight bits of `imm8`, which hold its four fields.
fn control_byte(imm8: i32) -> (c: u8)
    ensures
        forall|k: int|
            0 <= k < 4 ==> control_field(imm8, k) == #[trigger] control_field(c as i32, k),
{
    let m: i32 = imm8 & 0xFF;
    assert(0 <= m < 0x100 && m % 4 == (imm8 as int) % 4 && m / 4 % 4 == (imm8 as int) / 4 % 4
        && m / 16 % 4 == (imm8 as int) / 16 % 4 && m / 64 % 4 == (imm8 as int) / 64 % 4)
        by (bit_vector)
        requires
            m == imm8 & 0xFF,
    ;
    m as u8
}

/// Narrows field `k` of the control byte to a concrete lane number.
fn select(c: u8, k: u32) -> (x: u32)
    requires
        k < 4,
    ensures
        x == control_field(c as i32, k as int),
        x < 4,
{
    let f: u8 = (c >> (2 * k)) & 0b11;
    assert(f == if k == 0 {
        c % 4
    } else if k == 1 {
        c / 4 % 4
    } else if k == 2 {
        c / 16 % 4
    } else {
        c / 64 % 4
    }) by (bit_vector)
        requires
            f == (c >> (2 * k)) & 0b11,
            k < 4,
    ;
    match f {
        0b00 => 0,
        0b01 => 1,
        0b10 => 2,
        _ => 3,
    }
}

/// Shuffles the four 32-bit lanes of `a` under the control in `imm8`: lane
/// `i` of the result is the lane of `a` that field `i` of the control names.
///
/// So no lane of the result holds a value that `a` does not hold, the control
/// with the fields 0, 1, 2, 3 gives `a` back, and a control with four equal
/// fields fills the result with one lane of `a`.
pub fn _mm_shuffle_epi32(a: i32x4, imm8: i32) -> (r: i32x4)
    ensures
        r@ == picked(a@, imm8),
        forall|i: int| 0 <= i < 4 ==> a@.contains(#[trigger] r@[i]),
        is_identity_control(imm8) ==> r@ == a@,
        forall|s: int| #[trigger]
            is_broadcast_control(imm8, s) ==> r@ == Seq::new(4, |i: int| a@[s]),
{
    let c = control_byte(imm8);
    let x01 = select(c, 0);
    let x23 = select(c, 1);
    let x45 = select(c, 2);
    let x67 = select(c, 3);
    let r = simd_shuffle4(a, a, [x01, x23, x45, x67]);
    proof {
        assert forall|i: int| 0 <= i < 4 implies r@[i] == a@[control_field(imm8, i)] by {
            assert(control_field(imm8, i) == control_field(c as i32, i));
        }
        assert(r@ =~= picked(a@, imm8));
        if is_identity_control(imm8) {
            assert(r@ =~= a@);
        }
        assert forall|s: int| #[trigger] is_broadcast_control(imm8, s) implies r@ == Seq::new(
            4,
            |i: int| a@[s],
        ) by {
            assert(r@ =~= Seq::new(4, |i: int| a@[s]));
        }
    }
    r
}

/// Shuffles the four high 16-bit lanes of `a` under the control in `imm8` and
/// copies the four low lanes: lane `4 + i` of the result is lane `4 + f` of
/// `a`, where `f` is what field `i` of the control names.
///
/// So no lane of the result holds a value that `a` does not hold, the control
/// with the fields 0, 1, 2, 3 gives `a` back, and a control with four equal
/// fields fills the high half with one of the high lanes of `a`.
pub fn _mm_shufflehi_epi16(a: i16x8, imm8: i32) -> (r: i16x8)
    ensures
        r@ == a@.subrange(0, 4) + picked(a@.subrange(4, 8), imm8),
        r@.subrange(0, 4) == a@.subrange(0, 4),
        forall|i: int| 0 <= i < 8 ==> a@.contains(#[trigger] r@[i]),
        is_identity_control(imm8) ==> r@ == a@,
        forall|s: int| #[trigger]
            is_broadcast_control(imm8, s) ==> r@.subrange(4, 8) == Seq::new(
                4,
                |i: int| a@[4 + s],
            ),
{
    let c = control_byte(imm8);
    let x01 = select(c, 0);
    let x23 = select(c, 1);
    let x45 = select(c, 2);
    let x67 = select(c, 3);
    let r = simd_shuffle8(a, a, [0, 1, 2, 3, x01 + 4, x23 + 4, x45 + 4, x67 + 4]);
    proof {
        assert forall|i: int| 0 <= i < 4 implies r@[4 + i] == a@[4 + control_field(imm8, i)] by {
            assert(control_field(imm8, i) == control_field(c as i32, i));
        }
        assert(r@ =~= a@.subrange(0, 4) + picked(a@.subrange(4, 8), imm8));
        assert(r@.subrange(0, 4) =~= a@.subrange(0, 4));
        if is_identity_control(imm8) {
            assert forall|i: int| 0 <= i < 8 implies r@[i] == a@[i] by {
                if i >= 4 {
                    assert(control_field(imm8, i - 4) == i - 4);
                    assert(r@[4 + (i - 4)] == a@[4 + control_field(imm8, i - 4)]);
                }
            }
            assert(r@ =~= a@);
        }
        assert forall|s: int| #[trigger] is_broadcast_control(imm8, s) implies r@.subrange(4, 8)
            == Seq::new(4, |i: int| a@[4 + s]) by {
            assert(r@.subrange(4, 8) =~= Seq::new(4, |i: int| a@[4 + s]));
        }
    }
    r
}

/// Shuffles the four low 16-bit lanes of `a` under the control in `imm8` and
/// copies the four high lanes: lane `i` of the result, for `i` below 4, is
/// the lane of `a` that field `i` of the control names.
///
/// So no lane of the result holds a value that `a` does not hold, the control
/// with the fields 0, 1, 2, 3 gives `a` back, and a control with four equal
/// fields fills the low half with one of the low lanes of `a`.
pub fn _mm_shufflelo_epi16(a: i16x8, imm8: i32) -> (r: i16x8)
    ensures
        r@ == picked(a@.subrange(0, 4), imm8) + a@.subrange(4, 8),
        r@.subrange(4, 8) == a@.subrange(4, 8),
        forall|i: int| 0 <= i < 8 ==> a@.contains(#[trigger] r@[i]),
        is_identity_control(imm8) ==> r@ == a@,
        forall|s: int| #[trigger]
            is_broadcast_control(imm8, s) ==> r@.subrange(0, 4) == Seq::new(4, |i: int| a@[s]),
{
    let c = control_byte(imm8);
    let x01 = select(c, 0);
    let x23 = select(c, 1);
    let x45 = select(c, 2);
    let x67 = select(c, 3);
    let r = simd_shuffle8(a, a, [x01, x23, x45, x67, 4, 5, 6, 7]);
    proof {
        assert forall|i: int| 0 <= i < 4 implies r@[i] == a@[control_field(imm8, i)] by {
            assert(control_field(imm8, i) == control_field(c as i32, i));
        }
        assert(r@ =~= picked(a@.subrange(0, 4), imm8) + a@.subrange(4, 8));
        assert(r@.subrange(4, 8) =~= a@.subrange(4, 8));
        if is_identity_control(imm8) {
            assert(r@ =~= a@);
        }
        assert forall|s: int| #[trigger] is_broadcast_control(imm8, s) implies r@.subrange(0, 4)
            == Seq::new(4, |i: int| a@[s]) by {
            assert(r@.subrange(0, 4) =~= Seq::new(4, |i: int| a@[s]));
        }
    }
    r
}

} // verus!
