//! Whole-vector shifts by a number of bytes that is only known when the call
//! is made.
//!
//! A distance outside 0 to 15 shifts every byte out. That leaves seventeen
//! distinct outcomes, each with a pattern of its own over the vector and a
//! vector of zeros.

use crate::permute::simd_shuffle16;
use crate::x86::__m128i;
use vstd::prelude::*;

verus! {

/// The distance a byte shift really moves by: `imm8` itself from 0 to 15, and
/// 16 for every other `imm8`, negative ones too.
pub open spec fn byte_shift_distance(imm8: i32) -> int {
    if 0 <= imm8 <= 15 {
        imm8 as int
    } else {
        16
    }
}

/// The sixteen bytes `v` moved `k` places up, with zeros in the `k` low places.
pub open spec fn bytes_shifted_left(v: Seq<i8>, k: int) -> Seq<i8> {
    Seq::new(
        16,
        |i: int|
            if i < k {
                0i8
            } else {
                v[i - k]
            },
    )
}

/// The sixteen bytes `v` moved `k` places down, with zeros in the `k` high places.
pub open spec fn bytes_shifted_right(v: Seq<i8>, k: int) -> Seq<i8> {
    Seq::new(
        16,
        |i: int|
            if i + k < 16 {
                v[i + k]
            } else {
                0i8
            },
    )
}

/// Sixteen zero bytes.
pub open spec fn zero_bytes() -> Seq<i8> {
    Seq::new(16, |i: int| 0i8)
}

/// Brings a distance into the range of the table: 0 to 15 as it is, every other
/// one to 16.
fn normalize(imm8: i32) -> (k: u32)
    ensures
        k == byte_shift_distance(imm8),
{
    if 0 <= imm8 && imm8 <= 15 {
        imm8 as u32
    } else {
        16
    }
}

/// The table of the seventeen patterns of a left shift, over a vector of zeros
/// followed by the vector to shift: pattern `k` moves the latter `k` bytes up.
fn left_pattern(k: u32) -> (idx: [u32; 16])
    requires
        k <= 16,
    ensures
        forall|i: int| 0 <= i < 16 ==> #[trigger] idx@[i] == 16 + i - k,
{
    match k {
        0 => [16, 17, 18, 19, 20, 21, 22, 23, 24, 25, 26, 27, 28, 29, 30, 31],
        1 => [15, 16, 17, 18, 19, 20, 21, 22, 23, 24, 25, 26, 27, 28, 29, 30],
        2 => [14, 15, 16, 17, 18, 19, 20, 21, 22, 23, 24, 25, 26, 27, 28, 29],
        3 => [13, 14, 15, 16, 17, 18, 19, 20, 21, 22, 23, 24, 25, 26, 27, 28],
        4 => [12, 13, 14, 15, 16, 17, 18, 19, 20, 21, 22, 23, 24, 25, 26, 27],
        5 => [11, 12, 13, 14, 15, 16, 17, 18, 19, 20, 21, 22, 23, 24, 25, 26],
        6 => [10, 11, 12, 13, 14, 15, 16, 17, 18, 19, 20, 21, 22, 23, 24, 25],
        7 => [9, 10, 11, 12, 13, 14, 15, 16, 17, 18, 19, 20, 21, 22, 23, 24],
        8 => [8, 9, 10, 11, 12, 13, 14, 15, 16, 17, 18, 19, 20, 21, 22, 23],
        9 => [7, 8, 9, 10, 11, 12, 13, 14, 15, 16, 17, 18, 19, 20, 21, 22],
        10 => [6, 7, 8, 9, 10, 11, 12, 13, 14, 15, 16, 17, 18, 19, 20, 21],
        11 => [5, 6, 7, 8, 9, 10, 11, 12, 13, 14, 15, 16, 17, 18, 19, 20],
        12 => [4, 5, 6, 7, 8, 9, 10, 11, 12, 13, 14, 15, 16, 17, 18, 19],
        13 => [3, 4, 5, 6, 7, 8, 9, 10, 11, 12, 13, 14, 15, 16, 17, 18],
        14 => [2, 3, 4, 5, 6, 7, 8, 9, 10, 11, 12, 13, 14, 15, 16, 17],
        15 => [1, 2, 3, 4, 5, 6, 7, 8, 9, 10, 11, 12, 13, 14, 15, 16],
        _ => [0, 1, 2, 3, 4, 5, 6, 7, 8, 9, 10, 11, 12, 13, 14, 15],
    }
}

/// The table of the seventeen patterns of a right shift, over the vector to
/// shift followed by a vector of zeros: pattern `k` moves the former `k` bytes
/// down.
fn right_pattern(k: u32) -> (idx: [u32; 16])
    requires
        k <= 16,
    ensures
        forall|i: int| 0 <= i < 16 ==> #[trigger] idx@[i] == i + k,
{
    match k {
        0 => [0, 1, 2, 3, 4, 5, 6, 7, 8, 9, 10, 11, 12, 13, 14, 15],
        1 => [1, 2, 3, 4, 5, 6, 7, 8, 9, 10, 11, 12, 13, 14, 15, 16],
        2 => [2, 3, 4, 5, 6, 7, 8, 9, 10, 11, 12, 13, 14, 15, 16, 17],
        3 => [3, 4, 5, 6, 7, 8, 9, 10, 11, 12, 13, 14, 15, 16, 17, 18],
        4 => [4, 5, 6, 7, 8, 9, 10, 11, 12, 13, 14, 15, 16, 17, 18, 19],
        5 => [5, 6, 7, 8, 9, 10, 11, 12, 13, 14, 15, 16, 17, 18, 19, 20],
        6 => [6, 7, 8, 9, 10, 11, 12, 13, 14, 15, 16, 17, 18, 19, 20, 21],
        7 => [7, 8, 9, 10, 11, 12, 13, 14, 15, 16, 17, 18, 19, 20, 21, 22],
        8 => [8, 9, 10, 11, 12, 13, 14, 15, 16, 17, 18, 19, 20, 21, 22, 23],
        9 => [9, 10, 11, 12, 13, 14, 15, 16, 17, 18, 19, 20, 21, 22, 23, 24],
        10 => [10, 11, 12, 13, 14, 15, 16, 17, 18, 19, 20, 21, 22, 23, 24, 25],
        11 => [11, 12, 13, 14, 15, 16, 17, 18, 19, 20, 21, 22, 23, 24, 25, 26],
        12 => [12, 13, 14, 15, 16, 17, 18, 19, 20, 21, 22, 23, 24, 25, 26, 27],
        13 => [13, 14, 15, 16, 17, 18, 19, 20, 21, 22, 23, 24, 25, 26, 27, 28],
        14 => [14, 15, 16, 17, 18, 19, 20, 21, 22, 23, 24, 25, 26, 27, 28, 29],
        15 => [15, 16, 17, 18, 19, 20, 21, 22, 23, 24, 25, 26, 27, 28, 29, 30],
        _ => [16, 17, 18, 19, 20, 21, 22, 23, 24, 25, 26, 27, 28, 29, 30, 31],
    }
}

/// Shifts `a` left by `imm8` bytes while shifting in zeros. Every `imm8`
/// outside 0 to 15 gives the zero vector.
pub fn _mm_slli_si128(a: __m128i, imm8: i32) -> (r: __m128i)
    ensures
        r@ == bytes_shifted_left(a@, byte_shift_distance(imm8)),
        imm8 < 0 || imm8 >= 16 ==> r@ == zero_bytes(),
{
    let zero = __m128i::splat(0);
    let k = normalize(imm8);
    let r = simd_shuffle16(zero, a, left_pattern(k));
    assert(r@ =~= bytes_shifted_left(a@, k as int));
    assert(bytes_shifted_left(a@, 16) =~= zero_bytes());
    r
}

/// Shifts `a` right by `imm8` bytes while shifting in zeros. Every `imm8`
/// outside 0 to 15 gives the zero vector.
pub fn _mm_srli_si128(a: __m128i, imm8: i32) -> (r: __m128i)
    ensures
        r@ == bytes_shifted_right(a@, byte_shift_distance(imm8)),
        imm8 < 0 || imm8 >= 16 ==> r@ == zero_bytes(),
{
    let zero = __m128i::splat(0);
    let k = normalize(imm8);
    let r = simd_shuffle16(a, zero, right_pattern(k));
    assert(r@ =~= bytes_shifted_right(a@, k as int));
    assert(bytes_shifted_right(a@, 16) =~= zero_bytes());
    r
}

/// Shifts `a` left by `imm8` bytes while shifting in zeros.
pub fn _mm_bslli_si128(a: __m128i, imm8: i32) -> (r: __m128i)
    ensures
        r@ == bytes_shifted_left(a@, byte_shift_distance(imm8)),
        imm8 < 0 || imm8 >= 16 ==> r@ == zero_bytes(),
{
    _mm_slli_si128(a, imm8)
}

/// Shifts `a` right by `imm8` bytes while shifting in zeros.
pub fn _mm_bsrli_si128(a: __m128i, imm8: i32) -> (r: __m128i)
    ensures
        r@ == bytes_shifted_right(a@, byte_shift_distance(imm8)),
        imm8 < 0 || imm8 >= 16 ==> r@ == zero_bytes(),
{
    _mm_srli_si128(a, imm8)
}

/// A left shift by `d` bytes followed by a right shift by `d` bytes, for `d`
/// from 0 to 15, leaves the low `16 - d` bytes of `a` where they were and
/// zeros in the `d` high places.
pub proof fn lemma_left_then_right(a: __m128i, d: i32)
    requires
        0 <= d <= 15,
    ensures
        bytes_shifted_right(
            bytes_shifted_left(a@, byte_shift_distance(d)),
            byte_shift_distance(d),
        ) == Seq::new(
            16,
            |i: int|
                if i < 16 - d {
                    a@[i]
                } else {
                    0i8
                },
        ),
{
    assert(bytes_shifted_right(
        bytes_shifted_left(a@, byte_shift_distance(d)),
        byte_shift_distance(d),
    ) =~= Seq::new(
        16,
        |i: int|
            if i < 16 - d {
                a@[i]
            } else {
                0i8
            },
    ));
}

/// A right shift by `d` bytes followed by a left shift by `d` bytes, for `d`
/// from 0 to 15, leaves the high `16 - d` bytes of `a` where they were and
/// zeros in the `d` low places.
pub proof fn lemma_right_then_left(a: __m128i, d: i32)
    requires
        0 <= d <= 15,
    ensures
        bytes_shifted_left(
            bytes_shifted_right(a@, byte_shift_distance(d)),
            byte_shift_distance(d),
        ) == Seq::new(
            16,
            |i: int|
                if i < d {
                    0i8
                } else {
                    a@[i]
                },
        ),
{
    assert(bytes_shifted_left(
        bytes_shifted_right(a@, byte_shift_distance(d)),
        byte_shift_distance(d),
    ) =~= Seq::new(
        16,
        |i: int|
            if i < d {
                0i8
            } else {
                a@[i]
            },
    ));
}

/// Whether the bytes of `v` that a shift by `d` one way and back loses,
/// whichever way comes first, are zero: the bytes below both `d` and
/// `16 - d`, and the bytes from both `d` and `16 - d` on.
pub open spec fn lost_bytes_are_zero(v: Seq<i8>, d: int) -> bool {
    forall|i: int|
        0 <= i < 16 && ((i < d && i < 16 - d) || (i >= d && i >= 16 - d)) ==> #[trigger] v[i]
            == 0
}

/// For `d` from 0 to 15, shifting left then right gives what shifting right
/// then left gives, namely the high `16 - d` bytes of `a` in their places
/// above `d` zero bytes, exactly where the bytes that get lost are zero.
pub proof fn lemma_orders_agree(a: __m128i, d: i32)
    requires
        0 <= d <= 15,
    ensures
        bytes_shifted_right(
            bytes_shifted_left(a@, byte_shift_distance(d)),
            byte_shift_distance(d),
        ) == bytes_shifted_left(
            bytes_shifted_right(a@, byte_shift_distance(d)),
            byte_shift_distance(d),
        ) <==> lost_bytes_are_zero(a@, d as int),
{
    let lr = bytes_shifted_right(bytes_shifted_left(a@, d as int), d as int);
    let rl = bytes_shifted_left(bytes_shifted_right(a@, d as int), d as int);
    if lost_bytes_are_zero(a@, d as int) {
        assert forall|i: int| 0 <= i < 16 implies lr[i] == rl[i] by {
            if (i < d && i < 16 - d) || (i >= d && i >= 16 - d) {
                assert(a@[i] == 0);
            }
        }
        assert(lr =~= rl);
    }
    if lr == rl {
        assert forall|i: int|
            0 <= i < 16 && ((i < d && i < 16 - d) || (i >= d && i >= 16 - d)) implies #[trigger] a@[i]
            == 0 by {
            assert(lr[i] == rl[i]);
        }
    }
}

/// For every distance below 0 or from 16 on, both byte shifts give sixteen
/// zero bytes, whatever `a` holds.
pub proof fn lemma_out_of_range_is_zero(a: __m128i, d: i32)
    requires
        d < 0 || d >= 16,
    ensures
        bytes_shifted_left(a@, byte_shift_distance(d)) == zero_bytes(),
        bytes_shifted_right(a@, byte_shift_distance(d)) == zero_bytes(),
{
    assert(bytes_shifted_left(a@, 16) =~= zero_bytes());
    assert(bytes_shifted_right(a@, 16) =~= zero_bytes());
}

} // verus!
