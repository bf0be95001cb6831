use simd128::v128::{i16x8, i32x4, i64x2, i8x16, u16x8, u32x4, u64x2, u8x16};
use simd128::x86::{__m128i, sse2};

#[test]
fn wrapping_sums_and_differences() {
    assert_eq!(sse2::_mm_add_epi8(i8x16::splat(-128), i8x16::splat(-1)), i8x16::splat(127));
    assert_eq!(sse2::_mm_add_epi16(i16x8::splat(0x7FFF), i16x8::splat(1)), i16x8::splat(-0x8000));
    assert_eq!(sse2::_mm_add_epi32(i32x4::splat(i32::MAX), i32x4::splat(2)), i32x4::splat(i32::MIN + 1));
    assert_eq!(sse2::_mm_add_epi64(i64x2::splat(i64::MIN), i64x2::splat(-1)), i64x2::splat(i64::MAX));
    assert_eq!(sse2::_mm_sub_epi8(i8x16::splat(-128), i8x16::splat(1)), i8x16::splat(127));
    assert_eq!(sse2::_mm_sub_epi16(i16x8::splat(0x7FFF), i16x8::splat(-1)), i16x8::splat(-0x8000));
    assert_eq!(sse2::_mm_sub_epi32(i32x4::splat(i32::MIN), i32x4::splat(1)), i32x4::splat(i32::MAX));
    assert_eq!(sse2::_mm_sub_epi64(i64x2::splat(0), i64x2::splat(i64::MIN)), i64x2::splat(i64::MIN));
    assert_eq!(
        sse2::_mm_add_epi32(i32x4::new(1, -2, 3, i32::MAX), i32x4::new(10, 20, -30, 1)),
        i32x4::new(11, 18, -27, i32::MIN)
    );
}

#[test]
fn saturation_stops_at_both_ends() {
    assert_eq!(
        sse2::_mm_adds_epi8(
            i8x16::new(127, -128, 100, -100, 1, -1, 0, 50, 127, -128, 64, -64, 0, 0, 0, 0),
            i8x16::new(127, -128, 27, -28, -1, 1, 0, 78, -128, 127, 64, -65, 0, 0, 0, 0),
        ),
        i8x16::new(127, -128, 127, -128, 0, 0, 0, 127, -1, -1, 127, -128, 0, 0, 0, 0)
    );
    assert_eq!(sse2::_mm_adds_epu8(u8x16::splat(200), u8x16::splat(55)), u8x16::splat(255));
    assert_eq!(sse2::_mm_adds_epu8(u8x16::splat(200), u8x16::splat(56)), u8x16::splat(255));
    assert_eq!(sse2::_mm_adds_epu16(u16x8::splat(0xFFFE), u16x8::splat(1)), u16x8::splat(0xFFFF));
    assert_eq!(sse2::_mm_adds_epu16(u16x8::splat(0xFFFE), u16x8::splat(0xFFFE)), u16x8::splat(0xFFFF));
    assert_eq!(sse2::_mm_subs_epi8(i8x16::splat(-100), i8x16::splat(29)), i8x16::splat(-128));
    assert_eq!(sse2::_mm_subs_epi16(i16x8::splat(0x7000), i16x8::splat(-0x1000)), i16x8::splat(0x7FFF));
    assert_eq!(sse2::_mm_subs_epu8(u8x16::splat(3), u8x16::splat(200)), u8x16::splat(0));
    assert_eq!(sse2::_mm_subs_epu16(u16x8::splat(3), u16x8::splat(4)), u16x8::splat(0));
    assert_eq!(sse2::_mm_subs_epu16(u16x8::splat(0xFFFF), u16x8::splat(1)), u16x8::splat(0xFFFE));
}

#[test]
fn averages_round_halves_up() {
    assert_eq!(sse2::_mm_avg_epu8(u8x16::splat(1), u8x16::splat(2)), u8x16::splat(2));
    assert_eq!(sse2::_mm_avg_epu8(u8x16::splat(255), u8x16::splat(255)), u8x16::splat(255));
    assert_eq!(sse2::_mm_avg_epu8(u8x16::splat(0), u8x16::splat(0)), u8x16::splat(0));
    assert_eq!(sse2::_mm_avg_epu8(u8x16::splat(0), u8x16::splat(255)), u8x16::splat(128));
    assert_eq!(sse2::_mm_avg_epu16(u16x8::splat(0xFFFF), u16x8::splat(0xFFFE)), u16x8::splat(0xFFFF));
    assert_eq!(sse2::_mm_avg_epu16(u16x8::splat(4), u16x8::splat(7)), u16x8::splat(6));
}

#[test]
fn products_and_their_halves() {
    assert_eq!(
        sse2::_mm_madd_epi16(i16x8::splat(-0x8000), i16x8::splat(-0x8000)),
        i32x4::splat(i32::MIN)
    );
    assert_eq!(
        sse2::_mm_madd_epi16(
            i16x8::new(-1, 2, 0x7FFF, 0x7FFF, -0x8000, 0, 3, -3),
            i16x8::new(5, 5, 0x7FFF, 0x7FFF, 0x7FFF, 9, 7, 7),
        ),
        i32x4::new(5, 0x7FFE_0002, -0x3FFF_8000, 0)
    );
    assert_eq!(sse2::_mm_mulhi_epi16(i16x8::splat(-1), i16x8::splat(1)), i16x8::splat(-1));
    assert_eq!(sse2::_mm_mulhi_epi16(i16x8::splat(-0x8000), i16x8::splat(-0x8000)), i16x8::splat(0x4000));
    assert_eq!(sse2::_mm_mulhi_epi16(i16x8::splat(0x7FFF), i16x8::splat(-0x8000)), i16x8::splat(-0x4000));
    assert_eq!(sse2::_mm_mulhi_epu16(u16x8::splat(0xFFFF), u16x8::splat(0xFFFF)), u16x8::splat(0xFFFE));
    assert_eq!(sse2::_mm_mullo_epi16(i16x8::splat(0x4000), i16x8::splat(2)), i16x8::splat(-0x8000));
    assert_eq!(sse2::_mm_mullo_epi16(i16x8::splat(-0x8000), i16x8::splat(-0x8000)), i16x8::splat(0));
    assert_eq!(sse2::_mm_mullo_epi16(i16x8::splat(-3), i16x8::splat(7)), i16x8::splat(-21));
    assert_eq!(
        sse2::_mm_mul_epu32(u32x4::new(u32::MAX, 7, 3, 9), u32x4::new(u32::MAX, 11, 5, 13)),
        u64x2::new(0xFFFF_FFFE_0000_0001, 15)
    );
}

#[test]
fn greater_and_lesser_read_the_lanes_signed_or_unsigned() {
    let a = i16x8::new(-1, 1, i16::MIN, i16::MAX, 0, 5, -5, 7);
    let b = i16x8::new(1, -1, i16::MAX, i16::MIN, 0, 6, -6, 7);
    assert_eq!(sse2::_mm_max_epi16(a, b), i16x8::new(1, 1, i16::MAX, i16::MAX, 0, 6, -5, 7));
    assert_eq!(sse2::_mm_min_epi16(a, b), i16x8::new(-1, -1, i16::MIN, i16::MIN, 0, 5, -6, 7));
    let c = u8x16::new(0, 255, 128, 127, 1, 2, 3, 4, 5, 6, 7, 8, 9, 10, 11, 12);
    let d = u8x16::new(255, 0, 127, 128, 2, 1, 4, 3, 5, 6, 7, 8, 9, 10, 11, 13);
    assert_eq!(sse2::_mm_max_epu8(c, d), u8x16::new(255, 255, 128, 128, 2, 2, 4, 4, 5, 6, 7, 8, 9, 10, 11, 13));
    assert_eq!(sse2::_mm_min_epu8(c, d), u8x16::new(0, 0, 127, 127, 1, 1, 3, 3, 5, 6, 7, 8, 9, 10, 11, 12));
}

#[test]
fn sum_of_distances_of_extreme_bytes() {
    assert_eq!(sse2::_mm_sad_epu8(u8x16::splat(255), u8x16::splat(0)), u64x2::splat(2040));
    assert_eq!(sse2::_mm_sad_epu8(u8x16::splat(0), u8x16::splat(255)), u64x2::splat(2040));
    assert_eq!(sse2::_mm_sad_epu8(u8x16::splat(9), u8x16::splat(9)), u64x2::splat(0));
}

#[test]
fn shift_counts_from_the_lane_width_on() {
    let a = i16x8::new(-1, 1, 0x4000, -0x8000, 0x00FF, 0, 2, -2);
    assert_eq!(sse2::_mm_slli_epi16(a, 0), a);
    assert_eq!(sse2::_mm_slli_epi16(a, 15), i16x8::new(-0x8000, -0x8000, 0, 0, -0x8000, 0, 0, 0));
    assert_eq!(sse2::_mm_slli_epi16(a, 16), i16x8::splat(0));
    assert_eq!(sse2::_mm_slli_epi16(a, 255), i16x8::splat(0));
    assert_eq!(sse2::_mm_slli_epi16(a, 256), i16x8::splat(0));
    assert_eq!(sse2::_mm_slli_epi16(a, -1), i16x8::splat(0));
    assert_eq!(sse2::_mm_slli_epi16(a, i32::MIN), i16x8::splat(0));
    assert_eq!(sse2::_mm_srli_epi16(a, 15), i16x8::new(1, 0, 0, 1, 0, 0, 0, 1));
    assert_eq!(sse2::_mm_srli_epi16(a, 16), i16x8::splat(0));
    assert_eq!(sse2::_mm_srli_epi16(a, -1), i16x8::splat(0));
    assert_eq!(sse2::_mm_srai_epi16(a, 1), i16x8::new(-1, 0, 0x2000, -0x4000, 0x7F, 0, 1, -1));
    assert_eq!(sse2::_mm_srai_epi16(a, 15), i16x8::new(-1, 0, 0, -1, 0, 0, 0, -1));
    assert_eq!(sse2::_mm_srai_epi16(a, 16), i16x8::new(-1, 0, 0, -1, 0, 0, 0, -1));
    assert_eq!(sse2::_mm_srai_epi16(a, -1), i16x8::new(-1, 0, 0, -1, 0, 0, 0, -1));
    assert_eq!(sse2::_mm_slli_epi32(i32x4::splat(1), 31), i32x4::splat(i32::MIN));
    assert_eq!(sse2::_mm_slli_epi32(i32x4::splat(-1), 32), i32x4::splat(0));
    assert_eq!(sse2::_mm_srli_epi32(i32x4::splat(-1), 31), i32x4::splat(1));
    assert_eq!(sse2::_mm_srli_epi32(i32x4::splat(-1), 32), i32x4::splat(0));
    assert_eq!(sse2::_mm_srai_epi32(i32x4::new(-8, 8, i32::MIN, i32::MAX), 2), i32x4::new(-2, 2, -0x2000_0000, 0x1FFF_FFFF));
    assert_eq!(sse2::_mm_srai_epi32(i32x4::new(-8, 8, i32::MIN, i32::MAX), 32), i32x4::new(-1, 0, -1, 0));
    assert_eq!(sse2::_mm_slli_epi64(i64x2::splat(1), 63), i64x2::splat(i64::MIN));
    assert_eq!(sse2::_mm_slli_epi64(i64x2::splat(-1), 64), i64x2::splat(0));
    assert_eq!(sse2::_mm_srli_epi64(i64x2::splat(-1), 63), i64x2::splat(1));
    assert_eq!(sse2::_mm_srli_epi64(i64x2::splat(-1), 64), i64x2::splat(0));
    assert_eq!(sse2::_mm_srli_epi64(i64x2::splat(-1), -64), i64x2::splat(0));
}

#[test]
fn a_count_vector_is_read_as_its_low_64_bits() {
    let a = i16x8::splat(0x0101);
    assert_eq!(sse2::_mm_sll_epi16(a, i16x8::new(1, 0, 0, 0, 9, 9, 9, 9)), i16x8::splat(0x0202));
    assert_eq!(sse2::_mm_sll_epi16(a, i16x8::new(0, 1, 0, 0, 0, 0, 0, 0)), i16x8::splat(0));
    assert_eq!(sse2::_mm_sll_epi16(a, i16x8::new(0, 0, 0, 1, 0, 0, 0, 0)), i16x8::splat(0));
    assert_eq!(sse2::_mm_sll_epi16(a, i16x8::new(-1, 0, 0, 0, 0, 0, 0, 0)), i16x8::splat(0));
    assert_eq!(sse2::_mm_sll_epi16(a, i16x8::new(16, 0, 0, 0, 0, 0, 0, 0)), i16x8::splat(0));
    assert_eq!(sse2::_mm_srl_epi16(a, i16x8::new(8, 0, 0, 0, 0, 0, 0, 0)), i16x8::splat(1));
    assert_eq!(sse2::_mm_srl_epi16(i16x8::splat(-1), i16x8::new(15, 0, 0, 0, 0, 0, 0, 0)), i16x8::splat(1));
    assert_eq!(sse2::_mm_sra_epi16(i16x8::splat(-0x100), i16x8::new(4, 0, 0, 0, 0, 0, 0, 0)), i16x8::splat(-0x10));
    assert_eq!(sse2::_mm_sra_epi16(i16x8::splat(-0x100), i16x8::new(0, 0, 1, 0, 0, 0, 0, 0)), i16x8::splat(-1));
    assert_eq!(sse2::_mm_sll_epi32(i32x4::splat(3), i32x4::new(30, 0, 7, 7)), i32x4::splat(-0x4000_0000));
    assert_eq!(sse2::_mm_sll_epi32(i32x4::splat(3), i32x4::new(30, 1, 0, 0)), i32x4::splat(0));
    assert_eq!(sse2::_mm_srl_epi32(i32x4::splat(-1), i32x4::new(28, 0, 0, 0)), i32x4::splat(0xF));
    assert_eq!(sse2::_mm_sra_epi32(i32x4::splat(-0x100), i32x4::new(8, 0, 0, 0)), i32x4::splat(-1));
    assert_eq!(sse2::_mm_sra_epi32(i32x4::splat(0x100), i32x4::new(-1, -1, 0, 0)), i32x4::splat(0));
    assert_eq!(sse2::_mm_sll_epi64(i64x2::splat(1), i64x2::new(63, 5)), i64x2::splat(i64::MIN));
    assert_eq!(sse2::_mm_sll_epi64(i64x2::splat(1), i64x2::new(64, 0)), i64x2::splat(0));
    assert_eq!(sse2::_mm_sll_epi64(i64x2::splat(1), i64x2::new(-1, 0)), i64x2::splat(0));
    assert_eq!(sse2::_mm_srl_epi64(i64x2::splat(-1), i64x2::new(60, 0)), i64x2::splat(0xF));
}

#[test]
fn logic_on_mixed_bits() {
    let a = __m128i::splat(0b0101_1010);
    let b = __m128i::splat(-0b0011_1101);
    assert_eq!(sse2::_mm_and_si128(a, b), __m128i::splat(0b0100_0010));
    assert_eq!(sse2::_mm_andnot_si128(a, b), __m128i::splat(-0b0111_1111));
    assert_eq!(sse2::_mm_or_si128(a, b), __m128i::splat(-0b0010_0101));
    assert_eq!(sse2::_mm_xor_si128(a, b), __m128i::splat(-0b0110_0111));
    assert_eq!(sse2::_mm_andnot_si128(__m128i::splat(0), b), b);
    assert_eq!(sse2::_mm_andnot_si128(__m128i::splat(-1), b), __m128i::splat(0));
}

#[test]
fn comparisons_are_signed() {
    let a = i8x16::new(-1, 1, -128, 127, 0, 0, 5, 5, 0, 0, 0, 0, 0, 0, 0, 0);
    let b = i8x16::new(1, -1, 127, -128, 0, 1, 5, 4, 0, 0, 0, 0, 0, 0, 0, 0);
    assert_eq!(sse2::_mm_cmpgt_epi8(a, b), i8x16::new(0, -1, 0, -1, 0, 0, 0, -1, 0, 0, 0, 0, 0, 0, 0, 0));
    assert_eq!(sse2::_mm_cmplt_epi8(a, b), i8x16::new(-1, 0, -1, 0, 0, -1, 0, 0, 0, 0, 0, 0, 0, 0, 0, 0));
    assert_eq!(sse2::_mm_cmpeq_epi8(a, b), i8x16::new(0, 0, 0, 0, -1, 0, -1, 0, -1, -1, -1, -1, -1, -1, -1, -1));
    assert_eq!(sse2::_mm_cmpgt_epi16(i16x8::splat(-1), i16x8::splat(-2)), i16x8::splat(-1));
    assert_eq!(sse2::_mm_cmplt_epi16(i16x8::splat(-1), i16x8::splat(-2)), i16x8::splat(0));
    assert_eq!(sse2::_mm_cmpgt_epi32(i32x4::new(i32::MIN, 0, 1, -1), i32x4::new(i32::MAX, 0, 0, -2)), i32x4::new(0, 0, -1, -1));
    assert_eq!(sse2::_mm_cmplt_epi32(i32x4::new(i32::MIN, 0, 1, -1), i32x4::new(i32::MAX, 0, 0, -2)), i32x4::new(-1, 0, 0, 0));
    assert_eq!(sse2::_mm_cmpeq_epi32(i32x4::new(i32::MIN, 0, 1, -1), i32x4::new(i32::MIN, 1, 1, -1)), i32x4::new(-1, 0, -1, -1));
    assert_eq!(sse2::_mm_cmpeq_epi16(i16x8::splat(7), i16x8::splat(7)), i16x8::splat(-1));
}

#[test]
fn packing_at_the_limits() {
    let a = i16x8::new(127, 128, -128, -129, 0x7FFF, -0x8000, 1, -1);
    let b = i16x8::new(255, 256, 0, -1, 100, -100, 200, -200);
    assert_eq!(
        sse2::_mm_packs_epi16(a, b),
        i8x16::new(127, 127, -128, -128, 127, -128, 1, -1, 127, 127, 0, -1, 100, -100, 127, -128)
    );
    assert_eq!(
        sse2::_mm_packus_epi16(a, b),
        u8x16::new(127, 128, 0, 0, 255, 0, 1, 0, 255, 255, 0, 0, 100, 0, 200, 0)
    );
    assert_eq!(
        sse2::_mm_packs_epi32(i32x4::new(0x7FFF, 0x8000, -0x8000, -0x8001), i32x4::new(i32::MAX, i32::MIN, 5, -5)),
        i16x8::new(0x7FFF, 0x7FFF, -0x8000, -0x8000, 0x7FFF, -0x8000, 5, -5)
    );
}

#[test]
fn sign_masks() {
    assert_eq!(sse2::_mm_movemask_epi8(i8x16::splat(0)), 0);
    assert_eq!(sse2::_mm_movemask_epi8(i8x16::splat(-1)), 0xFFFF);
    assert_eq!(sse2::_mm_movemask_epi8(i8x16::splat(127)), 0);
    assert_eq!(sse2::_mm_movemask_epi8(i8x16::splat(0).replace(0, -128)), 1);
    assert_eq!(sse2::_mm_movemask_epi8(i8x16::splat(0).replace(15, -1)), 0x8000);
    assert_eq!(sse2::_mm_movemask_epi8(i8x16::splat(-1).replace(4, 0)), 0xFFEF);
}

#[test]
fn scalar_moves() {
    assert_eq!(sse2::_mm_cvtsi32_si128(-7), i32x4::new(-7, 0, 0, 0));
    assert_eq!(sse2::_mm_cvtsi64_si128(i64::MIN), i64x2::new(i64::MIN, 0));
    assert_eq!(sse2::_mm_cvtsi64x_si128(-5), i64x2::new(-5, 0));
    assert_eq!(sse2::_mm_cvtsi128_si32(i32x4::new(-9, 1, 2, 3)), -9);
    assert_eq!(sse2::_mm_cvtsi128_si64(i64x2::new(-9, 1)), -9);
    assert_eq!(sse2::_mm_cvtsi128_si64x(i64x2::new(11, 1)), 11);
    assert_eq!(sse2::_mm_move_epi64(i64x2::new(-1, -1)), i64x2::new(-1, 0));
    assert_eq!(sse2::_mm_setzero_si128(), __m128i::splat(0));
}

#[test]
fn masked_and_partial_stores() {
    let a = i8x16::new(1, 2, 3, 4, 5, 6, 7, 8, 9, 10, 11, 12, 13, 14, 15, 16);
    let mask = i8x16::new(-1, 0, -128, 127, 1, -2, 0, 0, 0, 0, 0, 0, 0, 0, 0, -1);
    let mut m = i8x16::splat(50);
    sse2::_mm_maskmoveu_si128(a, mask, &mut m);
    assert_eq!(m, i8x16::new(1, 50, 3, 50, 50, 6, 50, 50, 50, 50, 50, 50, 50, 50, 50, 16));
    let mut n = i8x16::splat(50);
    sse2::_mm_maskmoveu_si128(a, i8x16::splat(0), &mut n);
    assert_eq!(n, i8x16::splat(50));
    sse2::_mm_maskmoveu_si128(a, i8x16::splat(-1), &mut n);
    assert_eq!(n, a);
    let mut l = __m128i::splat(50);
    sse2::_mm_storel_epi64(&mut l, a);
    assert_eq!(l, __m128i::new(1, 2, 3, 4, 5, 6, 7, 8, 50, 50, 50, 50, 50, 50, 50, 50));
    assert_eq!(sse2::_mm_loadl_epi64(&i64x2::new(-6, -5)), i64x2::new(-6, 0));
    assert_eq!(sse2::_mm_load_si128(&a), a);
    assert_eq!(sse2::_mm_loadu_si128(&a), a);
}

#[test]
fn interleaving_takes_one_half_of_each() {
    let a = i32x4::new(1, 2, 3, 4);
    let b = i32x4::new(-1, -2, -3, -4);
    assert_eq!(sse2::_mm_unpacklo_epi32(a, b), i32x4::new(1, -1, 2, -2));
    assert_eq!(sse2::_mm_unpackhi_epi32(a, b), i32x4::new(3, -3, 4, -4));
    assert_eq!(sse2::_mm_unpacklo_epi32(b, a), i32x4::new(-1, 1, -2, 2));
    assert_eq!(sse2::_mm_unpackhi_epi64(i64x2::new(1, 2), i64x2::new(3, 4)), i64x2::new(2, 4));
    assert_eq!(sse2::_mm_unpacklo_epi64(i64x2::new(1, 2), i64x2::new(3, 4)), i64x2::new(1, 3));
}
