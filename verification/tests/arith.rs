use simd128::v128::{i16x8, i32x4, i64x2, i8x16, u16x8, u32x4, u64x2, u8x16};
use simd128::x86::sse2;

#[test]
fn _mm_add_epi8() {
    let a = i8x16::new(
        0, 1, 2, 3, 4, 5, 6, 7, 8, 9, 10, 11, 12, 13, 14, 15);
    let b = i8x16::new(
        16, 17, 18, 19, 20, 21, 22, 23, 24, 25, 26, 27, 28, 29, 30, 31);
    let r = sse2::_mm_add_epi8(a, b);
    let e = i8x16::new(
        16, 18, 20, 22, 24, 26, 28, 30, 32, 34, 36, 38, 40, 42, 44, 46);
    assert_eq!(r, e);
}

#[test]
fn _mm_add_epi8_overflow() {
    let a = i8x16::splat(0x7F);
    let b = i8x16::splat(1);
    let r = sse2::_mm_add_epi8(a, b);
    assert_eq!(r, i8x16::splat(-128));
}

#[test]
fn _mm_add_epi16() {
    let a = i16x8::new(0, 1, 2, 3, 4, 5, 6, 7);
    let b = i16x8::new(8, 9, 10, 11, 12, 13, 14, 15);
    let r = sse2::_mm_add_epi16(a, b);
    let e = i16x8::new(8, 10, 12, 14, 16, 18, 20, 22);
    assert_eq!(r, e);
}

#[test]
fn _mm_add_epi32() {
    let a = i32x4::new(0, 1, 2, 3);
    let b = i32x4::new(4, 5, 6, 7);
    let r = sse2::_mm_add_epi32(a, b);
    let e = i32x4::new(4, 6, 8, 10);
    assert_eq!(r, e);
}

#[test]
fn _mm_add_epi64() {
    let a = i64x2::new(0, 1);
    let b = i64x2::new(2, 3);
    let r = sse2::_mm_add_epi64(a, b);
    let e = i64x2::new(2, 4);
    assert_eq!(r, e);
}

#[test]
fn _mm_adds_epi8() {
    let a = i8x16::new(
        0, 1, 2, 3, 4, 5, 6, 7, 8, 9, 10, 11, 12, 13, 14, 15);
    let b = i8x16::new(
        16, 17, 18, 19, 20, 21, 22, 23, 24, 25, 26, 27, 28, 29, 30, 31);
    let r = sse2::_mm_adds_epi8(a, b);
    let e = i8x16::new(
        16, 18, 20, 22, 24, 26, 28, 30, 32, 34, 36, 38, 40, 42, 44, 46);
    assert_eq!(r, e);
}

#[test]
fn _mm_adds_epi8_saturate_positive() {
    let a = i8x16::splat(0x7F);
    let b = i8x16::splat(1);
    let r = sse2::_mm_adds_epi8(a, b);
    assert_eq!(r, a);
}

#[test]
fn _mm_adds_epi8_saturate_negative() {
    let a = i8x16::splat(-0x80);
    let b = i8x16::splat(-1);
    let r = sse2::_mm_adds_epi8(a, b);
    assert_eq!(r, a);
}

#[test]
fn _mm_adds_epi16() {
    let a = i16x8::new(0, 1, 2, 3, 4, 5, 6, 7);
    let b = i16x8::new(8, 9, 10, 11, 12, 13, 14, 15);
    let r = sse2::_mm_adds_epi16(a, b);
    let e = i16x8::new(8, 10, 12, 14, 16, 18, 20, 22);
    assert_eq!(r, e);
}

#[test]
fn _mm_adds_epi16_saturate_positive() {
    let a = i16x8::splat(0x7FFF);
    let b = i16x8::splat(1);
    let r = sse2::_mm_adds_epi16(a, b);
    assert_eq!(r, a);
}

#[test]
fn _mm_adds_epi16_saturate_negative() {
    let a = i16x8::splat(-0x8000);
    let b = i16x8::splat(-1);
    let r = sse2::_mm_adds_epi16(a, b);
    assert_eq!(r, a);
}

#[test]
fn _mm_adds_epu8() {
    let a = u8x16::new(
        0, 1, 2, 3, 4, 5, 6, 7, 8, 9, 10, 11, 12, 13, 14, 15);
    let b = u8x16::new(
        16, 17, 18, 19, 20, 21, 22, 23, 24, 25, 26, 27, 28, 29, 30, 31);
    let r = sse2::_mm_adds_epu8(a, b);
    let e = u8x16::new(
        16, 18, 20, 22, 24, 26, 28, 30, 32, 34, 36, 38, 40, 42, 44, 46);
    assert_eq!(r, e);
}

#[test]
fn _mm_adds_epu8_saturate() {
    let a = u8x16::splat(0xFF);
    let b = u8x16::splat(1);
    let r = sse2::_mm_adds_epu8(a, b);
    assert_eq!(r, a);
}

#[test]
fn _mm_adds_epu16() {
    let a = u16x8::new(0, 1, 2, 3, 4, 5, 6, 7);
    let b = u16x8::new(8, 9, 10, 11, 12, 13, 14, 15);
    let r = sse2::_mm_adds_epu16(a, b);
    let e = u16x8::new(8, 10, 12, 14, 16, 18, 20, 22);
    assert_eq!(r, e);
}

#[test]
fn _mm_adds_epu16_saturate() {
    let a = u16x8::splat(0xFFFF);
    let b = u16x8::splat(1);
    let r = sse2::_mm_adds_epu16(a, b);
    assert_eq!(r, a);
}

#[test]
fn _mm_avg_epu8() {
    let (a, b) = (u8x16::splat(3), u8x16::splat(9));
    let r = sse2::_mm_avg_epu8(a, b);
    assert_eq!(r, u8x16::splat(6));
}

#[test]
fn _mm_avg_epu16() {
    let (a, b) = (u16x8::splat(3), u16x8::splat(9));
    let r = sse2::_mm_avg_epu16(a, b);
    assert_eq!(r, u16x8::splat(6));
}

#[test]
fn _mm_madd_epi16() {
    let a = i16x8::new(1, 2, 3, 4, 5, 6, 7, 8);
    let b = i16x8::new(9, 10, 11, 12, 13, 14, 15, 16);
    let r = sse2::_mm_madd_epi16(a, b);
    let e = i32x4::new(29, 81, 149, 233);
    assert_eq!(r, e);
}

#[test]
fn _mm_max_epi16() {
    let a = i16x8::splat(1);
    let b = i16x8::splat(-1);
    let r = sse2::_mm_max_epi16(a, b);
    assert_eq!(r, a);
}

#[test]
fn _mm_max_epu8() {
    let a = u8x16::splat(1);
    let b = u8x16::splat(255);
    let r = sse2::_mm_max_epu8(a, b);
    assert_eq!(r, b);
}

#[test]
fn _mm_min_epi16() {
    let a = i16x8::splat(1);
    let b = i16x8::splat(-1);
    let r = sse2::_mm_min_epi16(a, b);
    assert_eq!(r, b);
}

#[test]
fn _mm_min_epu8() {
    let a = u8x16::splat(1);
    let b = u8x16::splat(255);
    let r = sse2::_mm_min_epu8(a, b);
    assert_eq!(r, a);
}

#[test]
fn _mm_mulhi_epi16() {
    let (a, b) = (i16x8::splat(1000), i16x8::splat(-1001));
    let r = sse2::_mm_mulhi_epi16(a, b);
    assert_eq!(r, i16x8::splat(-16));
}

#[test]
fn _mm_mulhi_epu16() {
    let (a, b) = (u16x8::splat(1000), u16x8::splat(1001));
    let r = sse2::_mm_mulhi_epu16(a, b);
    assert_eq!(r, u16x8::splat(15));
}

#[test]
fn _mm_mullo_epi16() {
    let (a, b) = (i16x8::splat(1000), i16x8::splat(-1001));
    let r = sse2::_mm_mullo_epi16(a, b);
    assert_eq!(r, i16x8::splat(-17960));
}

#[test]
fn _mm_mul_epu32() {
    let a = u32x4::from(u64x2::new(1_000_000_000, 1 << 34));
    let b = u32x4::from(u64x2::new(1_000_000_000, 1 << 35));
    let r = sse2::_mm_mul_epu32(a, b);
    let e = u64x2::new(1_000_000_000 * 1_000_000_000, 0);
    assert_eq!(r, e);
}

#[test]
fn _mm_sad_epu8() {
    let a = u8x16::new(
        255, 254, 253, 252, 1, 2, 3, 4,
        155, 154, 153, 152, 1, 2, 3, 4);
    let b = u8x16::new(
        0, 0, 0, 0, 2, 1, 2, 1,
        1, 1, 1, 1, 1, 2, 1, 2);
    let r = sse2::_mm_sad_epu8(a, b);
    let e = u64x2::new(1020, 614);
    assert_eq!(r, e);
}

#[test]
fn _mm_sub_epi8() {
    let (a, b) = (i8x16::splat(5), i8x16::splat(6));
    let r = sse2::_mm_sub_epi8(a, b);
    assert_eq!(r, i8x16::splat(-1));
}

#[test]
fn _mm_sub_epi16() {
    let (a, b) = (i16x8::splat(5), i16x8::splat(6));
    let r = sse2::_mm_sub_epi16(a, b);
    assert_eq!(r, i16x8::splat(-1));
}

#[test]
fn _mm_sub_epi32() {
    let (a, b) = (i32x4::splat(5), i32x4::splat(6));
    let r = sse2::_mm_sub_epi32(a, b);
    assert_eq!(r, i32x4::splat(-1));
}

#[test]
fn _mm_sub_epi64() {
    let (a, b) = (i64x2::splat(5), i64x2::splat(6));
    let r = sse2::_mm_sub_epi64(a, b);
    assert_eq!(r, i64x2::splat(-1));
}

#[test]
fn _mm_subs_epi8() {
    let (a, b) = (i8x16::splat(5), i8x16::splat(2));
    let r = sse2::_mm_subs_epi8(a, b);
    assert_eq!(r, i8x16::splat(3));
}

#[test]
fn _mm_subs_epi8_saturate_positive() {
    let a = i8x16::splat(0x7F);
    let b = i8x16::splat(-1);
    let r = sse2::_mm_subs_epi8(a, b);
    assert_eq!(r, a);
}

#[test]
fn _mm_subs_epi8_saturate_negative() {
    let a = i8x16::splat(-0x80);
    let b = i8x16::splat(1);
    let r = sse2::_mm_subs_epi8(a, b);
    assert_eq!(r, a);
}

#[test]
fn _mm_subs_epi16() {
    let (a, b) = (i16x8::splat(5), i16x8::splat(2));
    let r = sse2::_mm_subs_epi16(a, b);
    assert_eq!(r, i16x8::splat(3));
}

#[test]
fn _mm_subs_epi16_saturate_positive() {
    let a = i16x8::splat(0x7FFF);
    let b = i16x8::splat(-1);
    let r = sse2::_mm_subs_epi16(a, b);
    assert_eq!(r, a);
}

#[test]
fn _mm_subs_epi16_saturate_negative() {
    let a = i16x8::splat(-0x8000);
    let b = i16x8::splat(1);
    let r = sse2::_mm_subs_epi16(a, b);
    assert_eq!(r, a);
}

#[test]
fn _mm_subs_epu8() {
    let (a, b) = (u8x16::splat(5), u8x16::splat(2));
    let r = sse2::_mm_subs_epu8(a, b);
    assert_eq!(r, u8x16::splat(3));
}

#[test]
fn _mm_subs_epu8_saturate() {
    let a = u8x16::splat(0);
    let b = u8x16::splat(1);
    let r = sse2::_mm_subs_epu8(a, b);
    assert_eq!(r, a);
}

#[test]
fn _mm_subs_epu16() {
    let (a, b) = (u16x8::splat(5), u16x8::splat(2));
    let r = sse2::_mm_subs_epu16(a, b);
    assert_eq!(r, u16x8::splat(3));
}

#[test]
fn _mm_subs_epu16_saturate() {
    let a = u16x8::splat(0);
    let b = u16x8::splat(1);
    let r = sse2::_mm_subs_epu16(a, b);
    assert_eq!(r, a);
}
