use simd128::v128::{i16x8, i32x4, i64x2, i8x16};
use simd128::x86::{__m128i, sse2};

#[test]
fn _mm_set_epi64x() {
    assert_eq!(sse2::_mm_set_epi64x(0, 1), i64x2::new(1, 0));
}

#[test]
fn _mm_set_epi32() {
    assert_eq!(sse2::_mm_set_epi32(0, 1, 2, 3), i32x4::new(3, 2, 1, 0));
}

#[test]
fn _mm_set_epi16() {
    assert_eq!(
        sse2::_mm_set_epi16(0, 1, 2, 3, 4, 5, 6, 7),
        i16x8::new(7, 6, 5, 4, 3, 2, 1, 0));
}

#[test]
fn _mm_set_epi8() {
    assert_eq!(
        sse2::_mm_set_epi8(
            0, 1, 2, 3, 4, 5, 6, 7, 8, 9, 10, 11, 12, 13, 14, 15),
        i8x16::new(15, 14, 13, 12, 11, 10, 9, 8, 7, 6, 5, 4, 3, 2, 1, 0));
}

#[test]
fn _mm_set1_epi64x() {
    assert_eq!(sse2::_mm_set1_epi64x(1), i64x2::splat(1));
}

#[test]
fn _mm_set1_epi32() {
    assert_eq!(sse2::_mm_set1_epi32(1), i32x4::splat(1));
}

#[test]
fn _mm_set1_epi16() {
    assert_eq!(sse2::_mm_set1_epi16(1), i16x8::splat(1));
}

#[test]
fn _mm_set1_epi8() {
    assert_eq!(sse2::_mm_set1_epi8(1), i8x16::splat(1));
}

#[test]
fn _mm_setr_epi32() {
    assert_eq!(sse2::_mm_setr_epi32(0, 1, 2, 3), i32x4::new(0, 1, 2, 3));
}

#[test]
fn _mm_setr_epi16() {
    assert_eq!(
        sse2::_mm_setr_epi16(0, 1, 2, 3, 4, 5, 6, 7),
        i16x8::new(0, 1, 2, 3, 4, 5, 6, 7));
}

#[test]
fn _mm_setr_epi8() {
    assert_eq!(
        sse2::_mm_setr_epi8(
            0, 1, 2, 3, 4, 5, 6, 7, 8, 9, 10, 11, 12, 13, 14, 15),
        i8x16::new(0, 1, 2, 3, 4, 5, 6, 7, 8, 9, 10, 11, 12, 13, 14, 15));
}

#[test]
fn _mm_setzero_si128() {
    assert_eq!(sse2::_mm_setzero_si128(), __m128i::from(i64x2::splat(0)));
}
