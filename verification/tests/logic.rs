use simd128::x86::{__m128i, sse2};

#[test]
fn _mm_and_si128() {
    assert_eq!(
        sse2::_mm_and_si128(__m128i::splat(5), __m128i::splat(3)),
        __m128i::splat(1));
}

#[test]
fn _mm_andnot_si128() {
    assert_eq!(
        sse2::_mm_andnot_si128(__m128i::splat(5), __m128i::splat(3)),
        __m128i::splat(2));
}

#[test]
fn _mm_or_si128() {
    assert_eq!(
        sse2::_mm_or_si128(__m128i::splat(5), __m128i::splat(3)),
        __m128i::splat(7));
}

#[test]
fn _mm_xor_si128() {
    assert_eq!(
        sse2::_mm_xor_si128(__m128i::splat(5), __m128i::splat(3)),
        __m128i::splat(6));
}
