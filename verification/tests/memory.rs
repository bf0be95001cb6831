use simd128::v128::{i64x2, i8x16};
use simd128::x86::{__m128i, sse2};

#[test]
fn _mm_loadl_epi64() {
    let a = i64x2::new(6, 5);
    let r = sse2::_mm_loadl_epi64(&a);
    assert_eq!(r, i64x2::new(6, 0));
}

#[test]
fn _mm_load_si128() {
    let a = sse2::_mm_set_epi64x(5, 6);
    let r = sse2::_mm_load_si128(&__m128i::from(a));
    assert_eq!(a, i64x2::from(r));
}

#[test]
fn _mm_loadu_si128() {
    let a = sse2::_mm_set_epi64x(5, 6);
    let r = sse2::_mm_loadu_si128(&__m128i::from(a));
    assert_eq!(a, i64x2::from(r));
}

#[test]
fn _mm_maskmoveu_si128() {
    let a = i8x16::splat(9);
    let mask = i8x16::splat(0).replace(2, 0x80u8 as i8);
    let mut r = i8x16::splat(0);
    sse2::_mm_maskmoveu_si128(a, mask, &mut r);
    assert_eq!(r, i8x16::splat(0).replace(2, 9));
}

#[test]
fn _mm_store_si128() {
    let a = __m128i::splat(9);
    let mut r = __m128i::splat(0);
    sse2::_mm_store_si128(&mut r, a);
    assert_eq!(r, a);
}

#[test]
fn _mm_storeu_si128() {
    let a = __m128i::splat(9);
    let mut r = __m128i::splat(0);
    sse2::_mm_storeu_si128(&mut r, a);
    assert_eq!(r, a);
}

#[test]
fn _mm_storel_epi64() {
    let a = __m128i::from(i64x2::new(2, 9));
    let mut r = __m128i::splat(0);
    sse2::_mm_storel_epi64(&mut r, a);
    assert_eq!(r, __m128i::from(i64x2::new(2, 0)));
}
