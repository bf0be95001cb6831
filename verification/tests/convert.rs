use simd128::v128::{i32x4, i64x2};
use simd128::x86::sse2;

#[test]
fn _mm_cvtsi32_si128() {
    assert_eq!(sse2::_mm_cvtsi32_si128(5), i32x4::new(5, 0, 0, 0));
}

#[test]
fn _mm_cvtsi64_si128() {
    assert_eq!(sse2::_mm_cvtsi64_si128(5), i64x2::new(5, 0));
}

#[test]
fn _mm_cvtsi128_si32() {
    assert_eq!(sse2::_mm_cvtsi128_si32(i32x4::new(5, 0, 0, 0)), 5);
}

#[test]
fn _mm_cvtsi128_si64() {
    assert_eq!(sse2::_mm_cvtsi128_si64(i64x2::new(5, 0)), 5);
}

#[test]
fn _mm_move_epi64() {
    let a = i64x2::new(5, 6);
    assert_eq!(sse2::_mm_move_epi64(a), i64x2::new(5, 0));
}
