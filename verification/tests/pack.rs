use simd128::v128::{i16x8, i32x4, i8x16, u8x16};
use simd128::x86::sse2;

#[test]
fn _mm_packs_epi16() {
    let a = i16x8::new(0x80, -0x81, 0, 0, 0, 0, 0, 0);
    let b = i16x8::new(0, 0, 0, 0, 0, 0, -0x81, 0x80);
    let r = sse2::_mm_packs_epi16(a, b);
    assert_eq!(r, i8x16::new(
        0x7F, -0x80, 0, 0, 0, 0, 0, 0,
        0, 0, 0, 0, 0, 0, -0x80, 0x7F));
}

#[test]
fn _mm_packs_epi32() {
    let a = i32x4::new(0x8000, -0x8001, 0, 0);
    let b = i32x4::new(0, 0, -0x8001, 0x8000);
    let r = sse2::_mm_packs_epi32(a, b);
    assert_eq!(
        r, i16x8::new(0x7FFF, -0x8000, 0, 0, 0, 0, -0x8000, 0x7FFF));
}

#[test]
fn _mm_packus_epi16() {
    let a = i16x8::new(0x100, -1, 0, 0, 0, 0, 0, 0);
    let b = i16x8::new(0, 0, 0, 0, 0, 0, -1, 0x100);
    let r = sse2::_mm_packus_epi16(a, b);
    assert_eq!(r, u8x16::new(
        0xFF, 0, 0, 0, 0, 0, 0, 0,
        0, 0, 0, 0, 0, 0, 0, 0xFF));
}
