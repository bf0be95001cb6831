use simd128::v128::{i16x8, i8x16, u8x16};
use simd128::x86::sse2;

#[test]
fn _mm_extract_epi16() {
    let a = i16x8::new(0, 1, 2, 3, 4, 5, 6, 7);
    assert_eq!(sse2::_mm_extract_epi16(a, 5), 5);
}

#[test]
fn _mm_insert_epi16() {
    let a = i16x8::new(0, 1, 2, 3, 4, 5, 6, 7);
    assert_eq!(sse2::_mm_insert_epi16(a, 9, 0), a.replace(0, 9));
}

#[test]
fn _mm_movemask_epi8() {
    let a = i8x16::from(u8x16::new(
        0b1000_0000, 0b0, 0b1000_0000, 0b01, 0b0101, 0b1111_0000, 0, 0,
        0, 0, 0b1111_0000, 0b0101, 0b01, 0b1000_0000, 0b0, 0b1000_0000));
    assert_eq!(sse2::_mm_movemask_epi8(a), 0b10100100_00100101);
}
