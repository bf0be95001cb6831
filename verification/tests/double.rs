use simd128::v128::{f64x2, i64x2};
use simd128::x86::sse2;

#[test]
fn _mm_and_pd() {
    let a = f64x2::from(i64x2::splat(5));
    let b = f64x2::from(i64x2::splat(3));
    let e = f64x2::from(i64x2::splat(1));
    assert_eq!(sse2::_mm_and_pd(a, b), e);
}

#[test]
fn _mm_andnot_pd() {
    let a = f64x2::from(i64x2::splat(5));
    let b = f64x2::from(i64x2::splat(3));
    let e = f64x2::from(i64x2::splat(2));
    assert_eq!(sse2::_mm_andnot_pd(a, b), e);
}

#[test]
fn _mm_or_pd() {
    let a = f64x2::from(i64x2::splat(5));
    let b = f64x2::from(i64x2::splat(3));
    let e = f64x2::from(i64x2::splat(7));
    assert_eq!(sse2::_mm_or_pd(a, b), e);
}

#[test]
fn _mm_xor_pd() {
    let a = f64x2::from(i64x2::splat(5));
    let b = f64x2::from(i64x2::splat(3));
    let e = f64x2::from(i64x2::splat(6));
    assert_eq!(sse2::_mm_xor_pd(a, b), e);
}

#[test]
fn _mm_movemask_pd() {
    let r = sse2::_mm_movemask_pd(f64x2::new((-1.0f64).to_bits(), 5.0f64.to_bits()));
    assert_eq!(r, 0b01);

    let r = sse2::_mm_movemask_pd(f64x2::new((-1.0f64).to_bits(), (-5.0f64).to_bits()));
    assert_eq!(r, 0b11);
}

#[test]
fn movemask_pd_reads_only_the_sign() {
    let r = sse2::_mm_movemask_pd(f64x2::new(0.0f64.to_bits(), (-0.0f64).to_bits()));
    assert_eq!(r, 0b10);
    let r = sse2::_mm_movemask_pd(f64x2::new(f64::NAN.to_bits(), f64::INFINITY.to_bits()));
    assert_eq!(r, 0b00);
}

#[test]
fn load_and_store_pd_copy_both_lanes() {
    let a = f64x2::new(1.5f64.to_bits(), (-2.25f64).to_bits());
    assert_eq!(sse2::_mm_load_pd(&a), a);
    let mut m = f64x2::new(0, 0);
    sse2::_mm_store_pd(&mut m, a);
    assert_eq!(m, a);
    assert_eq!(f64::from_bits(m.bits[1]), -2.25);
}
