use simd128::lane;
use simd128::permute;
use simd128::v128::{f32x4, f64x2, i16x8, i32x4, i64x2, i8x16, u16x8, u32x4, u64x2, u8x16};
use simd128::x86::__m128i;

#[test]
fn new_puts_lane_zero_first() {
    let v = i8x16::new(0, 1, 2, 3, 4, 5, 6, 7, 8, 9, 10, 11, 12, 13, 14, 15);
    for i in 0..16u32 {
        assert_eq!(v.extract(i), i as i8);
    }
    assert_eq!(v.lanes, [0, 1, 2, 3, 4, 5, 6, 7, 8, 9, 10, 11, 12, 13, 14, 15]);
    assert_eq!(u8x16::new(0, 1, 2, 3, 4, 5, 6, 7, 8, 9, 10, 11, 12, 13, 14, 255).extract(15), 255);
    assert_eq!(i16x8::new(0, 1, 2, 3, 4, 5, 6, -7).lanes, [0, 1, 2, 3, 4, 5, 6, -7]);
    assert_eq!(u16x8::new(0, 1, 2, 3, 4, 5, 6, 7).lanes, [0, 1, 2, 3, 4, 5, 6, 7]);
    assert_eq!(i32x4::new(0, 1, 2, -3).lanes, [0, 1, 2, -3]);
    assert_eq!(u32x4::new(0, 1, 2, 3).lanes, [0, 1, 2, 3]);
    assert_eq!(i64x2::new(-1, 1).lanes, [-1, 1]);
    assert_eq!(u64x2::new(0, 1).lanes, [0, 1]);
}

#[test]
fn splat_fills_every_lane() {
    assert_eq!(i8x16::splat(-3).lanes, [-3; 16]);
    assert_eq!(u8x16::splat(200).lanes, [200; 16]);
    assert_eq!(i16x8::splat(-300).lanes, [-300; 8]);
    assert_eq!(u16x8::splat(60000).lanes, [60000; 8]);
    assert_eq!(i32x4::splat(i32::MIN).lanes, [i32::MIN; 4]);
    assert_eq!(u32x4::splat(u32::MAX).lanes, [u32::MAX; 4]);
    assert_eq!(i64x2::splat(i64::MIN).lanes, [i64::MIN; 2]);
    assert_eq!(u64x2::splat(u64::MAX).lanes, [u64::MAX; 2]);
}

#[test]
fn replace_changes_one_lane_only() {
    let v = i32x4::new(1, 2, 3, 4);
    assert_eq!(v.replace(0, 9), i32x4::new(9, 2, 3, 4));
    assert_eq!(v.replace(3, 9), i32x4::new(1, 2, 3, 9));
    assert_eq!(v, i32x4::new(1, 2, 3, 4));
    let w = u8x16::splat(0).replace(15, 7);
    for i in 0..15 {
        assert_eq!(w.extract(i), 0);
    }
    assert_eq!(w.extract(15), 7);
    assert_eq!(u64x2::new(1, 2).replace(1, 5).replace(0, 4), u64x2::new(4, 5));
    assert_eq!(i16x8::splat(0).replace(7, -1).extract(7), -1);
}

#[test]
fn floating_point_lanes_are_held_as_bit_patterns() {
    let one = 1.0f64.to_bits();
    let v = f64x2::new(one, (-2.0f64).to_bits());
    assert_eq!(v.extract(0), 0x3FF0_0000_0000_0000);
    assert_eq!(v.extract(1), 0xC000_0000_0000_0000);
    assert_eq!(f64x2::splat(one), f64x2::new(one, one));
    assert_eq!(v.replace(1, one), f64x2::splat(one));
    assert_eq!(v.replace(0, 7).bits, [7, 0xC000_0000_0000_0000]);
    assert_eq!(f64::from_bits(v.extract(1)), -2.0);
    let one = 1.0f32.to_bits();
    let w = f32x4::new(one, (-2.0f32).to_bits(), 0, 0x7FC0_0000);
    assert_eq!(w.extract(0), 0x3F80_0000);
    assert_eq!(w.extract(1), 0xC000_0000);
    assert_eq!(f32x4::splat(one).bits, [one; 4]);
    assert_eq!(w.replace(3, one).replace(2, one).replace(1, one), f32x4::splat(one));
    assert!(f32::from_bits(w.extract(3)).is_nan());
    assert_eq!(w.to_bytes(), [0, 0, 0x80, 0x3F, 0, 0, 0, 0xC0, 0, 0, 0, 0, 0, 0, 0xC0, 0x7F]);
    assert_eq!(f32x4::from_bytes(w.to_bytes()), w);
    assert_eq!(f32x4::from(u32x4::new(1, 2, 3, 4)).bits, [1, 2, 3, 4]);
    assert_eq!(f64x2::from(w).bits, [0xC000_0000_3F80_0000, 0x7FC0_0000_0000_0000]);
    assert_eq!(i32x4::from(f32x4::splat(0x8000_0000)), i32x4::splat(i32::MIN));
}

#[test]
fn the_integer_vector_is_sixteen_byte_lanes() {
    let v: __m128i = i8x16::splat(1);
    assert_eq!(v.lanes.len(), 16);
}

#[test]
fn bytes_are_little_endian() {
    assert_eq!(
        u16x8::new(0x0100, 0x0302, 0x0504, 0x0706, 0x0908, 0x0B0A, 0x0D0C, 0x0F0E).to_bytes(),
        [0, 1, 2, 3, 4, 5, 6, 7, 8, 9, 10, 11, 12, 13, 14, 15]
    );
    assert_eq!(
        u32x4::new(0x03020100, 0x07060504, 0x0B0A0908, 0x0F0E0D0C).to_bytes(),
        [0, 1, 2, 3, 4, 5, 6, 7, 8, 9, 10, 11, 12, 13, 14, 15]
    );
    assert_eq!(
        u64x2::new(0x0706050403020100, 0x0F0E0D0C0B0A0908).to_bytes(),
        [0, 1, 2, 3, 4, 5, 6, 7, 8, 9, 10, 11, 12, 13, 14, 15]
    );
    assert_eq!(i8x16::splat(-1).to_bytes(), [0xFF; 16]);
    assert_eq!(
        i16x8::splat(-2).to_bytes(),
        [0xFE, 0xFF, 0xFE, 0xFF, 0xFE, 0xFF, 0xFE, 0xFF, 0xFE, 0xFF, 0xFE, 0xFF, 0xFE, 0xFF, 0xFE, 0xFF]
    );
    assert_eq!(
        i32x4::splat(-2).to_bytes(),
        [0xFE, 0xFF, 0xFF, 0xFF, 0xFE, 0xFF, 0xFF, 0xFF, 0xFE, 0xFF, 0xFF, 0xFF, 0xFE, 0xFF, 0xFF, 0xFF]
    );
    assert_eq!(i64x2::new(-2, 1).to_bytes(), [0xFE, 255, 255, 255, 255, 255, 255, 255, 1, 0, 0, 0, 0, 0, 0, 0]);
    assert_eq!(f64x2 { bits: [1, 2 << 56] }.to_bytes(), [1, 0, 0, 0, 0, 0, 0, 0, 0, 0, 0, 0, 0, 0, 0, 2]);
}

#[test]
fn from_bytes_reads_what_to_bytes_wrote() {
    let b: [u8; 16] = [0x80, 1, 0xFF, 3, 4, 0x7F, 6, 7, 0xFE, 9, 10, 11, 12, 13, 14, 0x81];
    assert_eq!(i8x16::from_bytes(b).to_bytes(), b);
    assert_eq!(u8x16::from_bytes(b).to_bytes(), b);
    assert_eq!(i16x8::from_bytes(b).to_bytes(), b);
    assert_eq!(u16x8::from_bytes(b).to_bytes(), b);
    assert_eq!(i32x4::from_bytes(b).to_bytes(), b);
    assert_eq!(u32x4::from_bytes(b).to_bytes(), b);
    assert_eq!(i64x2::from_bytes(b).to_bytes(), b);
    assert_eq!(u64x2::from_bytes(b).to_bytes(), b);
    assert_eq!(f64x2::from_bytes(b).to_bytes(), b);
    assert_eq!(i8x16::from_bytes(b).extract(0), -128);
    assert_eq!(u8x16::from_bytes(b).lanes, b);
    assert_eq!(i16x8::from_bytes(b).extract(0), 0x0180);
    assert_eq!(i16x8::from_bytes(b).extract(7), -0x7EF2);
    assert_eq!(u16x8::from_bytes(b).extract(7), 0x810E);
    assert_eq!(i32x4::from_bytes(b).extract(0), 0x03FF0180);
    assert_eq!(i32x4::from_bytes(b).extract(3), -0x7EF1F2F4);
    assert_eq!(u32x4::from_bytes(b).extract(3), 0x810E0D0C);
    assert_eq!(i64x2::from_bytes(b).extract(1), -0x7EF1F2F3F4F5F602);
    assert_eq!(u64x2::from_bytes(b).extract(0), 0x07067F0403FF0180);
    assert_eq!(f64x2::from_bytes(b).bits[1], 0x810E0D0C0B0A09FE);
}

#[test]
fn reinterpretation_keeps_every_bit() {
    let v = i16x8::new(-1, 2, -3, 4, -5, 6, -7, 0x1234);
    assert_eq!(i16x8::from(i8x16::from(v)), v);
    assert_eq!(i16x8::from(u8x16::from(v)), v);
    assert_eq!(i16x8::from(u16x8::from(v)), v);
    assert_eq!(i16x8::from(i32x4::from(v)), v);
    assert_eq!(i16x8::from(u32x4::from(v)), v);
    assert_eq!(i16x8::from(i64x2::from(v)), v);
    assert_eq!(i16x8::from(u64x2::from(v)), v);
    assert_eq!(i16x8::from(f64x2::from(v)), v);
    assert_eq!(u8x16::from(i32x4::from(v)).to_bytes(), v.to_bytes());
    assert_eq!(u64x2::from(i8x16::from(v)).to_bytes(), v.to_bytes());
}

#[test]
fn reinterpretation_splits_and_joins_lanes() {
    assert_eq!(u32x4::from(u64x2::new(1_000_000_000, 1 << 34)), u32x4::new(1_000_000_000, 0, 0, 4));
    assert_eq!(u16x8::from(u32x4::splat(0x0001_FFFE)), u16x8::new(0xFFFE, 1, 0xFFFE, 1, 0xFFFE, 1, 0xFFFE, 1));
    assert_eq!(i8x16::from(u8x16::splat(0x80)), i8x16::splat(-128));
    assert_eq!(u8x16::from(i8x16::splat(-1)), u8x16::splat(255));
    assert_eq!(i16x8::from(u16x8::splat(0x8000)), i16x8::splat(i16::MIN));
    assert_eq!(i32x4::from(u32x4::splat(0xFFFF_FFFF)), i32x4::splat(-1));
    assert_eq!(i64x2::from(u64x2::splat(1 << 63)), i64x2::splat(i64::MIN));
    assert_eq!(u64x2::from(i64x2::splat(-1)), u64x2::splat(u64::MAX));
    assert_eq!(i64x2::from(i32x4::new(-1, 0, 0, -1)), i64x2::new(0xFFFF_FFFF, -0x1_0000_0000));
    assert_eq!(__m128i::from(i64x2::new(2, 9)).lanes, [2, 0, 0, 0, 0, 0, 0, 0, 9, 0, 0, 0, 0, 0, 0, 0]);
    assert_eq!(f64x2::from(u64x2::new(3, 4)).bits, [3, 4]);
    assert_eq!(u64x2::from(f64x2 { bits: [1.0f64.to_bits(), 0] }), u64x2::new(0x3FF0_0000_0000_0000, 0));
    assert_eq!(i32x4::from(i16x8::new(1, 0, -1, -1, 0, 1, 0, -0x8000)), i32x4::new(1, -1, 0x1_0000, i32::MIN));
}

#[test]
fn signed_and_unsigned_readings_of_the_same_bits() {
    assert_eq!(lane::to_unsigned8(-1), 0xFF);
    assert_eq!(lane::to_unsigned8(i8::MIN), 0x80);
    assert_eq!(lane::to_unsigned8(0x7F), 0x7F);
    assert_eq!(lane::to_unsigned16(-2), 0xFFFE);
    assert_eq!(lane::to_unsigned32(i32::MIN), 0x8000_0000);
    assert_eq!(lane::to_unsigned64(-1), u64::MAX);
    assert_eq!(lane::to_signed8(0x80), i8::MIN);
    assert_eq!(lane::to_signed8(0x7F), i8::MAX);
    assert_eq!(lane::to_signed16(0xFFFF), -1);
    assert_eq!(lane::to_signed32(0xFFFF_FFFE), -2);
    assert_eq!(lane::to_signed64(1 << 63), i64::MIN);
    assert_eq!(lane::to_signed64(5), 5);
}

#[test]
fn the_permutation_primitive_picks_from_both_inputs() {
    let a = i32x4::new(10, 11, 12, 13);
    let b = i32x4::new(20, 21, 22, 23);
    assert_eq!(permute::simd_shuffle4(a, b, [0, 1, 2, 3]), a);
    assert_eq!(permute::simd_shuffle4(a, b, [4, 5, 6, 7]), b);
    assert_eq!(permute::simd_shuffle4(a, b, [7, 0, 4, 3]), i32x4::new(23, 10, 20, 13));
    assert_eq!(permute::simd_shuffle4(a, b, [5, 5, 5, 5]), i32x4::splat(21));
    let c = i64x2::new(1, 2);
    let d = i64x2::new(3, 4);
    assert_eq!(permute::simd_shuffle2(c, d, [3, 0]), i64x2::new(4, 1));
    let e = i16x8::new(0, 1, 2, 3, 4, 5, 6, 7);
    let f = i16x8::new(8, 9, 10, 11, 12, 13, 14, 15);
    assert_eq!(permute::simd_shuffle8(e, f, [15, 14, 13, 12, 3, 2, 1, 0]), i16x8::new(15, 14, 13, 12, 3, 2, 1, 0));
    let g = i8x16::new(0, 1, 2, 3, 4, 5, 6, 7, 8, 9, 10, 11, 12, 13, 14, 15);
    let h = i8x16::splat(-1);
    assert_eq!(
        permute::simd_shuffle16(g, h, [31, 30, 15, 14, 13, 12, 11, 10, 9, 8, 7, 6, 5, 4, 16, 0]),
        i8x16::new(-1, -1, 15, 14, 13, 12, 11, 10, 9, 8, 7, 6, 5, 4, -1, 0)
    );
}
