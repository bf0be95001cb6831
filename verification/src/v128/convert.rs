//! Reinterpretation between the lane vectors: the same sixteen bytes, read
//! with another lane type. No bit changes.

use crate::v128::{f32x4, f64x2, i16x8, i32x4, i64x2, i8x16, u16x8, u32x4, u64x2, u8x16};
use vstd::prelude::*;
use vstd::std_specs::convert::FromSpecImpl;

verus! {

impl From<u8x16> for i8x16 {
    /// The vector with the bytes of `v`.
    fn from(v: u8x16) -> (r: i8x16) {
        i8x16::from_bytes(v.to_bytes())
    }
}

impl FromSpecImpl<u8x16> for i8x16 {
    open spec fn obeys_from_spec() -> bool {
        true
    }

    open spec fn from_spec(v: u8x16) -> i8x16 {
        i8x16::from_bytes_spec(v.bytes())
    }
}

impl From<i16x8> for i8x16 {
    /// The vector with the bytes of `v`.
    fn from(v: i16x8) -> (r: i8x16) {
        i8x16::from_bytes(v.to_bytes())
    }
}

impl FromSpecImpl<i16x8> for i8x16 {
    open spec fn obeys_from_spec() -> bool {
        true
    }

    open spec fn from_spec(v: i16x8) -> i8x16 {
        i8x16::from_bytes_spec(v.bytes())
    }
}

impl From<u16x8> for i8x16 {
    /// The vector with the bytes of `v`.
    fn from(v: u16x8) -> (r: i8x16) {
        i8x16::from_bytes(v.to_bytes())
    }
}

impl FromSpecImpl<u16x8> for i8x16 {
    open spec fn obeys_from_spec() -> bool {
        true
    }

    open spec fn from_spec(v: u16x8) -> i8x16 {
        i8x16::from_bytes_spec(v.bytes())
    }
}

impl From<i32x4> for i8x16 {
    /// The vector with the bytes of `v`.
    fn from(v: i32x4) -> (r: i8x16) {
        i8x16::from_bytes(v.to_bytes())
    }
}

impl FromSpecImpl<i32x4> for i8x16 {
    open spec fn obeys_from_spec() -> bool {
        true
    }

    open spec fn from_spec(v: i32x4) -> i8x16 {
        i8x16::from_bytes_spec(v.bytes())
    }
}

impl From<u32x4> for i8x16 {
    /// The vector with the bytes of `v`.
    fn from(v: u32x4) -> (r: i8x16) {
        i8x16::from_bytes(v.to_bytes())
    }
}

impl FromSpecImpl<u32x4> for i8x16 {
    open spec fn obeys_from_spec() -> bool {
        true
    }

    open spec fn from_spec(v: u32x4) -> i8x16 {
        i8x16::from_bytes_spec(v.bytes())
    }
}

impl From<i64x2> for i8x16 {
    /// The vector with the bytes of `v`.
    fn from(v: i64x2) -> (r: i8x16) {
        i8x16::from_bytes(v.to_bytes())
    }
}

impl FromSpecImpl<i64x2> for i8x16 {
    open spec fn obeys_from_spec() -> bool {
        true
    }

    open spec fn from_spec(v: i64x2) -> i8x16 {
        i8x16::from_bytes_spec(v.bytes())
    }
}

impl From<u64x2> for i8x16 {
    /// The vector with the bytes of `v`.
    fn from(v: u64x2) -> (r: i8x16) {
        i8x16::from_bytes(v.to_bytes())
    }
}

impl FromSpecImpl<u64x2> for i8x16 {
    open spec fn obeys_from_spec() -> bool {
        true
    }

    open spec fn from_spec(v: u64x2) -> i8x16 {
        i8x16::from_bytes_spec(v.bytes())
    }
}

impl From<f32x4> for i8x16 {
    /// The vector with the bytes of `v`.
    fn from(v: f32x4) -> (r: i8x16) {
        i8x16::from_bytes(v.to_bytes())
    }
}

impl FromSpecImpl<f32x4> for i8x16 {
    open spec fn obeys_from_spec() -> bool {
        true
    }

    open spec fn from_spec(v: f32x4) -> i8x16 {
        i8x16::from_bytes_spec(v.bytes())
    }
}

impl From<f64x2> for i8x16 {
    /// The vector with the bytes of `v`.
    fn from(v: f64x2) -> (r: i8x16) {
        i8x16::from_bytes(v.to_bytes())
    }
}

impl FromSpecImpl<f64x2> for i8x16 {
    open spec fn obeys_from_spec() -> bool {
        true
    }

    open spec fn from_spec(v: f64x2) -> i8x16 {
        i8x16::from_bytes_spec(v.bytes())
    }
}

impl From<i8x16> for u8x16 {
    /// The vector with the bytes of `v`.
    fn from(v: i8x16) -> (r: u8x16) {
        u8x16::from_bytes(v.to_bytes())
    }
}

impl FromSpecImpl<i8x16> for u8x16 {
    open spec fn obeys_from_spec() -> bool {
        true
    }

    open spec fn from_spec(v: i8x16) -> u8x16 {
        u8x16::from_bytes_spec(v.bytes())
    }
}

impl From<i16x8> for u8x16 {
    /// The vector with the bytes of `v`.
    fn from(v: i16x8) -> (r: u8x16) {
        u8x16::from_bytes(v.to_bytes())
    }
}

impl FromSpecImpl<i16x8> for u8x16 {
    open spec fn obeys_from_spec() -> bool {
        true
    }

    open spec fn from_spec(v: i16x8) -> u8x16 {
        u8x16::from_bytes_spec(v.bytes())
    }
}

impl From<u16x8> for u8x16 {
    /// The vector with the bytes of `v`.
    fn from(v: u16x8) -> (r: u8x16) {
        u8x16::from_bytes(v.to_bytes())
    }
}

impl FromSpecImpl<u16x8> for u8x16 {
    open spec fn obeys_from_spec() -> bool {
        true
    }

    open spec fn from_spec(v: u16x8) -> u8x16 {
        u8x16::from_bytes_spec(v.bytes())
    }
}

impl From<i32x4> for u8x16 {
    /// The vector with the bytes of `v`.
    fn from(v: i32x4) -> (r: u8x16) {
        u8x16::from_bytes(v.to_bytes())
    }
}

impl FromSpecImpl<i32x4> for u8x16 {
    open spec fn obeys_from_spec() -> bool {
        true
    }

    open spec fn from_spec(v: i32x4) -> u8x16 {
        u8x16::from_bytes_spec(v.bytes())
    }
}

impl From<u32x4> for u8x16 {
    /// The vector with the bytes of `v`.
    fn from(v: u32x4) -> (r: u8x16) {
        u8x16::from_bytes(v.to_bytes())
    }
}

impl FromSpecImpl<u32x4> for u8x16 {
    open spec fn obeys_from_spec() -> bool {
        true
    }

    open spec fn from_spec(v: u32x4) -> u8x16 {
        u8x16::from_bytes_spec(v.bytes())
    }
}

impl From<i64x2> for u8x16 {
    /// The vector with the bytes of `v`.
    fn from(v: i64x2) -> (r: u8x16) {
        u8x16::from_bytes(v.to_bytes())
    }
}

impl FromSpecImpl<i64x2> for u8x16 {
    open spec fn obeys_from_spec() -> bool {
        true
    }

    open spec fn from_spec(v: i64x2) -> u8x16 {
        u8x16::from_bytes_spec(v.bytes())
    }
}

impl From<u64x2> for u8x16 {
    /// The vector with the bytes of `v`.
    fn from(v: u64x2) -> (r: u8x16) {
        u8x16::from_bytes(v.to_bytes())
    }
}

impl FromSpecImpl<u64x2> for u8x16 {
    open spec fn obeys_from_spec() -> bool {
        true
    }

    open spec fn from_spec(v: u64x2) -> u8x16 {
        u8x16::from_bytes_spec(v.bytes())
    }
}

impl From<f32x4> for u8x16 {
    /// The vector with the bytes of `v`.
    fn from(v: f32x4) -> (r: u8x16) {
        u8x16::from_bytes(v.to_bytes())
    }
}

impl FromSpecImpl<f32x4> for u8x16 {
    open spec fn obeys_from_spec() -> bool {
        true
    }

    open spec fn from_spec(v: f32x4) -> u8x16 {
        u8x16::from_bytes_spec(v.bytes())
    }
}

impl From<f64x2> for u8x16 {
    /// The vector with the bytes of `v`.
    fn from(v: f64x2) -> (r: u8x16) {
        u8x16::from_bytes(v.to_bytes())
    }
}

impl FromSpecImpl<f64x2> for u8x16 {
    open spec fn obeys_from_spec() -> bool {
        true
    }

    open spec fn from_spec(v: f64x2) -> u8x16 {
        u8x16::from_bytes_spec(v.bytes())
    }
}

impl From<i8x16> for i16x8 {
    /// The vector with the bytes of `v`.
    fn from(v: i8x16) -> (r: i16x8) {
        i16x8::from_bytes(v.to_bytes())
    }
}

impl FromSpecImpl<i8x16> for i16x8 {
    open spec fn obeys_from_spec() -> bool {
        true
    }

    open spec fn from_spec(v: i8x16) -> i16x8 {
        i16x8::from_bytes_spec(v.bytes())
    }
}

impl From<u8x16> for i16x8 {
    /// The vector with the bytes of `v`.
    fn from(v: u8x16) -> (r: i16x8) {
        i16x8::from_bytes(v.to_bytes())
    }
}

impl FromSpecImpl<u8x16> for i16x8 {
    open spec fn obeys_from_spec() -> bool {
        true
    }

    open spec fn from_spec(v: u8x16) -> i16x8 {
        i16x8::from_bytes_spec(v.bytes())
    }
}

impl From<u16x8> for i16x8 {
    /// The vector with the bytes of `v`.
    fn from(v: u16x8) -> (r: i16x8) {
        i16x8::from_bytes(v.to_bytes())
    }
}

impl FromSpecImpl<u16x8> for i16x8 {
    open spec fn obeys_from_spec() -> bool {
        true
    }

    open spec fn from_spec(v: u16x8) -> i16x8 {
        i16x8::from_bytes_spec(v.bytes())
    }
}

impl From<i32x4> for i16x8 {
    /// The vector with the bytes of `v`.
    fn from(v: i32x4) -> (r: i16x8) {
        i16x8::from_bytes(v.to_bytes())
    }
}

impl FromSpecImpl<i32x4> for i16x8 {
    open spec fn obeys_from_spec() -> bool {
        true
    }

    open spec fn from_spec(v: i32x4) -> i16x8 {
        i16x8::from_bytes_spec(v.bytes())
    }
}

impl From<u32x4> for i16x8 {
    /// The vector with the bytes of `v`.
    fn from(v: u32x4) -> (r: i16x8) {
        i16x8::from_bytes(v.to_bytes())
    }
}

impl FromSpecImpl<u32x4> for i16x8 {
    open spec fn obeys_from_spec() -> bool {
        true
    }

    open spec fn from_spec(v: u32x4) -> i16x8 {
        i16x8::from_bytes_spec(v.bytes())
    }
}

impl From<i64x2> for i16x8 {
    /// The vector with the bytes of `v`.
    fn from(v: i64x2) -> (r: i16x8) {
        i16x8::from_bytes(v.to_bytes())
    }
}

impl FromSpecImpl<i64x2> for i16x8 {
    open spec fn obeys_from_spec() -> bool {
        true
    }

    open spec fn from_spec(v: i64x2) -> i16x8 {
        i16x8::from_bytes_spec(v.bytes())
    }
}

impl From<u64x2> for i16x8 {
    /// The vector with the bytes of `v`.
    fn from(v: u64x2) -> (r: i16x8) {
        i16x8::from_bytes(v.to_bytes())
    }
}

impl FromSpecImpl<u64x2> for i16x8 {
    open spec fn obeys_from_spec() -> bool {
        true
    }

    open spec fn from_spec(v: u64x2) -> i16x8 {
        i16x8::from_bytes_spec(v.bytes())
    }
}

impl From<f32x4> for i16x8 {
    /// The vector with the bytes of `v`.
    fn from(v: f32x4) -> (r: i16x8) {
        i16x8::from_bytes(v.to_bytes())
    }
}

impl FromSpecImpl<f32x4> for i16x8 {
    open spec fn obeys_from_spec() -> bool {
        true
    }

    open spec fn from_spec(v: f32x4) -> i16x8 {
        i16x8::from_bytes_spec(v.bytes())
    }
}

impl From<f64x2> for i16x8 {
    /// The vector with the bytes of `v`.
    fn from(v: f64x2) -> (r: i16x8) {
        i16x8::from_bytes(v.to_bytes())
    }
}

impl FromSpecImpl<f64x2> for i16x8 {
    open spec fn obeys_from_spec() -> bool {
        true
    }

    open spec fn from_spec(v: f64x2) -> i16x8 {
        i16x8::from_bytes_spec(v.bytes())
    }
}

impl From<i8x16> for u16x8 {
    /// The vector with the bytes of `v`.
    fn from(v: i8x16) -> (r: u16x8) {
        u16x8::from_bytes(v.to_bytes())
    }
}

impl FromSpecImpl<i8x16> for u16x8 {
    open spec fn obeys_from_spec() -> bool {
        true
    }

    open spec fn from_spec(v: i8x16) -> u16x8 {
        u16x8::from_bytes_spec(v.bytes())
    }
}

impl From<u8x16> for u16x8 {
    /// The vector with the bytes of `v`.
    fn from(v: u8x16) -> (r: u16x8) {
        u16x8::from_bytes(v.to_bytes())
    }
}

impl FromSpecImpl<u8x16> for u16x8 {
    open spec fn obeys_from_spec() -> bool {
        true
    }

    open spec fn from_spec(v: u8x16) -> u16x8 {
        u16x8::from_bytes_spec(v.bytes())
    }
}

impl From<i16x8> for u16x8 {
    /// The vector with the bytes of `v`.
    fn from(v: i16x8) -> (r: u16x8) {
        u16x8::from_bytes(v.to_bytes())
    }
}

impl FromSpecImpl<i16x8> for u16x8 {
    open spec fn obeys_from_spec() -> bool {
        true
    }

    open spec fn from_spec(v: i16x8) -> u16x8 {
        u16x8::from_bytes_spec(v.bytes())
    }
}

impl From<i32x4> for u16x8 {
    /// The vector with the bytes of `v`.
    fn from(v: i32x4) -> (r: u16x8) {
        u16x8::from_bytes(v.to_bytes())
    }
}

impl FromSpecImpl<i32x4> for u16x8 {
    open spec fn obeys_from_spec() -> bool {
        true
    }

    open spec fn from_spec(v: i32x4) -> u16x8 {
        u16x8::from_bytes_spec(v.bytes())
    }
}

impl From<u32x4> for u16x8 {
    /// The vector with the bytes of `v`.
    fn from(v: u32x4) -> (r: u16x8) {
        u16x8::from_bytes(v.to_bytes())
    }
}

impl FromSpecImpl<u32x4> for u16x8 {
    open spec fn obeys_from_spec() -> bool {
        true
    }

    open spec fn from_spec(v: u32x4) -> u16x8 {
        u16x8::from_bytes_spec(v.bytes())
    }
}

impl From<i64x2> for u16x8 {
    /// The vector with the bytes of `v`.
    fn from(v: i64x2) -> (r: u16x8) {
        u16x8::from_bytes(v.to_bytes())
    }
}

impl FromSpecImpl<i64x2> for u16x8 {
    open spec fn obeys_from_spec() -> bool {
        true
    }

    open spec fn from_spec(v: i64x2) -> u16x8 {
        u16x8::from_bytes_spec(v.bytes())
    }
}

impl From<u64x2> for u16x8 {
    /// The vector with the bytes of `v`.
    fn from(v: u64x2) -> (r: u16x8) {
        u16x8::from_bytes(v.to_bytes())
    }
}

impl FromSpecImpl<u64x2> for u16x8 {
    open spec fn obeys_from_spec() -> bool {
        true
    }

    open spec fn from_spec(v: u64x2) -> u16x8 {
        u16x8::from_bytes_spec(v.bytes())
    }
}

impl From<f32x4> for u16x8 {
    /// The vector with the bytes of `v`.
    fn from(v: f32x4) -> (r: u16x8) {
        u16x8::from_bytes(v.to_bytes())
    }
}

impl FromSpecImpl<f32x4> for u16x8 {
    open spec fn obeys_from_spec() -> bool {
        true
    }

    open spec fn from_spec(v: f32x4) -> u16x8 {
        u16x8::from_bytes_spec(v.bytes())
    }
}

impl From<f64x2> for u16x8 {
    /// The vector with the bytes of `v`.
    fn from(v: f64x2) -> (r: u16x8) {
        u16x8::from_bytes(v.to_bytes())
    }
}

impl FromSpecImpl<f64x2> for u16x8 {
    open spec fn obeys_from_spec() -> bool {
        true
    }

    open spec fn from_spec(v: f64x2) -> u16x8 {
        u16x8::from_bytes_spec(v.bytes())
    }
}

impl From<i8x16> for i32x4 {
    /// The vector with the bytes of `v`.
    fn from(v: i8x16) -> (r: i32x4) {
        i32x4::from_bytes(v.to_bytes())
    }
}

impl FromSpecImpl<i8x16> for i32x4 {
    open spec fn obeys_from_spec() -> bool {
        true
    }

    open spec fn from_spec(v: i8x16) -> i32x4 {
        i32x4::from_bytes_spec(v.bytes())
    }
}

impl From<u8x16> for i32x4 {
    /// The vector with the bytes of `v`.
    fn from(v: u8x16) -> (r: i32x4) {
        i32x4::from_bytes(v.to_bytes())
    }
}

impl FromSpecImpl<u8x16> for i32x4 {
    open spec fn obeys_from_spec() -> bool {
        true
    }

    open spec fn from_spec(v: u8x16) -> i32x4 {
        i32x4::from_bytes_spec(v.bytes())
    }
}

impl From<i16x8> for i32x4 {
    /// The vector with the bytes of `v`.
    fn from(v: i16x8) -> (r: i32x4) {
        i32x4::from_bytes(v.to_bytes())
    }
}

impl FromSpecImpl<i16x8> for i32x4 {
    open spec fn obeys_from_spec() -> bool {
        true
    }

    open spec fn from_spec(v: i16x8) -> i32x4 {
        i32x4::from_bytes_spec(v.bytes())
    }
}

impl From<u16x8> for i32x4 {
    /// The vector with the bytes of `v`.
    fn from(v: u16x8) -> (r: i32x4) {
        i32x4::from_bytes(v.to_bytes())
    }
}

impl FromSpecImpl<u16x8> for i32x4 {
    open spec fn obeys_from_spec() -> bool {
        true
    }

    open spec fn from_spec(v: u16x8) -> i32x4 {
        i32x4::from_bytes_spec(v.bytes())
    }
}

impl From<u32x4> for i32x4 {
    /// The vector with the bytes of `v`.
    fn from(v: u32x4) -> (r: i32x4) {
        i32x4::from_bytes(v.to_bytes())
    }
}

impl FromSpecImpl<u32x4> for i32x4 {
    open spec fn obeys_from_spec() -> bool {
        true
    }

    open spec fn from_spec(v: u32x4) -> i32x4 {
        i32x4::from_bytes_spec(v.bytes())
    }
}

impl From<i64x2> for i32x4 {
    /// The vector with the bytes of `v`.
    fn from(v: i64x2) -> (r: i32x4) {
        i32x4::from_bytes(v.to_bytes())
    }
}

impl FromSpecImpl<i64x2> for i32x4 {
    open spec fn obeys_from_spec() -> bool {
        true
    }

    open spec fn from_spec(v: i64x2) -> i32x4 {
        i32x4::from_bytes_spec(v.bytes())
    }
}

impl From<u64x2> for i32x4 {
    /// The vector with the bytes of `v`.
    fn from(v: u64x2) -> (r: i32x4) {
        i32x4::from_bytes(v.to_bytes())
    }
}

impl FromSpecImpl<u64x2> for i32x4 {
    open spec fn obeys_from_spec() -> bool {
        true
    }

    open spec fn from_spec(v: u64x2) -> i32x4 {
        i32x4::from_bytes_spec(v.bytes())
    }
}

impl From<f32x4> for i32x4 {
    /// The vector with the bytes of `v`.
    fn from(v: f32x4) -> (r: i32x4) {
        i32x4::from_bytes(v.to_bytes())
    }
}

impl FromSpecImpl<f32x4> for i32x4 {
    open spec fn obeys_from_spec() -> bool {
        true
    }

    open spec fn from_spec(v: f32x4) -> i32x4 {
        i32x4::from_bytes_spec(v.bytes())
    }
}

impl From<f64x2> for i32x4 {
    /// The vector with the bytes of `v`.
    fn from(v: f64x2) -> (r: i32x4) {
        i32x4::from_bytes(v.to_bytes())
    }
}

impl FromSpecImpl<f64x2> for i32x4 {
    open spec fn obeys_from_spec() -> bool {
        true
    }

    open spec fn from_spec(v: f64x2) -> i32x4 {
        i32x4::from_bytes_spec(v.bytes())
    }
}

impl From<i8x16> for u32x4 {
    /// The vector with the bytes of `v`.
    fn from(v: i8x16) -> (r: u32x4) {
        u32x4::from_bytes(v.to_bytes())
    }
}

impl FromSpecImpl<i8x16> for u32x4 {
    open spec fn obeys_from_spec() -> bool {
        true
    }

    open spec fn from_spec(v: i8x16) -> u32x4 {
        u32x4::from_bytes_spec(v.bytes())
    }
}

impl From<u8x16> for u32x4 {
    /// The vector with the bytes of `v`.
    fn from(v: u8x16) -> (r: u32x4) {
        u32x4::from_bytes(v.to_bytes())
    }
}

impl FromSpecImpl<u8x16> for u32x4 {
    open spec fn obeys_from_spec() -> bool {
        true
    }

    open spec fn from_spec(v: u8x16) -> u32x4 {
        u32x4::from_bytes_spec(v.bytes())
    }
}

impl From<i16x8> for u32x4 {
    /// The vector with the bytes of `v`.
    fn from(v: i16x8) -> (r: u32x4) {
        u32x4::from_bytes(v.to_bytes())
    }
}

impl FromSpecImpl<i16x8> for u32x4 {
    open spec fn obeys_from_spec() -> bool {
        true
    }

    open spec fn from_spec(v: i16x8) -> u32x4 {
        u32x4::from_bytes_spec(v.bytes())
    }
}

impl From<u16x8> for u32x4 {
    /// The vector with the bytes of `v`.
    fn from(v: u16x8) -> (r: u32x4) {
        u32x4::from_bytes(v.to_bytes())
    }
}

impl FromSpecImpl<u16x8> for u32x4 {
    open spec fn obeys_from_spec() -> bool {
        true
    }

    open spec fn from_spec(v: u16x8) -> u32x4 {
        u32x4::from_bytes_spec(v.bytes())
    }
}

impl From<i32x4> for u32x4 {
    /// The vector with the bytes of `v`.
    fn from(v: i32x4) -> (r: u32x4) {
        u32x4::from_bytes(v.to_bytes())
    }
}

impl FromSpecImpl<i32x4> for u32x4 {
    open spec fn obeys_from_spec() -> bool {
        true
    }

    open spec fn from_spec(v: i32x4) -> u32x4 {
        u32x4::from_bytes_spec(v.bytes())
    }
}

impl From<i64x2> for u32x4 {
    /// The vector with the bytes of `v`.
    fn from(v: i64x2) -> (r: u32x4) {
        u32x4::from_bytes(v.to_bytes())
    }
}

impl FromSpecImpl<i64x2> for u32x4 {
    open spec fn obeys_from_spec() -> bool {
        true
    }

    open spec fn from_spec(v: i64x2) -> u32x4 {
        u32x4::from_bytes_spec(v.bytes())
    }
}

impl From<u64x2> for u32x4 {
    /// The vector with the bytes of `v`.
    fn from(v: u64x2) -> (r: u32x4) {
        u32x4::from_bytes(v.to_bytes())
    }
}

impl FromSpecImpl<u64x2> for u32x4 {
    open spec fn obeys_from_spec() -> bool {
        true
    }

    open spec fn from_spec(v: u64x2) -> u32x4 {
        u32x4::from_bytes_spec(v.bytes())
    }
}

impl From<f32x4> for u32x4 {
    /// The vector with the bytes of `v`.
    fn from(v: f32x4) -> (r: u32x4) {
        u32x4::from_bytes(v.to_bytes())
    }
}

impl FromSpecImpl<f32x4> for u32x4 {
    open spec fn obeys_from_spec() -> bool {
        true
    }

    open spec fn from_spec(v: f32x4) -> u32x4 {
        u32x4::from_bytes_spec(v.bytes())
    }
}

impl From<f64x2> for u32x4 {
    /// The vector with the bytes of `v`.
    fn from(v: f64x2) -> (r: u32x4) {
        u32x4::from_bytes(v.to_bytes())
    }
}

impl FromSpecImpl<f64x2> for u32x4 {
    open spec fn obeys_from_spec() -> bool {
        true
    }

    open spec fn from_spec(v: f64x2) -> u32x4 {
        u32x4::from_bytes_spec(v.bytes())
    }
}

impl From<i8x16> for i64x2 {
    /// The vector with the bytes of `v`.
    fn from(v: i8x16) -> (r: i64x2) {
        i64x2::from_bytes(v.to_bytes())
    }
}

impl FromSpecImpl<i8x16> for i64x2 {
    open spec fn obeys_from_spec() -> bool {
        true
    }

    open spec fn from_spec(v: i8x16) -> i64x2 {
        i64x2::from_bytes_spec(v.bytes())
    }
}

impl From<u8x16> for i64x2 {
    /// The vector with the bytes of `v`.
    fn from(v: u8x16) -> (r: i64x2) {
        i64x2::from_bytes(v.to_bytes())
    }
}

impl FromSpecImpl<u8x16> for i64x2 {
    open spec fn obeys_from_spec() -> bool {
        true
    }

    open spec fn from_spec(v: u8x16) -> i64x2 {
        i64x2::from_bytes_spec(v.bytes())
    }
}

impl From<i16x8> for i64x2 {
    /// The vector with the bytes of `v`.
    fn from(v: i16x8) -> (r: i64x2) {
        i64x2::from_bytes(v.to_bytes())
    }
}

impl FromSpecImpl<i16x8> for i64x2 {
    open spec fn obeys_from_spec() -> bool {
        true
    }

    open spec fn from_spec(v: i16x8) -> i64x2 {
        i64x2::from_bytes_spec(v.bytes())
    }
}

impl From<u16x8> for i64x2 {
    /// The vector with the bytes of `v`.
    fn from(v: u16x8) -> (r: i64x2) {
        i64x2::from_bytes(v.to_bytes())
    }
}

impl FromSpecImpl<u16x8> for i64x2 {
    open spec fn obeys_from_spec() -> bool {
        true
    }

    open spec fn from_spec(v: u16x8) -> i64x2 {
        i64x2::from_bytes_spec(v.bytes())
    }
}

impl From<i32x4> for i64x2 {
    /// The vector with the bytes of `v`.
    fn from(v: i32x4) -> (r: i64x2) {
        i64x2::from_bytes(v.to_bytes())
    }
}

impl FromSpecImpl<i32x4> for i64x2 {
    open spec fn obeys_from_spec() -> bool {
        true
    }

    open spec fn from_spec(v: i32x4) -> i64x2 {
        i64x2::from_bytes_spec(v.bytes())
    }
}

impl From<u32x4> for i64x2 {
    /// The vector with the bytes of `v`.
    fn from(v: u32x4) -> (r: i64x2) {
        i64x2::from_bytes(v.to_bytes())
    }
}

impl FromSpecImpl<u32x4> for i64x2 {
    open spec fn obeys_from_spec() -> bool {
        true
    }

    open spec fn from_spec(v: u32x4) -> i64x2 {
        i64x2::from_bytes_spec(v.bytes())
    }
}

impl From<u64x2> for i64x2 {
    /// The vector with the bytes of `v`.
    fn from(v: u64x2) -> (r: i64x2) {
        i64x2::from_bytes(v.to_bytes())
    }
}

impl FromSpecImpl<u64x2> for i64x2 {
    open spec fn obeys_from_spec() -> bool {
        true
    }

    open spec fn from_spec(v: u64x2) -> i64x2 {
        i64x2::from_bytes_spec(v.bytes())
    }
}

impl From<f32x4> for i64x2 {
    /// The vector with the bytes of `v`.
    fn from(v: f32x4) -> (r: i64x2) {
        i64x2::from_bytes(v.to_bytes())
    }
}

impl FromSpecImpl<f32x4> for i64x2 {
    open spec fn obeys_from_spec() -> bool {
        true
    }

    open spec fn from_spec(v: f32x4) -> i64x2 {
        i64x2::from_bytes_spec(v.bytes())
    }
}

impl From<f64x2> for i64x2 {
    /// The vector with the bytes of `v`.
    fn from(v: f64x2) -> (r: i64x2) {
        i64x2::from_bytes(v.to_bytes())
    }
}

impl FromSpecImpl<f64x2> for i64x2 {
    open spec fn obeys_from_spec() -> bool {
        true
    }

    open spec fn from_spec(v: f64x2) -> i64x2 {
        i64x2::from_bytes_spec(v.bytes())
    }
}

impl From<i8x16> for u64x2 {
    /// The vector with the bytes of `v`.
    fn from(v: i8x16) -> (r: u64x2) {
        u64x2::from_bytes(v.to_bytes())
    }
}

impl FromSpecImpl<i8x16> for u64x2 {
    open spec fn obeys_from_spec() -> bool {
        true
    }

    open spec fn from_spec(v: i8x16) -> u64x2 {
        u64x2::from_bytes_spec(v.bytes())
    }
}

impl From<u8x16> for u64x2 {
    /// The vector with the bytes of `v`.
    fn from(v: u8x16) -> (r: u64x2) {
        u64x2::from_bytes(v.to_bytes())
    }
}

impl FromSpecImpl<u8x16> for u64x2 {
    open spec fn obeys_from_spec() -> bool {
        true
    }

    open spec fn from_spec(v: u8x16) -> u64x2 {
        u64x2::from_bytes_spec(v.bytes())
    }
}

impl From<i16x8> for u64x2 {
    /// The vector with the bytes of `v`.
    fn from(v: i16x8) -> (r: u64x2) {
        u64x2::from_bytes(v.to_bytes())
    }
}

impl FromSpecImpl<i16x8> for u64x2 {
    open spec fn obeys_from_spec() -> bool {
        true
    }

    open spec fn from_spec(v: i16x8) -> u64x2 {
        u64x2::from_bytes_spec(v.bytes())
    }
}

impl From<u16x8> for u64x2 {
    /// The vector with the bytes of `v`.
    fn from(v: u16x8) -> (r: u64x2) {
        u64x2::from_bytes(v.to_bytes())
    }
}

impl FromSpecImpl<u16x8> for u64x2 {
    open spec fn obeys_from_spec() -> bool {
        true
    }

    open spec fn from_spec(v: u16x8) -> u64x2 {
        u64x2::from_bytes_spec(v.bytes())
    }
}

impl From<i32x4> for u64x2 {
    /// The vector with the bytes of `v`.
    fn from(v: i32x4) -> (r: u64x2) {
        u64x2::from_bytes(v.to_bytes())
    }
}

impl FromSpecImpl<i32x4> for u64x2 {
    open spec fn obeys_from_spec() -> bool {
        true
    }

    open spec fn from_spec(v: i32x4) -> u64x2 {
        u64x2::from_bytes_spec(v.bytes())
    }
}

impl From<u32x4> for u64x2 {
    /// The vector with the bytes of `v`.
    fn from(v: u32x4) -> (r: u64x2) {
        u64x2::from_bytes(v.to_bytes())
    }
}

impl FromSpecImpl<u32x4> for u64x2 {
    open spec fn obeys_from_spec() -> bool {
        true
    }

    open spec fn from_spec(v: u32x4) -> u64x2 {
        u64x2::from_bytes_spec(v.bytes())
    }
}

impl From<i64x2> for u64x2 {
    /// The vector with the bytes of `v`.
    fn from(v: i64x2) -> (r: u64x2) {
        u64x2::from_bytes(v.to_bytes())
    }
}

impl FromSpecImpl<i64x2> for u64x2 {
    open spec fn obeys_from_spec() -> bool {
        true
    }

    open spec fn from_spec(v: i64x2) -> u64x2 {
        u64x2::from_bytes_spec(v.bytes())
    }
}

impl From<f32x4> for u64x2 {
    /// The vector with the bytes of `v`.
    fn from(v: f32x4) -> (r: u64x2) {
        u64x2::from_bytes(v.to_bytes())
    }
}

impl FromSpecImpl<f32x4> for u64x2 {
    open spec fn obeys_from_spec() -> bool {
        true
    }

    open spec fn from_spec(v: f32x4) -> u64x2 {
        u64x2::from_bytes_spec(v.bytes())
    }
}

impl From<f64x2> for u64x2 {
    /// The vector with the bytes of `v`.
    fn from(v: f64x2) -> (r: u64x2) {
        u64x2::from_bytes(v.to_bytes())
    }
}

impl FromSpecImpl<f64x2> for u64x2 {
    open spec fn obeys_from_spec() -> bool {
        true
    }

    open spec fn from_spec(v: f64x2) -> u64x2 {
        u64x2::from_bytes_spec(v.bytes())
    }
}

impl From<i8x16> for f32x4 {
    /// The vector with the bytes of `v`.
    fn from(v: i8x16) -> (r: f32x4) {
        f32x4::from_bytes(v.to_bytes())
    }
}

impl FromSpecImpl<i8x16> for f32x4 {
    open spec fn obeys_from_spec() -> bool {
        true
    }

    open spec fn from_spec(v: i8x16) -> f32x4 {
        f32x4::from_bytes_spec(v.bytes())
    }
}

impl From<u8x16> for f32x4 {
    /// The vector with the bytes of `v`.
    fn from(v: u8x16) -> (r: f32x4) {
        f32x4::from_bytes(v.to_bytes())
    }
}

impl FromSpecImpl<u8x16> for f32x4 {
    open spec fn obeys_from_spec() -> bool {
        true
    }

    open spec fn from_spec(v: u8x16) -> f32x4 {
        f32x4::from_bytes_spec(v.bytes())
    }
}

impl From<i16x8> for f32x4 {
    /// The vector with the bytes of `v`.
    fn from(v: i16x8) -> (r: f32x4) {
        f32x4::from_bytes(v.to_bytes())
    }
}

impl FromSpecImpl<i16x8> for f32x4 {
    open spec fn obeys_from_spec() -> bool {
        true
    }

    open spec fn from_spec(v: i16x8) -> f32x4 {
        f32x4::from_bytes_spec(v.bytes())
    }
}

impl From<u16x8> for f32x4 {
    /// The vector with the bytes of `v`.
    fn from(v: u16x8) -> (r: f32x4) {
        f32x4::from_bytes(v.to_bytes())
    }
}

impl FromSpecImpl<u16x8> for f32x4 {
    open spec fn obeys_from_spec() -> bool {
        true
    }

    open spec fn from_spec(v: u16x8) -> f32x4 {
        f32x4::from_bytes_spec(v.bytes())
    }
}

impl From<i32x4> for f32x4 {
    /// The vector with the bytes of `v`.
    fn from(v: i32x4) -> (r: f32x4) {
        f32x4::from_bytes(v.to_bytes())
    }
}

impl FromSpecImpl<i32x4> for f32x4 {
    open spec fn obeys_from_spec() -> bool {
        true
    }

    open spec fn from_spec(v: i32x4) -> f32x4 {
        f32x4::from_bytes_spec(v.bytes())
    }
}

impl From<u32x4> for f32x4 {
    /// The vector with the bytes of `v`.
    fn from(v: u32x4) -> (r: f32x4) {
        f32x4::from_bytes(v.to_bytes())
    }
}

impl FromSpecImpl<u32x4> for f32x4 {
    open spec fn obeys_from_spec() -> bool {
        true
    }

    open spec fn from_spec(v: u32x4) -> f32x4 {
        f32x4::from_bytes_spec(v.bytes())
    }
}

impl From<i64x2> for f32x4 {
    /// The vector with the bytes of `v`.
    fn from(v: i64x2) -> (r: f32x4) {
        f32x4::from_bytes(v.to_bytes())
    }
}

impl FromSpecImpl<i64x2> for f32x4 {
    open spec fn obeys_from_spec() -> bool {
        true
    }

    open spec fn from_spec(v: i64x2) -> f32x4 {
        f32x4::from_bytes_spec(v.bytes())
    }
}

impl From<u64x2> for f32x4 {
    /// The vector with the bytes of `v`.
    fn from(v: u64x2) -> (r: f32x4) {
        f32x4::from_bytes(v.to_bytes())
    }
}

impl FromSpecImpl<u64x2> for f32x4 {
    open spec fn obeys_from_spec() -> bool {
        true
    }

    open spec fn from_spec(v: u64x2) -> f32x4 {
        f32x4::from_bytes_spec(v.bytes())
    }
}

impl From<f64x2> for f32x4 {
    /// The vector with the bytes of `v`.
    fn from(v: f64x2) -> (r: f32x4) {
        f32x4::from_bytes(v.to_bytes())
    }
}

impl FromSpecImpl<f64x2> for f32x4 {
    open spec fn obeys_from_spec() -> bool {
        true
    }

    open spec fn from_spec(v: f64x2) -> f32x4 {
        f32x4::from_bytes_spec(v.bytes())
    }
}

impl From<i8x16> for f64x2 {
    /// The vector with the bytes of `v`.
    fn from(v: i8x16) -> (r: f64x2) {
        f64x2::from_bytes(v.to_bytes())
    }
}

impl FromSpecImpl<i8x16> for f64x2 {
    open spec fn obeys_from_spec() -> bool {
        true
    }

    open spec fn from_spec(v: i8x16) -> f64x2 {
        f64x2::from_bytes_spec(v.bytes())
    }
}

impl From<u8x16> for f64x2 {
    /// The vector with the bytes of `v`.
    fn from(v: u8x16) -> (r: f64x2) {
        f64x2::from_bytes(v.to_bytes())
    }
}

impl FromSpecImpl<u8x16> for f64x2 {
    open spec fn obeys_from_spec() -> bool {
        true
    }

    open spec fn from_spec(v: u8x16) -> f64x2 {
        f64x2::from_bytes_spec(v.bytes())
    }
}

impl From<i16x8> for f64x2 {
    /// The vector with the bytes of `v`.
    fn from(v: i16x8) -> (r: f64x2) {
        f64x2::from_bytes(v.to_bytes())
    }
}

impl FromSpecImpl<i16x8> for f64x2 {
    open spec fn obeys_from_spec() -> bool {
        true
    }

    open spec fn from_spec(v: i16x8) -> f64x2 {
        f64x2::from_bytes_spec(v.bytes())
    }
}

impl From<u16x8> for f64x2 {
    /// The vector with the bytes of `v`.
    fn from(v: u16x8) -> (r: f64x2) {
        f64x2::from_bytes(v.to_bytes())
    }
}

impl FromSpecImpl<u16x8> for f64x2 {
    open spec fn obeys_from_spec() -> bool {
        true
    }

    open spec fn from_spec(v: u16x8) -> f64x2 {
        f64x2::from_bytes_spec(v.bytes())
    }
}

impl From<i32x4> for f64x2 {
    /// The vector with the bytes of `v`.
    fn from(v: i32x4) -> (r: f64x2) {
        f64x2::from_bytes(v.to_bytes())
    }
}

impl FromSpecImpl<i32x4> for f64x2 {
    open spec fn obeys_from_spec() -> bool {
        true
    }

    open spec fn from_spec(v: i32x4) -> f64x2 {
        f64x2::from_bytes_spec(v.bytes())
    }
}

impl From<u32x4> for f64x2 {
    /// The vector with the bytes of `v`.
    fn from(v: u32x4) -> (r: f64x2) {
        f64x2::from_bytes(v.to_bytes())
    }
}

impl FromSpecImpl<u32x4> for f64x2 {
    open spec fn obeys_from_spec() -> bool {
        true
    }

    open spec fn from_spec(v: u32x4) -> f64x2 {
        f64x2::from_bytes_spec(v.bytes())
    }
}

impl From<i64x2> for f64x2 {
    /// The vector with the bytes of `v`.
    fn from(v: i64x2) -> (r: f64x2) {
        f64x2::from_bytes(v.to_bytes())
    }
}

impl FromSpecImpl<i64x2> for f64x2 {
    open spec fn obeys_from_spec() -> bool {
        true
    }

    open spec fn from_spec(v: i64x2) -> f64x2 {
        f64x2::from_bytes_spec(v.bytes())
    }
}

impl From<u64x2> for f64x2 {
    /// The vector with the bytes of `v`.
    fn from(v: u64x2) -> (r: f64x2) {
        f64x2::from_bytes(v.to_bytes())
    }
}

impl FromSpecImpl<u64x2> for f64x2 {
    open spec fn obeys_from_spec() -> bool {
        true
    }

    open spec fn from_spec(v: u64x2) -> f64x2 {
        f64x2::from_bytes_spec(v.bytes())
    }
}

impl From<f32x4> for f64x2 {
    /// The vector with the bytes of `v`.
    fn from(v: f32x4) -> (r: f64x2) {
        f64x2::from_bytes(v.to_bytes())
    }
}

impl FromSpecImpl<f32x4> for f64x2 {
    open spec fn obeys_from_spec() -> bool {
        true
    }

    open spec fn from_spec(v: f32x4) -> f64x2 {
        f64x2::from_bytes_spec(v.bytes())
    }
}

} // verus!
