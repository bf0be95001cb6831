//! The 128-bit lane vectors.

pub mod convert;
pub mod double;
pub mod single;
pub mod x16;
pub mod x2;
pub mod x4;
pub mod x8;

pub use self::double::f64x2;
pub use self::single::f32x4;
pub use self::x16::{i8x16, u8x16};
pub use self::x2::{i64x2, u64x2};
pub use self::x4::{i32x4, u32x4};
pub use self::x8::{i16x8, u16x8};
