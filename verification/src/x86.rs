//! The x86 vector operations.

use crate::v128::i8x16;
use vstd::prelude::*;

pub mod sse2;

verus! {

/// 128 bits of integer data, held as sixteen byte lanes.
#[allow(non_camel_case_types)]
pub type __m128i = i8x16;

} // verus!
