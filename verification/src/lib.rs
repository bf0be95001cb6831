//! Typed 128-bit lane vectors and the SSE2 catalogue of operations on them.
//!
//! A vector is a fixed number of lanes of one type, 128 bits in all, with
//! lane 0 the lowest. Its view is the sequence of its lanes, and the contract
//! of every operation states each lane of the result over the lanes of the
//! arguments. A floating-point lane is held as its bit pattern: the library
//! moves and combines such bits and never reads them as a number.
//!
//! - [`lane`] says what one lane means: the signed and the unsigned number
//!   in the same bits, the bytes of a lane, wrapping and saturation.
//! - [`v128`] holds the vectors: construction, broadcast, a lane read or
//!   replaced, and the reading of the same sixteen bytes as another vector.
//! - [`permute`] is the permutation primitive, which wants its pattern of
//!   lane numbers in full.
//! - [`x86::sse2`] holds the operations. The shuffles and the byte shifts
//!   among them take a selector that is only known when the call is made, and
//!   reduce it to one pattern for the primitive, whatever its value.

pub mod lane;
pub mod permute;
pub mod v128;
pub mod x86;
