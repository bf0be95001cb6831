//! The vector of four 32-bit floating-point lanes, as far as its bits go.

use crate::v128::x4::u32x4;
use vstd::prelude::*;

verus! {

/// Four lanes of 32-bit floating-point numbers; lane 0 is the lowest. A lane
/// is held as its 32-bit pattern, and nothing here reads it as a number.
#[allow(non_camel_case_types)]
#[derive(Clone, Copy, Debug, PartialEq, Eq)]
pub struct f32x4 {
    pub bits: [u32; 4],
}

impl View for f32x4 {
    type V = Seq<u32>;

    open spec fn view(&self) -> Seq<u32> {
        self.bits@
    }
}

impl f32x4 {
    /// The vector whose lane `i` has the bit pattern `b_i`.
    pub fn new(b0: u32, b1: u32, b2: u32, b3: u32) -> (r: f32x4)
        ensures
            r@ == seq![b0, b1, b2, b3],
    {
        let r = f32x4 { bits: [b0, b1, b2, b3] };
        assert(r@ =~= seq![b0, b1, b2, b3]);
        r
    }

    /// The vector with the bit pattern `x` in every lane.
    pub fn splat(x: u32) -> (r: f32x4)
        ensures
            r@ == Seq::new(4, |i: int| x),
    {
        let r = f32x4 { bits: [x; 4] };
        assert(r@ =~= Seq::new(4, |i: int| x));
        r
    }

    /// The bit pattern of lane `idx`.
    pub fn extract(self, idx: u32) -> (r: u32)
        requires
            idx < 4,
        ensures
            r == self@[idx as int],
    {
        self.bits[idx as usize]
    }

    /// The vector equal to `self` in every lane but `idx`, which holds the
    /// bit pattern `val`.
    pub fn replace(self, idx: u32, val: u32) -> (r: f32x4)
        requires
            idx < 4,
        ensures
            r@ == self@.update(idx as int, val),
    {
        let mut bits = self.bits;
        bits[idx as usize] = val;
        f32x4 { bits }
    }

    /// The sixteen bytes of the vector, lowest first: lane `i` fills bytes
    /// `4 * i` to `4 * i + 3`, low byte first.
    pub open spec fn bytes(&self) -> Seq<u8> {
        (u32x4 { lanes: self.bits }).bytes()
    }

    /// The vector whose sixteen bytes are `b`.
    pub open spec fn from_bytes_spec(b: Seq<u8>) -> f32x4 {
        f32x4 { bits: u32x4::from_bytes_spec(b).lanes }
    }

    /// The sixteen bytes of the vector.
    pub fn to_bytes(self) -> (b: [u8; 16])
        ensures
            b@ == self.bytes(),
    {
        (u32x4 { lanes: self.bits }).to_bytes()
    }

    /// The vector whose sixteen bytes are `b`.
    pub fn from_bytes(b: [u8; 16]) -> (r: f32x4)
        ensures
            r == Self::from_bytes_spec(b@),
    {
        f32x4 { bits: u32x4::from_bytes(b).lanes }
    }

    /// Reading a vector back from its own bytes gives the vector.
    pub proof fn lemma_bytes_roundtrip(self)
        ensures
            Self::from_bytes_spec(self.bytes()) == self,
    {
        (u32x4 { lanes: self.bits }).lemma_bytes_roundtrip();
    }

    /// The bytes of the vector read from `b` are `b`.
    pub proof fn lemma_from_bytes_roundtrip(b: Seq<u8>)
        requires
            b.len() == 16,
        ensures
            Self::from_bytes_spec(b).bytes() == b,
    {
        u32x4::lemma_from_bytes_roundtrip(b);
        let u = u32x4::from_bytes_spec(b);
        assert(u32x4 { lanes: u.lanes } == u);
    }
}

} // verus!
