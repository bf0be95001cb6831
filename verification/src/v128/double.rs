//! The vector of two 64-bit floating-point lanes, as far as its bits go.

use crate::v128::x2::u64x2;
use vstd::prelude::*;

verus! {

/// Two lanes of 64-bit floating-point numbers; lane 0 is the lowest. A lane
/// is held as its 64-bit pattern, and nothing here reads it as a number.
#[allow(non_camel_case_types)]
#[derive(Clone, Copy, Debug, PartialEq, Eq)]
pub struct f64x2 {
    pub bits: [u64; 2],
}

impl View for f64x2 {
    type V = Seq<u64>;

    open spec fn view(&self) -> Seq<u64> {
        self.bits@
    }
}

impl f64x2 {
    /// The vector whose lane `i` has the bit pattern `b_i`.
    pub fn new(b0: u64, b1: u64) -> (r: f64x2)
        ensures
            r@ == seq![b0, b1],
    {
        let r = f64x2 { bits: [b0, b1] };
        assert(r@ =~= seq![b0, b1]);
        r
    }

    /// The vector with the bit pattern `x` in both lanes.
    pub fn splat(x: u64) -> (r: f64x2)
        ensures
            r@ == Seq::new(2, |i: int| x),
    {
        let r = f64x2 { bits: [x; 2] };
        assert(r@ =~= Seq::new(2, |i: int| x));
        r
    }

    /// The bit pattern of lane `idx`.
    pub fn extract(self, idx: u32) -> (r: u64)
        requires
            idx < 2,
        ensures
            r == self@[idx as int],
    {
        self.bits[idx as usize]
    }

    /// The vector equal to `self` in every lane but `idx`, which holds the
    /// bit pattern `val`.
    pub fn replace(self, idx: u32, val: u64) -> (r: f64x2)
        requires
            idx < 2,
        ensures
            r@ == self@.update(idx as int, val),
    {
        let mut bits = self.bits;
        bits[idx as usize] = val;
        f64x2 { bits }
    }

    /// The sixteen bytes of the vector, lowest first: lane `i` fills bytes
    /// `8 * i` to `8 * i + 7`, low byte first.
    pub open spec fn bytes(&self) -> Seq<u8> {
        (u64x2 { lanes: self.bits }).bytes()
    }

    /// The vector whose sixteen bytes are `b`.
    pub open spec fn from_bytes_spec(b: Seq<u8>) -> f64x2 {
        f64x2 { bits: u64x2::from_bytes_spec(b).lanes }
    }

    /// The sixteen bytes of the vector.
    pub fn to_bytes(self) -> (b: [u8; 16])
        ensures
            b@ == self.bytes(),
    {
        (u64x2 { lanes: self.bits }).to_bytes()
    }

    /// The vector whose sixteen bytes are `b`.
    pub fn from_bytes(b: [u8; 16]) -> (r: f64x2)
        ensures
            r == Self::from_bytes_spec(b@),
    {
        f64x2 { bits: u64x2::from_bytes(b).lanes }
    }

    /// Reading a vector back from its own bytes gives the vector.
    pub proof fn lemma_bytes_roundtrip(self)
        ensures
            Self::from_bytes_spec(self.bytes()) == self,
    {
        (u64x2 { lanes: self.bits }).lemma_bytes_roundtrip();
    }

    /// The bytes of the vector read from `b` are `b`.
    pub proof fn lemma_from_bytes_roundtrip(b: Seq<u8>)
        requires
            b.len() == 16,
        ensures
            Self::from_bytes_spec(b).bytes() == b,
    {
        u64x2::lemma_from_bytes_roundtrip(b);
        let u = u64x2::from_bytes_spec(b);
        assert(u64x2 { lanes: u.lanes } == u);
    }
}

} // verus!
