//! Vectors of sixteen 8-bit lanes.

use crate::lane::{signed8, to_signed8, to_unsigned8, unsigned8};
use vstd::prelude::*;

verus! {

/// Sixteen lanes of `i8`; lane 0 is the lowest.
#[allow(non_camel_case_types)]
#[derive(Clone, Copy, Debug, PartialEq, Eq)]
pub struct i8x16 {
    pub lanes: [i8; 16],
}

impl View for i8x16 {
    type V = Seq<i8>;

    open spec fn view(&self) -> Seq<i8> {
        self.lanes@
    }
}

impl i8x16 {
    /// The vector whose lane `i` is `e_i`.
    pub fn new(
        e0: i8, e1: i8, e2: i8, e3: i8, e4: i8, e5: i8, e6: i8, e7: i8, e8: i8, e9: i8,
        e10: i8, e11: i8, e12: i8, e13: i8, e14: i8, e15: i8,
    ) -> (r: i8x16)
        ensures
            r@ == seq![e0, e1, e2, e3, e4, e5, e6, e7, e8, e9, e10, e11, e12, e13, e14, e15],
    {
        let r = i8x16 {
            lanes: [e0, e1, e2, e3, e4, e5, e6, e7, e8, e9, e10, e11, e12, e13, e14, e15],
        };
        assert(r@ =~= seq![e0, e1, e2, e3, e4, e5, e6, e7, e8, e9, e10, e11, e12, e13, e14, e15]);
        r
    }

    /// The vector with every lane equal to `x`.
    pub fn splat(x: i8) -> (r: i8x16)
        ensures
            r@ == Seq::new(16, |i: int| x),
    {
        let r = i8x16 { lanes: [x; 16] };
        assert(r@ =~= Seq::new(16, |i: int| x));
        r
    }

    /// Lane `idx` of the vector.
    pub fn extract(self, idx: u32) -> (r: i8)
        requires
            idx < 16,
        ensures
            r == self@[idx as int],
    {
        self.lanes[idx as usize]
    }

    /// The vector equal to `self` in every lane but `idx`, which holds `val`.
    pub fn replace(self, idx: u32, val: i8) -> (r: i8x16)
        requires
            idx < 16,
        ensures
            r@ == self@.update(idx as int, val),
    {
        let mut lanes = self.lanes;
        lanes[idx as usize] = val;
        i8x16 { lanes }
    }

    /// The sixteen bytes of the vector, lowest first: lane `i` is byte `i`.
    pub open spec fn bytes(&self) -> Seq<u8> {
        Seq::new(16, |k: int| unsigned8(self@[k]))
    }

    /// The vector whose sixteen bytes are `b`.
    pub open spec fn from_bytes_spec(b: Seq<u8>) -> i8x16 {
        i8x16 {
            lanes: [
                signed8(b[0]), signed8(b[1]), signed8(b[2]), signed8(b[3]), signed8(b[4]),
                signed8(b[5]), signed8(b[6]), signed8(b[7]), signed8(b[8]), signed8(b[9]),
                signed8(b[10]), signed8(b[11]), signed8(b[12]), signed8(b[13]), signed8(b[14]),
                signed8(b[15]),
            ],
        }
    }

    /// The sixteen bytes of the vector.
    pub fn to_bytes(self) -> (b: [u8; 16])
        ensures
            b@ == self.bytes(),
    {
        let mut b = [0u8; 16];
        let mut k: usize = 0;
        while k < 16
            invariant
                k <= 16,
                forall|j: int| 0 <= j < k ==> #[trigger] b@[j] == self.bytes()[j],
            decreases 16 - k,
        {
            b[k] = to_unsigned8(self.lanes[k]);
            k += 1;
        }
        assert(b@ =~= self.bytes());
        b
    }

    /// The vector whose sixteen bytes are `b`.
    pub fn from_bytes(b: [u8; 16]) -> (r: i8x16)
        ensures
            r == Self::from_bytes_spec(b@),
    {
        let mut lanes = [0i8; 16];
        let mut i: usize = 0;
        while i < 16
            invariant
                i <= 16,
                forall|j: int| 0 <= j < i ==> #[trigger] lanes@[j] == signed8(b@[j]),
            decreases 16 - i,
        {
            lanes[i] = to_signed8(b[i]);
            i += 1;
        }
        let r = i8x16 { lanes };
        assert(r.lanes =~= Self::from_bytes_spec(b@).lanes);
        r
    }

    /// Reading a vector back from its own bytes gives the vector.
    pub proof fn lemma_bytes_roundtrip(self)
        ensures
            Self::from_bytes_spec(self.bytes()) == self,
    {
        let r = Self::from_bytes_spec(self.bytes());
        assert forall|i: int| 0 <= i < 16 implies r.lanes[i] == self.lanes[i] by {
            assert(self.bytes()[i] == unsigned8(self@[i]));
        }
        assert(r.lanes =~= self.lanes);
    }

    /// The bytes of the vector read from `b` are `b`.
    pub proof fn lemma_from_bytes_roundtrip(b: Seq<u8>)
        requires
            b.len() == 16,
        ensures
            Self::from_bytes_spec(b).bytes() == b,
    {
        let r = Self::from_bytes_spec(b);
        assert forall|k: int| 0 <= k < 16 implies r.bytes()[k] == b[k] by {
            assert(r@[k] == signed8(b[k]));
        }
        assert(r.bytes() =~= b);
    }
}

/// Sixteen lanes of `u8`; lane 0 is the lowest.
#[allow(non_camel_case_types)]
#[derive(Clone, Copy, Debug, PartialEq, Eq)]
pub struct u8x16 {
    pub lanes: [u8; 16],
}

impl View for u8x16 {
    type V = Seq<u8>;

    open spec fn view(&self) -> Seq<u8> {
        self.lanes@
    }
}

impl u8x16 {
    /// The vector whose lane `i` is `e_i`.
    pub fn new(
        e0: u8, e1: u8, e2: u8, e3: u8, e4: u8, e5: u8, e6: u8, e7: u8, e8: u8, e9: u8,
        e10: u8, e11: u8, e12: u8, e13: u8, e14: u8, e15: u8,
    ) -> (r: u8x16)
        ensures
            r@ == seq![e0, e1, e2, e3, e4, e5, e6, e7, e8, e9, e10, e11, e12, e13, e14, e15],
    {
        let r = u8x16 {
            lanes: [e0, e1, e2, e3, e4, e5, e6, e7, e8, e9, e10, e11, e12, e13, e14, e15],
        };
        assert(r@ =~= seq![e0, e1, e2, e3, e4, e5, e6, e7, e8, e9, e10, e11, e12, e13, e14, e15]);
        r
    }

    /// The vector with every lane equal to `x`.
    pub fn splat(x: u8) -> (r: u8x16)
        ensures
            r@ == Seq::new(16, |i: int| x),
    {
        let r = u8x16 { lanes: [x; 16] };
        assert(r@ =~= Seq::new(16, |i: int| x));
        r
    }

    /// Lane `idx` of the vector.
    pub fn extract(self, idx: u32) -> (r: u8)
        requires
            idx < 16,
        ensures
            r == self@[idx as int],
    {
        self.lanes[idx as usize]
    }

    /// The vector equal to `self` in every lane but `idx`, which holds `val`.
    pub fn replace(self, idx: u32, val: u8) -> (r: u8x16)
        requires
            idx < 16,
        ensures
            r@ == self@.update(idx as int, val),
    {
        let mut lanes = self.lanes;
        lanes[idx as usize] = val;
        u8x16 { lanes }
    }

    /// The sixteen bytes of the vector, lowest first: lane `i` is byte `i`.
    pub open spec fn bytes(&self) -> Seq<u8> {
        self@
    }

    /// The vector whose sixteen bytes are `b`.
    pub open spec fn from_bytes_spec(b: Seq<u8>) -> u8x16 {
        u8x16 {
            lanes: [
                b[0], b[1], b[2], b[3], b[4], b[5], b[6], b[7], b[8], b[9], b[10], b[11],
                b[12], b[13], b[14], b[15],
            ],
        }
    }

    /// The sixteen bytes of the vector.
    pub fn to_bytes(self) -> (b: [u8; 16])
        ensures
            b@ == self.bytes(),
    {
        self.lanes
    }

    /// The vector whose sixteen bytes are `b`.
    pub fn from_bytes(b: [u8; 16]) -> (r: u8x16)
        ensures
            r == Self::from_bytes_spec(b@),
    {
        let r = u8x16 { lanes: b };
        assert(r.lanes =~= Self::from_bytes_spec(b@).lanes);
        r
    }

    /// Reading a vector back from its own bytes gives the vector.
    pub proof fn lemma_bytes_roundtrip(self)
        ensures
            Self::from_bytes_spec(self.bytes()) == self,
    {
        let r = Self::from_bytes_spec(self.bytes());
        assert forall|i: int| 0 <= i < 16 implies r.lanes[i] == self.lanes[i] by {
            assert(self.bytes()[i] == self@[i]);
        }
        assert(r.lanes =~= self.lanes);
    }

    /// The bytes of the vector read from `b` are `b`.
    pub proof fn lemma_from_bytes_roundtrip(b: Seq<u8>)
        requires
            b.len() == 16,
        ensures
            Self::from_bytes_spec(b).bytes() == b,
    {
        let r = Self::from_bytes_spec(b);
        assert forall|k: int| 0 <= k < 16 implies r.bytes()[k] == b[k] by {
            assert(r@[k] == b[k]);
        }
        assert(r.bytes() =~= b);
    }
}
} // verus!
