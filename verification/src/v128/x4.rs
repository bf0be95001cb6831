//! Vectors of four 32-bit lanes.

use crate::lane::{
    byte_of32, join32, join32_at, lemma_join_split32, lemma_split_join32, signed32, split32,
    to_signed32, to_unsigned32, unsigned32,
};
use vstd::prelude::*;

verus! {

/// Four lanes of `i32`; lane 0 is the lowest.
#[allow(non_camel_case_types)]
#[derive(Clone, Copy, Debug, PartialEq, Eq)]
pub struct i32x4 {
    pub lanes: [i32; 4],
}

impl View for i32x4 {
    type V = Seq<i32>;

    open spec fn view(&self) -> Seq<i32> {
        self.lanes@
    }
}

impl i32x4 {
    /// The vector whose lane `i` is `e_i`.
    pub fn new(e0: i32, e1: i32, e2: i32, e3: i32) -> (r: i32x4)
        ensures
            r@ == seq![e0, e1, e2, e3],
    {
        let r = i32x4 { lanes: [e0, e1, e2, e3] };
        assert(r@ =~= seq![e0, e1, e2, e3]);
        r
    }

    /// The vector with every lane equal to `x`.
    pub fn splat(x: i32) -> (r: i32x4)
        ensures
            r@ == Seq::new(4, |i: int| x),
    {
        let r = i32x4 { lanes: [x; 4] };
        assert(r@ =~= Seq::new(4, |i: int| x));
        r
    }

    /// Lane `idx` of the vector.
    pub fn extract(self, idx: u32) -> (r: i32)
        requires
            idx < 4,
        ensures
            r == self@[idx as int],
    {
        self.lanes[idx as usize]
    }

    /// The vector equal to `self` in every lane but `idx`, which holds `val`.
    pub fn replace(self, idx: u32, val: i32) -> (r: i32x4)
        requires
            idx < 4,
        ensures
            r@ == self@.update(idx as int, val),
    {
        let mut lanes = self.lanes;
        lanes[idx as usize] = val;
        i32x4 { lanes }
    }

    /// The sixteen bytes of the vector, lowest first: lane `i` fills bytes
    /// `4 * i` to `4 * i + 3`, low byte first.
    pub open spec fn bytes(&self) -> Seq<u8> {
        Seq::new(16, |k: int| byte_of32(unsigned32(self@[k / 4]), k % 4))
    }

    /// The vector whose sixteen bytes are `b`.
    pub open spec fn from_bytes_spec(b: Seq<u8>) -> i32x4 {
        i32x4 {
            lanes: [
                signed32(join32(b, 0)), signed32(join32(b, 4)), signed32(join32(b, 8)),
                signed32(join32(b, 12)),
            ],
        }
    }

    /// The sixteen bytes of the vector.
    pub fn to_bytes(self) -> (b: [u8; 16])
        ensures
            b@ == self.bytes(),
    {
        let mut b = [0u8; 16];
        let mut k: usize = 0;
        while k < 16
            invariant
                k <= 16,
                forall|j: int| 0 <= j < k ==> #[trigger] b@[j] == self.bytes()[j],
            decreases 16 - k,
        {
            let p = split32(to_unsigned32(self.lanes[k / 4]));
            b[k] = p[k % 4];
            k += 1;
        }
        assert(b@ =~= self.bytes());
        b
    }

    /// The vector whose sixteen bytes are `b`.
    pub fn from_bytes(b: [u8; 16]) -> (r: i32x4)
        ensures
            r == Self::from_bytes_spec(b@),
    {
        let mut lanes = [0i32; 4];
        let mut i: usize = 0;
        while i < 4
            invariant
                i <= 4,
                forall|j: int| 0 <= j < i ==> #[trigger] lanes@[j] == signed32(join32(b@, 4 * j)),
            decreases 4 - i,
        {
            lanes[i] = to_signed32(join32_at(&b, 4 * i));
            i += 1;
        }
        let r = i32x4 { lanes };
        assert(r.lanes =~= Self::from_bytes_spec(b@).lanes);
        r
    }

    /// Reading a vector back from its own bytes gives the vector.
    pub proof fn lemma_bytes_roundtrip(self)
        ensures
            Self::from_bytes_spec(self.bytes()) == self,
    {
        let r = Self::from_bytes_spec(self.bytes());
        assert forall|i: int| 0 <= i < 4 implies r.lanes[i] == self.lanes[i] by {
            lemma_split_join32(unsigned32(self@[i]));
            assert(self.bytes()[4 * i] == byte_of32(unsigned32(self@[i]), 0));
            assert(self.bytes()[4 * i + 1] == byte_of32(unsigned32(self@[i]), 1));
            assert(self.bytes()[4 * i + 2] == byte_of32(unsigned32(self@[i]), 2));
            assert(self.bytes()[4 * i + 3] == byte_of32(unsigned32(self@[i]), 3));
            assert(join32(self.bytes(), 4 * i) == unsigned32(self@[i]));
        }
        assert(r.lanes =~= self.lanes);
    }

    /// The bytes of the vector read from `b` are `b`.
    pub proof fn lemma_from_bytes_roundtrip(b: Seq<u8>)
        requires
            b.len() == 16,
        ensures
            Self::from_bytes_spec(b).bytes() == b,
    {
        let r = Self::from_bytes_spec(b);
        assert forall|k: int| 0 <= k < 16 implies r.bytes()[k] == b[k] by {
            let i = k / 4;
            lemma_join_split32(b, 4 * i);
            assert(r@[i] == signed32(join32(b, 4 * i)));
            assert(byte_of32(join32(b, 4 * i), k % 4) == b[4 * i + k % 4]);
        }
        assert(r.bytes() =~= b);
    }
}

/// Four lanes of `u32`; lane 0 is the lowest.
#[allow(non_camel_case_types)]
#[derive(Clone, Copy, Debug, PartialEq, Eq)]
pub struct u32x4 {
    pub lanes: [u32; 4],
}

impl View for u32x4 {
    type V = Seq<u32>;

    open spec fn view(&self) -> Seq<u32> {
        self.lanes@
    }
}

impl u32x4 {
    /// The vector whose lane `i` is `e_i`.
    pub fn new(e0: u32, e1: u32, e2: u32, e3: u32) -> (r: u32x4)
        ensures
            r@ == seq![e0, e1, e2, e3],
    {
        let r = u32x4 { lanes: [e0, e1, e2, e3] };
        assert(r@ =~= seq![e0, e1, e2, e3]);
        r
    }

    /// The vector with every lane equal to `x`.
    pub fn splat(x: u32) -> (r: u32x4)
        ensures
            r@ == Seq::new(4, |i: int| x),
    {
        let r = u32x4 { lanes: [x; 4] };
        assert(r@ =~= Seq::new(4, |i: int| x));
        r
    }

    /// Lane `idx` of the vector.
    pub fn extract(self, idx: u32) -> (r: u32)
        requires
            idx < 4,
        ensures
            r == self@[idx as int],
    {
        self.lanes[idx as usize]
    }

    /// The vector equal to `self` in every lane but `idx`, which holds `val`.
    pub fn replace(self, idx: u32, val: u32) -> (r: u32x4)
        requires
            idx < 4,
        ensures
            r@ == self@.update(idx as int, val),
    {
        let mut lanes = self.lanes;
        lanes[idx as usize] = val;
        u32x4 { lanes }
    }

    /// The sixteen bytes of the vector, lowest first: lane `i` fills bytes
    /// `4 * i` to `4 * i + 3`, low byte first.
    pub open spec fn bytes(&self) -> Seq<u8> {
        Seq::new(16, |k: int| byte_of32(self@[k / 4], k % 4))
    }

    /// The vector whose sixteen bytes are `b`.
    pub open spec fn from_bytes_spec(b: Seq<u8>) -> u32x4 {
        u32x4 {
            lanes: [
                join32(b, 0), join32(b, 4), join32(b, 8), join32(b, 12),
            ],
        }
    }

    /// The sixteen bytes of the vector.
    pub fn to_bytes(self) -> (b: [u8; 16])
        ensures
            b@ == self.bytes(),
    {
        let mut b = [0u8; 16];
        let mut k: usize = 0;
        while k < 16
            invariant
                k <= 16,
                forall|j: int| 0 <= j < k ==> #[trigger] b@[j] == self.bytes()[j],
            decreases 16 - k,
        {
            let p = split32(self.lanes[k / 4]);
            b[k] = p[k % 4];
            k += 1;
        }
        assert(b@ =~= self.bytes());
        b
    }

    /// The vector whose sixteen bytes are `b`.
    pub fn from_bytes(b: [u8; 16]) -> (r: u32x4)
        ensures
            r == Self::from_bytes_spec(b@),
    {
        let mut lanes = [0u32; 4];
        let mut i: usize = 0;
        while i < 4
            invariant
                i <= 4,
                forall|j: int| 0 <= j < i ==> #[trigger] lanes@[j] == join32(b@, 4 * j),
            decreases 4 - i,
        {
            lanes[i] = join32_at(&b, 4 * i);
            i += 1;
        }
        let r = u32x4 { lanes };
        assert(r.lanes =~= Self::from_bytes_spec(b@).lanes);
        r
    }

    /// Reading a vector back from its own bytes gives the vector.
    pub proof fn lemma_bytes_roundtrip(self)
        ensures
            Self::from_bytes_spec(self.bytes()) == self,
    {
        let r = Self::from_bytes_spec(self.bytes());
        assert forall|i: int| 0 <= i < 4 implies r.lanes[i] == self.lanes[i] by {
            lemma_split_join32(self@[i]);
            assert(self.bytes()[4 * i] == byte_of32(self@[i], 0));
            assert(self.bytes()[4 * i + 1] == byte_of32(self@[i], 1));
            assert(self.bytes()[4 * i + 2] == byte_of32(self@[i], 2));
            assert(self.bytes()[4 * i + 3] == byte_of32(self@[i], 3));
            assert(join32(self.bytes(), 4 * i) == self@[i]);
        }
        assert(r.lanes =~= self.lanes);
    }

    /// The bytes of the vector read from `b` are `b`.
    pub proof fn lemma_from_bytes_roundtrip(b: Seq<u8>)
        requires
            b.len() == 16,
        ensures
            Self::from_bytes_spec(b).bytes() == b,
    {
        let r = Self::from_bytes_spec(b);
        assert forall|k: int| 0 <= k < 16 implies r.bytes()[k] == b[k] by {
            let i = k / 4;
            lemma_join_split32(b, 4 * i);
            assert(r@[i] == join32(b, 4 * i));
            assert(byte_of32(join32(b, 4 * i), k % 4) == b[4 * i + k % 4]);
        }
        assert(r.bytes() =~= b);
    }
}
} // verus!
