//! Vectors of two 64-bit lanes.

use crate::lane::{
    byte_of64, join64, join64_at, lemma_join_split64, lemma_split_join64, signed64, split64,
    to_signed64, to_unsigned64, unsigned64,
};
use vstd::prelude::*;

verus! {

/// Two lanes of `i64`; lane 0 is the lowest.
#[allow(non_camel_case_types)]
#[derive(Clone, Copy, Debug, PartialEq, Eq)]
pub struct i64x2 {
    pub lanes: [i64; 2],
}

impl View for i64x2 {
    type V = Seq<i64>;

    open spec fn view(&self) -> Seq<i64> {
        self.lanes@
    }
}

impl i64x2 {
    /// The vector whose lane `i` is `e_i`.
    pub fn new(e0: i64, e1: i64) -> (r: i64x2)
        ensures
            r@ == seq![e0, e1],
    {
        let r = i64x2 { lanes: [e0, e1] };
        assert(r@ =~= seq![e0, e1]);
        r
    }

    /// The vector with every lane equal to `x`.
    pub fn splat(x: i64) -> (r: i64x2)
        ensures
            r@ == Seq::new(2, |i: int| x),
    {
        let r = i64x2 { lanes: [x; 2] };
        assert(r@ =~= Seq::new(2, |i: int| x));
        r
    }

    /// Lane `idx` of the vector.
    pub fn extract(self, idx: u32) -> (r: i64)
        requires
            idx < 2,
        ensures
            r == self@[idx as int],
    {
        self.lanes[idx as usize]
    }

    /// The vector equal to `self` in every lane but `idx`, which holds `val`.
    pub fn replace(self, idx: u32, val: i64) -> (r: i64x2)
        requires
            idx < 2,
        ensures
            r@ == self@.update(idx as int, val),
    {
        let mut lanes = self.lanes;
        lanes[idx as usize] = val;
        i64x2 { lanes }
    }

    /// The sixteen bytes of the vector, lowest first: lane `i` fills bytes
    /// `8 * i` to `8 * i + 7`, low byte first.
    pub open spec fn bytes(&self) -> Seq<u8> {
        Seq::new(16, |k: int| byte_of64(unsigned64(self@[k / 8]), k % 8))
    }

    /// The vector whose sixteen bytes are `b`.
    pub open spec fn from_bytes_spec(b: Seq<u8>) -> i64x2 {
        i64x2 {
            lanes: [
                signed64(join64(b, 0)), signed64(join64(b, 8)),
            ],
        }
    }

    /// The sixteen bytes of the vector.
    pub fn to_bytes(self) -> (b: [u8; 16])
        ensures
            b@ == self.bytes(),
    {
        let mut b = [0u8; 16];
        let mut k: usize = 0;
        while k < 16
            invariant
                k <= 16,
                forall|j: int| 0 <= j < k ==> #[trigger] b@[j] == self.bytes()[j],
            decreases 16 - k,
        {
            let p = split64(to_unsigned64(self.lanes[k / 8]));
            b[k] = p[k % 8];
            k += 1;
        }
        assert(b@ =~= self.bytes());
        b
    }

    /// The vector whose sixteen bytes are `b`.
    pub fn from_bytes(b: [u8; 16]) -> (r: i64x2)
        ensures
            r == Self::from_bytes_spec(b@),
    {
        let mut lanes = [0i64; 2];
        let mut i: usize = 0;
        while i < 2
            invariant
                i <= 2,
                forall|j: int| 0 <= j < i ==> #[trigger] lanes@[j] == signed64(join64(b@, 8 * j)),
            decreases 2 - i,
        {
            lanes[i] = to_signed64(join64_at(&b, 8 * i));
            i += 1;
        }
        let r = i64x2 { lanes };
        assert(r.lanes =~= Self::from_bytes_spec(b@).lanes);
        r
    }

    /// Reading a vector back from its own bytes gives the vector.
    pub proof fn lemma_bytes_roundtrip(self)
        ensures
            Self::from_bytes_spec(self.bytes()) == self,
    {
        let r = Self::from_bytes_spec(self.bytes());
        assert forall|i: int| 0 <= i < 2 implies r.lanes[i] == self.lanes[i] by {
            lemma_split_join64(unsigned64(self@[i]));
            assert(self.bytes()[8 * i] == byte_of64(unsigned64(self@[i]), 0));
            assert(self.bytes()[8 * i + 1] == byte_of64(unsigned64(self@[i]), 1));
            assert(self.bytes()[8 * i + 2] == byte_of64(unsigned64(self@[i]), 2));
            assert(self.bytes()[8 * i + 3] == byte_of64(unsigned64(self@[i]), 3));
            assert(self.bytes()[8 * i + 4] == byte_of64(unsigned64(self@[i]), 4));
            assert(self.bytes()[8 * i + 5] == byte_of64(unsigned64(self@[i]), 5));
            assert(self.bytes()[8 * i + 6] == byte_of64(unsigned64(self@[i]), 6));
            assert(self.bytes()[8 * i + 7] == byte_of64(unsigned64(self@[i]), 7));
            assert(join64(self.bytes(), 8 * i) == unsigned64(self@[i]));
        }
        assert(r.lanes =~= self.lanes);
    }

    /// The bytes of the vector read from `b` are `b`.
    pub proof fn lemma_from_bytes_roundtrip(b: Seq<u8>)
        requires
            b.len() == 16,
        ensures
            Self::from_bytes_spec(b).bytes() == b,
    {
        let r = Self::from_bytes_spec(b);
        assert forall|k: int| 0 <= k < 16 implies r.bytes()[k] == b[k] by {
            let i = k / 8;
            lemma_join_split64(b, 8 * i);
            assert(r@[i] == signed64(join64(b, 8 * i)));
            assert(byte_of64(join64(b, 8 * i), k % 8) == b[8 * i + k % 8]);
        }
        assert(r.bytes() =~= b);
    }
}

/// Two lanes of `u64`; lane 0 is the lowest.
#[allow(non_camel_case_types)]
#[derive(Clone, Copy, Debug, PartialEq, Eq)]
pub struct u64x2 {
    pub lanes: [u64; 2],
}

impl View for u64x2 {
    type V = Seq<u64>;

    open spec fn view(&self) -> Seq<u64> {
        self.lanes@
    }
}

impl u64x2 {
    /// The vector whose lane `i` is `e_i`.
    pub fn new(e0: u64, e1: u64) -> (r: u64x2)
        ensures
            r@ == seq![e0, e1],
    {
        let r = u64x2 { lanes: [e0, e1] };
        assert(r@ =~= seq![e0, e1]);
        r
    }

    /// The vector with every lane equal to `x`.
    pub fn splat(x: u64) -> (r: u64x2)
        ensures
            r@ == Seq::new(2, |i: int| x),
    {
        let r = u64x2 { lanes: [x; 2] };
        assert(r@ =~= Seq::new(2, |i: int| x));
        r
    }

    /// Lane `idx` of the vector.
    pub fn extract(self, idx: u32) -> (r: u64)
        requires
            idx < 2,
        ensures
            r == self@[idx as int],
    {
        self.lanes[idx as usize]
    }

    /// The vector equal to `self` in every lane but `idx`, which holds `val`.
    pub fn replace(self, idx: u32, val: u64) -> (r: u64x2)
        requires
            idx < 2,
        ensures
            r@ == self@.update(idx as int, val),
    {
        let mut lanes = self.lanes;
        lanes[idx as usize] = val;
        u64x2 { lanes }
    }

    /// The sixteen bytes of the vector, lowest first: lane `i` fills bytes
    /// `8 * i` to `8 * i + 7`, low byte first.
    pub open spec fn bytes(&self) -> Seq<u8> {
        Seq::new(16, |k: int| byte_of64(self@[k / 8], k % 8))
    }

    /// The vector whose sixteen bytes are `b`.
    pub open spec fn from_bytes_spec(b: Seq<u8>) -> u64x2 {
        u64x2 {
            lanes: [
                join64(b, 0), join64(b, 8),
            ],
        }
    }

    /// The sixteen bytes of the vector.
    pub fn to_bytes(self) -> (b: [u8; 16])
        ensures
            b@ == self.bytes(),
    {
        let mut b = [0u8; 16];
        let mut k: usize = 0;
        while k < 16
            invariant
                k <= 16,
                forall|j: int| 0 <= j < k ==> #[trigger] b@[j] == self.bytes()[j],
            decreases 16 - k,
        {
            let p = split64(self.lanes[k / 8]);
            b[k] = p[k % 8];
            k += 1;
        }
        assert(b@ =~= self.bytes());
        b
    }

    /// The vector whose sixteen bytes are `b`.
    pub fn from_bytes(b: [u8; 16]) -> (r: u64x2)
        ensures
            r == Self::from_bytes_spec(b@),
    {
        let mut lanes = [0u64; 2];
        let mut i: usize = 0;
        while i < 2
            invariant
                i <= 2,
                forall|j: int| 0 <= j < i ==> #[trigger] lanes@[j] == join64(b@, 8 * j),
            decreases 2 - i,
        {
            lanes[i] = join64_at(&b, 8 * i);
            i += 1;
        }
        let r = u64x2 { lanes };
        assert(r.lanes =~= Self::from_bytes_spec(b@).lanes);
        r
    }

    /// Reading a vector back from its own bytes gives the vector.
    pub proof fn lemma_bytes_roundtrip(self)
        ensures
            Self::from_bytes_spec(self.bytes()) == self,
    {
        let r = Self::from_bytes_spec(self.bytes());
        assert forall|i: int| 0 <= i < 2 implies r.lanes[i] == self.lanes[i] by {
            lemma_split_join64(self@[i]);
            assert(self.bytes()[8 * i] == byte_of64(self@[i], 0));
            assert(self.bytes()[8 * i + 1] == byte_of64(self@[i], 1));
            assert(self.bytes()[8 * i + 2] == byte_of64(self@[i], 2));
            assert(self.bytes()[8 * i + 3] == byte_of64(self@[i], 3));
            assert(self.bytes()[8 * i + 4] == byte_of64(self@[i], 4));
            assert(self.bytes()[8 * i + 5] == byte_of64(self@[i], 5));
            assert(self.bytes()[8 * i + 6] == byte_of64(self@[i], 6));
            assert(self.bytes()[8 * i + 7] == byte_of64(self@[i], 7));
            assert(join64(self.bytes(), 8 * i) == self@[i]);
        }
        assert(r.lanes =~= self.lanes);
    }

    /// The bytes of the vector read from `b` are `b`.
    pub proof fn lemma_from_bytes_roundtrip(b: Seq<u8>)
        requires
            b.len() == 16,
        ensures
            Self::from_bytes_spec(b).bytes() == b,
    {
        let r = Self::from_bytes_spec(b);
        assert forall|k: int| 0 <= k < 16 implies r.bytes()[k] == b[k] by {
            let i = k / 8;
            lemma_join_split64(b, 8 * i);
            assert(r@[i] == join64(b, 8 * i));
            assert(byte_of64(join64(b, 8 * i), k % 8) == b[8 * i + k % 8]);
        }
        assert(r.bytes() =~= b);
    }
}
} // verus!
