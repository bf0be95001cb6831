//! Vectors of eight 16-bit lanes.

use crate::lane::{
    byte_of16, join16, join16_at, lemma_join_split16, lemma_split_join16, signed16, split16,
    to_signed16, to_unsigned16, unsigned16,
};
use vstd::prelude::*;

verus! {

/// Eight lanes of `i16`; lane 0 is the lowest.
#[allow(non_camel_case_types)]
#[derive(Clone, Copy, Debug, PartialEq, Eq)]
pub struct i16x8 {
    pub lanes: [i16; 8],
}

impl View for i16x8 {
    type V = Seq<i16>;

    open spec fn view(&self) -> Seq<i16> {
        self.lanes@
    }
}

impl i16x8 {
    /// The vector whose lane `i` is `e_i`.
    pub fn new(
        e0: i16, e1: i16, e2: i16, e3: i16, e4: i16, e5: i16, e6: i16, e7: i16,
    ) -> (r: i16x8)
        ensures
            r@ == seq![e0, e1, e2, e3, e4, e5, e6, e7],
    {
        let r = i16x8 { lanes: [e0, e1, e2, e3, e4, e5, e6, e7] };
        assert(r@ =~= seq![e0, e1, e2, e3, e4, e5, e6, e7]);
        r
    }

    /// The vector with every lane equal to `x`.
    pub fn splat(x: i16) -> (r: i16x8)
        ensures
            r@ == Seq::new(8, |i: int| x),
    {
        let r = i16x8 { lanes: [x; 8] };
        assert(r@ =~= Seq::new(8, |i: int| x));
        r
    }

    /// Lane `idx` of the vector.
    pub fn extract(self, idx: u32) -> (r: i16)
        requires
            idx < 8,
        ensures
            r == self@[idx as int],
    {
        self.lanes[idx as usize]
    }

    /// The vector equal to `self` in every lane but `idx`, which holds `val`.
    pub fn replace(self, idx: u32, val: i16) -> (r: i16x8)
        requires
            idx < 8,
        ensures
            r@ == self@.update(idx as int, val),
    {
        let mut lanes = self.lanes;
        lanes[idx as usize] = val;
        i16x8 { lanes }
    }

    /// The sixteen bytes of the vector, lowest first: lane `i` fills bytes
    /// `2 * i` to `2 * i + 1`, low byte first.
    pub open spec fn bytes(&self) -> Seq<u8> {
        Seq::new(16, |k: int| byte_of16(unsigned16(self@[k / 2]), k % 2))
    }

    /// The vector whose sixteen bytes are `b`.
    pub open spec fn from_bytes_spec(b: Seq<u8>) -> i16x8 {
        i16x8 {
            lanes: [
                signed16(join16(b, 0)), signed16(join16(b, 2)), signed16(join16(b, 4)),
                signed16(join16(b, 6)), signed16(join16(b, 8)), signed16(join16(b, 10)),
                signed16(join16(b, 12)), signed16(join16(b, 14)),
            ],
        }
    }

    /// The sixteen bytes of the vector.
    pub fn to_bytes(self) -> (b: [u8; 16])
        ensures
            b@ == self.bytes(),
    {
        let mut b = [0u8; 16];
        let mut k: usize = 0;
        while k < 16
            invariant
                k <= 16,
                forall|j: int| 0 <= j < k ==> #[trigger] b@[j] == self.bytes()[j],
            decreases 16 - k,
        {
            let p = split16(to_unsigned16(self.lanes[k / 2]));
            b[k] = p[k % 2];
            k += 1;
        }
        assert(b@ =~= self.bytes());
        b
    }

    /// The vector whose sixteen bytes are `b`.
    pub fn from_bytes(b: [u8; 16]) -> (r: i16x8)
        ensures
            r == Self::from_bytes_spec(b@),
    {
        let mut lanes = [0i16; 8];
        let mut i: usize = 0;
        while i < 8
            invariant
                i <= 8,
                forall|j: int| 0 <= j < i ==> #[trigger] lanes@[j] == signed16(join16(b@, 2 * j)),
            decreases 8 - i,
        {
            lanes[i] = to_signed16(join16_at(&b, 2 * i));
            i += 1;
        }
        let r = i16x8 { lanes };
        assert(r.lanes =~= Self::from_bytes_spec(b@).lanes);
        r
    }

    /// Reading a vector back from its own bytes gives the vector.
    pub proof fn lemma_bytes_roundtrip(self)
        ensures
            Self::from_bytes_spec(self.bytes()) == self,
    {
        let r = Self::from_bytes_spec(self.bytes());
        assert forall|i: int| 0 <= i < 8 implies r.lanes[i] == self.lanes[i] by {
            lemma_split_join16(unsigned16(self@[i]));
            assert(self.bytes()[2 * i] == byte_of16(unsigned16(self@[i]), 0));
            assert(self.bytes()[2 * i + 1] == byte_of16(unsigned16(self@[i]), 1));
            assert(join16(self.bytes(), 2 * i) == unsigned16(self@[i]));
        }
        assert(r.lanes =~= self.lanes);
    }

    /// The bytes of the vector read from `b` are `b`.
    pub proof fn lemma_from_bytes_roundtrip(b: Seq<u8>)
        requires
            b.len() == 16,
        ensures
            Self::from_bytes_spec(b).bytes() == b,
    {
        let r = Self::from_bytes_spec(b);
        assert forall|k: int| 0 <= k < 16 implies r.bytes()[k] == b[k] by {
            let i = k / 2;
            lemma_join_split16(b, 2 * i);
            assert(r@[i] == signed16(join16(b, 2 * i)));
            assert(byte_of16(join16(b, 2 * i), k % 2) == b[2 * i + k % 2]);
        }
        assert(r.bytes() =~= b);
    }
}

/// Eight lanes of `u16`; lane 0 is the lowest.
#[allow(non_camel_case_types)]
#[derive(Clone, Copy, Debug, PartialEq, Eq)]
pub struct u16x8 {
    pub lanes: [u16; 8],
}

impl View for u16x8 {
    type V = Seq<u16>;

    open spec fn view(&self) -> Seq<u16> {
        self.lanes@
    }
}

impl u16x8 {
    /// The vector whose lane `i` is `e_i`.
    pub fn new(
        e0: u16, e1: u16, e2: u16, e3: u16, e4: u16, e5: u16, e6: u16, e7: u16,
    ) -> (r: u16x8)
        ensures
            r@ == seq![e0, e1, e2, e3, e4, e5, e6, e7],
    {
        let r = u16x8 { lanes: [e0, e1, e2, e3, e4, e5, e6, e7] };
        assert(r@ =~= seq![e0, e1, e2, e3, e4, e5, e6, e7]);
        r
    }

    /// The vector with every lane equal to `x`.
    pub fn splat(x: u16) -> (r: u16x8)
        ensures
            r@ == Seq::new(8, |i: int| x),
    {
        let r = u16x8 { lanes: [x; 8] };
        assert(r@ =~= Seq::new(8, |i: int| x));
        r
    }

    /// Lane `idx` of the vector.
    pub fn extract(self, idx: u32) -> (r: u16)
        requires
            idx < 8,
        ensures
            r == self@[idx as int],
    {
        self.lanes[idx as usize]
    }

    /// The vector equal to `self` in every lane but `idx`, which holds `val`.
    pub fn replace(self, idx: u32, val: u16) -> (r: u16x8)
        requires
            idx < 8,
        ensures
            r@ == self@.update(idx as int, val),
    {
        let mut lanes = self.lanes;
        lanes[idx as usize] = val;
        u16x8 { lanes }
    }

    /// The sixteen bytes of the vector, lowest first: lane `i` fills bytes
    /// `2 * i` to `2 * i + 1`, low byte first.
    pub open spec fn bytes(&self) -> Seq<u8> {
        Seq::new(16, |k: int| byte_of16(self@[k / 2], k % 2))
    }

    /// The vector whose sixteen bytes are `b`.
    pub open spec fn from_bytes_spec(b: Seq<u8>) -> u16x8 {
        u16x8 {
            lanes: [
                join16(b, 0), join16(b, 2), join16(b, 4), join16(b, 6), join16(b, 8),
                join16(b, 10), join16(b, 12), join16(b, 14),
            ],
        }
    }

    /// The sixteen bytes of the vector.
    pub fn to_bytes(self) -> (b: [u8; 16])
        ensures
            b@ == self.bytes(),
    {
        let mut b = [0u8; 16];
        let mut k: usize = 0;
        while k < 16
            invariant
                k <= 16,
                forall|j: int| 0 <= j < k ==> #[trigger] b@[j] == self.bytes()[j],
            decreases 16 - k,
        {
            let p = split16(self.lanes[k / 2]);
            b[k] = p[k % 2];
            k += 1;
        }
        assert(b@ =~= self.bytes());
        b
    }

    /// The vector whose sixteen bytes are `b`.
    pub fn from_bytes(b: [u8; 16]) -> (r: u16x8)
        ensures
            r == Self::from_bytes_spec(b@),
    {
        let mut lanes = [0u16; 8];
        let mut i: usize = 0;
        while i < 8
            invariant
                i <= 8,
                forall|j: int| 0 <= j < i ==> #[trigger] lanes@[j] == join16(b@, 2 * j),
            decreases 8 - i,
        {
            lanes[i] = join16_at(&b, 2 * i);
            i += 1;
        }
        let r = u16x8 { lanes };
        assert(r.lanes =~= Self::from_bytes_spec(b@).lanes);
        r
    }

    /// Reading a vector back from its own bytes gives the vector.
    pub proof fn lemma_bytes_roundtrip(self)
        ensures
            Self::from_bytes_spec(self.bytes()) == self,
    {
        let r = Self::from_bytes_spec(self.bytes());
        assert forall|i: int| 0 <= i < 8 implies r.lanes[i] == self.lanes[i] by {
            lemma_split_join16(self@[i]);
            assert(self.bytes()[2 * i] == byte_of16(self@[i], 0));
            assert(self.bytes()[2 * i + 1] == byte_of16(self@[i], 1));
            assert(join16(self.bytes(), 2 * i) == self@[i]);
        }
        assert(r.lanes =~= self.lanes);
    }

    /// The bytes of the vector read from `b` are `b`.
    pub proof fn lemma_from_bytes_roundtrip(b: Seq<u8>)
        requires
            b.len() == 16,
        ensures
            Self::from_bytes_spec(b).bytes() == b,
    {
        let r = Self::from_bytes_spec(b);
        assert forall|k: int| 0 <= k < 16 implies r.bytes()[k] == b[k] by {
            let i = k / 2;
            lemma_join_split16(b, 2 * i);
            assert(r@[i] == join16(b, 2 * i));
            assert(byte_of16(join16(b, 2 * i), k % 2) == b[2 * i + k % 2]);
        }
        assert(r.bytes() =~= b);
    }
}
} // verus!
