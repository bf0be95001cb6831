//! Scalar meaning of a single lane: how the same bits read as a signed or an
//! unsigned number, and how a lane splits into little-endian bytes.

use vstd::prelude::*;

verus! {

/// The unsigned number held by the 8 bits of `x`.
pub open spec fn unsigned8(x: i8) -> u8 {
    (if x < 0 {
        x + 0x100
    } else {
        x as int
    }) as u8
}

/// The unsigned number held by the 16 bits of `x`.
pub open spec fn unsigned16(x: i16) -> u16 {
    (if x < 0 {
        x + 0x1_0000
    } else {
        x as int
    }) as u16
}

/// The unsigned number held by the 32 bits of `x`.
pub open spec fn unsigned32(x: i32) -> u32 {
    (if x < 0 {
        x + 0x1_0000_0000
    } else {
        x as int
    }) as u32
}

/// The unsigned number held by the 64 bits of `x`.
pub open spec fn unsigned64(x: i64) -> u64 {
    (if x < 0 {
        x + 0x1_0000_0000_0000_0000
    } else {
        x as int
    }) as u64
}

/// The two's-complement number held by the 8 bits of `x`.
pub open spec fn signed8(x: u8) -> i8 {
    (if x >= 0x80 {
        x - 0x100
    } else {
        x as int
    }) as i8
}

/// The two's-complement number held by the 16 bits of `x`.
pub open spec fn signed16(x: u16) -> i16 {
    (if x >= 0x8000 {
        x - 0x1_0000
    } else {
        x as int
    }) as i16
}

/// The two's-complement number held by the 32 bits of `x`.
pub open spec fn signed32(x: u32) -> i32 {
    (if x >= 0x8000_0000 {
        x - 0x1_0000_0000
    } else {
        x as int
    }) as i32
}

/// The two's-complement number held by the 64 bits of `x`.
pub open spec fn signed64(x: u64) -> i64 {
    (if x >= 0x8000_0000_0000_0000 {
        x - 0x1_0000_0000_0000_0000
    } else {
        x as int
    }) as i64
}

/// Reads the 8 bits of `x` as an unsigned number.
pub fn to_unsigned8(x: i8) -> (r: u8)
    ensures
        r == unsigned8(x),
{
    let r = x as u8;
    assert(r == if x < 0 {
        x + 0x100
    } else {
        x as int
    }) by (bit_vector)
        requires
            r == x as u8,
    ;
    r
}

/// Reads the 16 bits of `x` as an unsigned number.
pub fn to_unsigned16(x: i16) -> (r: u16)
    ensures
        r == unsigned16(x),
{
    let r = x as u16;
    assert(r == if x < 0 {
        x + 0x1_0000
    } else {
        x as int
    }) by (bit_vector)
        requires
            r == x as u16,
    ;
    r
}

/// Reads the 32 bits of `x` as an unsigned number.
pub fn to_unsigned32(x: i32) -> (r: u32)
    ensures
        r == unsigned32(x),
{
    let r = x as u32;
    assert(r == if x < 0 {
        x + 0x1_0000_0000
    } else {
        x as int
    }) by (bit_vector)
        requires
            r == x as u32,
    ;
    r
}

/// Reads the 64 bits of `x` as an unsigned number.
pub fn to_unsigned64(x: i64) -> (r: u64)
    ensures
        r == unsigned64(x),
{
    let r = x as u64;
    assert(r == if x < 0 {
        x + 0x1_0000_0000_0000_0000
    } else {
        x as int
    }) by (bit_vector)
        requires
            r == x as u64,
    ;
    r
}

/// Reads the 8 bits of `x` as a two's-complement number.
pub fn to_signed8(x: u8) -> (r: i8)
    ensures
        r == signed8(x),
{
    let r = x as i8;
    assert(r == if x >= 0x80 {
        x - 0x100
    } else {
        x as int
    }) by (bit_vector)
        requires
            r == x as i8,
    ;
    r
}

/// Reads the 16 bits of `x` as a two's-complement number.
pub fn to_signed16(x: u16) -> (r: i16)
    ensures
        r == signed16(x),
{
    let r = x as i16;
    assert(r == if x >= 0x8000 {
        x - 0x1_0000
    } else {
        x as int
    }) by (bit_vector)
        requires
            r == x as i16,
    ;
    r
}

/// Reads the 32 bits of `x` as a two's-complement number.
pub fn to_signed32(x: u32) -> (r: i32)
    ensures
        r == signed32(x),
{
    let r = x as i32;
    assert(r == if x >= 0x8000_0000 {
        x - 0x1_0000_0000
    } else {
        x as int
    }) by (bit_vector)
        requires
            r == x as i32,
    ;
    r
}

/// Reads the 64 bits of `x` as a two's-complement number.
pub fn to_signed64(x: u64) -> (r: i64)
    ensures
        r == signed64(x),
{
    let r = x as i64;
    assert(r == if x >= 0x8000_0000_0000_0000 {
        x - 0x1_0000_0000_0000_0000
    } else {
        x as int
    }) by (bit_vector)
        requires
            r == x as i64,
    ;
    r
}

/// Little-endian byte `j` (0 to 1) of a 16-bit number.
pub open spec fn byte_of16(x: u16, j: int) -> u8 {
    (if j == 0 {
        x % 0x100
    } else {
        x / 0x100 % 0x100
    }) as u8
}

/// The 16-bit number whose little-endian bytes are `b[o]` to `b[o + 1]`.
pub open spec fn join16(b: Seq<u8>, o: int) -> u16 {
    (b[o] + 0x100 * b[o + 1]) as u16
}

/// A 16-bit number is the sum of its bytes, each at its weight.
pub proof fn lemma_split_join16(x: u16)
    ensures
        x == byte_of16(x, 0) + 0x100 * byte_of16(x, 1),
{
    assert(x == x % 0x100 + 0x100 * (x / 0x100 % 0x100)) by (bit_vector);
}

/// The bytes of the number joined from `b[o]` to `b[o + 1]` are those bytes.
pub proof fn lemma_join_split16(b: Seq<u8>, o: int)
    requires
        0 <= o,
        o + 2 <= b.len(),
    ensures
        forall|j: int| 0 <= j < 2 ==> #[trigger] byte_of16(join16(b, o), j) == b[o + j],
{
    let b0: u8 = b[o];
    let b1: u8 = b[o + 1];
    let x: u16 = join16(b, o);
    assert(x % 0x100 == b0 && x / 0x100 % 0x100 == b1) by (bit_vector)
        requires
            x == b0 + 0x100 * b1,
    ;
}

/// The two bytes of `x`, lowest first.
pub(crate) fn split16(x: u16) -> (b: [u8; 2])
    ensures
        forall|j: int| 0 <= j < 2 ==> #[trigger] b@[j] == byte_of16(x, j),
{
    [
        (x % 0x100) as u8,
        (x / 0x100 % 0x100) as u8,
    ]
}

/// The number that the two bytes of `b` from place `o` on hold, lowest first.
pub(crate) fn join16_at(b: &[u8; 16], o: usize) -> (x: u16)
    requires
        o + 2 <= 16,
    ensures
        x == join16(b@, o as int),
{
    b[o] as u16 + 0x100 * (b[o + 1] as u16)
}

/// Little-endian byte `j` (0 to 3) of a 32-bit number.
pub open spec fn byte_of32(x: u32, j: int) -> u8 {
    (if j == 0 {
        x % 0x100
    } else if j == 1 {
        x / 0x100 % 0x100
    } else if j == 2 {
        x / 0x1_0000 % 0x100
    } else {
        x / 0x100_0000 % 0x100
    }) as u8
}

/// The 32-bit number whose little-endian bytes are `b[o]` to `b[o + 3]`.
pub open spec fn join32(b: Seq<u8>, o: int) -> u32 {
    (b[o] + 0x100 * b[o + 1] + 0x1_0000 * b[o + 2] + 0x100_0000 * b[o + 3]) as u32
}

/// A 32-bit number is the sum of its bytes, each at its weight.
pub proof fn lemma_split_join32(x: u32)
    ensures
        x == byte_of32(x, 0) + 0x100 * byte_of32(x, 1) + 0x1_0000 * byte_of32(x, 2)
            + 0x100_0000 * byte_of32(x, 3),
{
    assert(x == x % 0x100 + 0x100 * (x / 0x100 % 0x100) + 0x1_0000 * (x / 0x1_0000 % 0x100)
        + 0x100_0000 * (x / 0x100_0000 % 0x100)) by (bit_vector);
}

/// The bytes of the number joined from `b[o]` to `b[o + 3]` are those bytes.
pub proof fn lemma_join_split32(b: Seq<u8>, o: int)
    requires
        0 <= o,
        o + 4 <= b.len(),
    ensures
        forall|j: int| 0 <= j < 4 ==> #[trigger] byte_of32(join32(b, o), j) == b[o + j],
{
    let b0: u8 = b[o];
    let b1: u8 = b[o + 1];
    let b2: u8 = b[o + 2];
    let b3: u8 = b[o + 3];
    let x: u32 = join32(b, o);
    assert(x % 0x100 == b0 && x / 0x100 % 0x100 == b1 && x / 0x1_0000 % 0x100 == b2
        && x / 0x100_0000 % 0x100 == b3) by (bit_vector)
        requires
            x == b0 + 0x100 * b1 + 0x1_0000 * b2 + 0x100_0000 * b3,
    ;
}

/// The four bytes of `x`, lowest first.
pub(crate) fn split32(x: u32) -> (b: [u8; 4])
    ensures
        forall|j: int| 0 <= j < 4 ==> #[trigger] b@[j] == byte_of32(x, j),
{
    [
        (x % 0x100) as u8,
        (x / 0x100 % 0x100) as u8,
        (x / 0x1_0000 % 0x100) as u8,
        (x / 0x100_0000 % 0x100) as u8,
    ]
}

/// The number that the four bytes of `b` from place `o` on hold, lowest first.
pub(crate) fn join32_at(b: &[u8; 16], o: usize) -> (x: u32)
    requires
        o + 4 <= 16,
    ensures
        x == join32(b@, o as int),
{
    b[o] as u32 + 0x100 * (b[o + 1] as u32) + 0x1_0000 * (b[o + 2] as u32)
        + 0x100_0000 * (b[o + 3] as u32)
}

/// Little-endian byte `j` (0 to 7) of a 64-bit number.
pub open spec fn byte_of64(x: u64, j: int) -> u8 {
    (if j == 0 {
        x % 0x100
    } else if j == 1 {
        x / 0x100 % 0x100
    } else if j == 2 {
        x / 0x1_0000 % 0x100
    } else if j == 3 {
        x / 0x100_0000 % 0x100
    } else if j == 4 {
        x / 0x1_0000_0000 % 0x100
    } else if j == 5 {
        x / 0x100_0000_0000 % 0x100
    } else if j == 6 {
        x / 0x1_0000_0000_0000 % 0x100
    } else {
        x / 0x100_0000_0000_0000 % 0x100
    }) as u8
}

/// The 64-bit number whose little-endian bytes are `b[o]` to `b[o + 7]`.
pub open spec fn join64(b: Seq<u8>, o: int) -> u64 {
    (b[o] + 0x100 * b[o + 1] + 0x1_0000 * b[o + 2] + 0x100_0000 * b[o + 3]
        + 0x1_0000_0000 * b[o + 4] + 0x100_0000_0000 * b[o + 5] + 0x1_0000_0000_0000 * b[o + 6]
        + 0x100_0000_0000_0000 * b[o + 7]) as u64
}

/// A 64-bit number is the sum of its bytes, each at its weight.
pub proof fn lemma_split_join64(x: u64)
    ensures
        x == byte_of64(x, 0) + 0x100 * byte_of64(x, 1) + 0x1_0000 * byte_of64(x, 2)
            + 0x100_0000 * byte_of64(x, 3) + 0x1_0000_0000 * byte_of64(x, 4)
            + 0x100_0000_0000 * byte_of64(x, 5) + 0x1_0000_0000_0000 * byte_of64(x, 6)
            + 0x100_0000_0000_0000 * byte_of64(x, 7),
{
    assert(x == x % 0x100 + 0x100 * (x / 0x100 % 0x100) + 0x1_0000 * (x / 0x1_0000 % 0x100)
        + 0x100_0000 * (x / 0x100_0000 % 0x100) + 0x1_0000_0000 * (x / 0x1_0000_0000 % 0x100)
        + 0x100_0000_0000 * (x / 0x100_0000_0000 % 0x100)
        + 0x1_0000_0000_0000 * (x / 0x1_0000_0000_0000 % 0x100)
        + 0x100_0000_0000_0000 * (x / 0x100_0000_0000_0000 % 0x100)) by (bit_vector);
}

/// The bytes of the number joined from `b[o]` to `b[o + 7]` are those bytes.
pub proof fn lemma_join_split64(b: Seq<u8>, o: int)
    requires
        0 <= o,
        o + 8 <= b.len(),
    ensures
        forall|j: int| 0 <= j < 8 ==> #[trigger] byte_of64(join64(b, o), j) == b[o + j],
{
    let b0: u8 = b[o];
    let b1: u8 = b[o + 1];
    let b2: u8 = b[o + 2];
    let b3: u8 = b[o + 3];
    let b4: u8 = b[o + 4];
    let b5: u8 = b[o + 5];
    let b6: u8 = b[o + 6];
    let b7: u8 = b[o + 7];
    let x: u64 = join64(b, o);
    assert(x % 0x100 == b0 && x / 0x100 % 0x100 == b1 && x / 0x1_0000 % 0x100 == b2
        && x / 0x100_0000 % 0x100 == b3 && x / 0x1_0000_0000 % 0x100 == b4
        && x / 0x100_0000_0000 % 0x100 == b5 && x / 0x1_0000_0000_0000 % 0x100 == b6
        && x / 0x100_0000_0000_0000 % 0x100 == b7) by (bit_vector)
        requires
            x == b0 + 0x100 * b1 + 0x1_0000 * b2 + 0x100_0000 * b3 + 0x1_0000_0000 * b4
                + 0x100_0000_0000 * b5 + 0x1_0000_0000_0000 * b6 + 0x100_0000_0000_0000 * b7,
    ;
}

/// The eight bytes of `x`, lowest first.
pub(crate) fn split64(x: u64) -> (b: [u8; 8])
    ensures
        forall|j: int| 0 <= j < 8 ==> #[trigger] b@[j] == byte_of64(x, j),
{
    [
        (x % 0x100) as u8,
        (x / 0x100 % 0x100) as u8,
        (x / 0x1_0000 % 0x100) as u8,
        (x / 0x100_0000 % 0x100) as u8,
        (x / 0x1_0000_0000 % 0x100) as u8,
        (x / 0x100_0000_0000 % 0x100) as u8,
        (x / 0x1_0000_0000_0000 % 0x100) as u8,
        (x / 0x100_0000_0000_0000 % 0x100) as u8,
    ]
}

/// The number that the eight bytes of `b` from place `o` on hold, lowest first.
pub(crate) fn join64_at(b: &[u8; 16], o: usize) -> (x: u64)
    requires
        o + 8 <= 16,
    ensures
        x == join64(b@, o as int),
{
    b[o] as u64 + 0x100 * (b[o + 1] as u64) + 0x1_0000 * (b[o + 2] as u64)
        + 0x100_0000 * (b[o + 3] as u64) + 0x1_0000_0000 * (b[o + 4] as u64)
        + 0x100_0000_0000 * (b[o + 5] as u64) + 0x1_0000_0000_0000 * (b[o + 6] as u64)
        + 0x100_0000_0000_0000 * (b[o + 7] as u64)
}

/// The 8-bit two's-complement number that `x` wraps to.
pub open spec fn wrap8(x: int) -> i8 {
    signed8((x % 0x100) as u8)
}

/// The 16-bit two's-complement number that `x` wraps to.
pub open spec fn wrap16(x: int) -> i16 {
    signed16((x % 0x1_0000) as u16)
}

/// The 32-bit two's-complement number that `x` wraps to.
pub open spec fn wrap32(x: int) -> i32 {
    signed32((x % 0x1_0000_0000) as u32)
}

/// The 64-bit two's-complement number that `x` wraps to.
pub open spec fn wrap64(x: int) -> i64 {
    signed64((x % 0x1_0000_0000_0000_0000) as u64)
}

/// The `i8` nearest to `x`.
pub open spec fn sat_i8(x: int) -> i8 {
    if x > i8::MAX {
        i8::MAX
    } else if x < i8::MIN {
        i8::MIN
    } else {
        x as i8
    }
}

/// The `i16` nearest to `x`.
pub open spec fn sat_i16(x: int) -> i16 {
    if x > i16::MAX {
        i16::MAX
    } else if x < i16::MIN {
        i16::MIN
    } else {
        x as i16
    }
}

/// The `u8` nearest to `x`.
pub open spec fn sat_u8(x: int) -> u8 {
    if x > u8::MAX {
        u8::MAX
    } else if x < 0 {
        0u8
    } else {
        x as u8
    }
}

/// The `u16` nearest to `x`.
pub open spec fn sat_u16(x: int) -> u16 {
    if x > u16::MAX {
        u16::MAX
    } else if x < 0 {
        0u16
    } else {
        x as u16
    }
}

/// The `i8` nearest to `x`.
pub(crate) fn saturate_i8(x: i16) -> (r: i8)
    ensures
        r == sat_i8(x as int),
{
    if x > 0x7F {
        0x7F
    } else if x < -0x80 {
        -0x80
    } else {
        x as i8
    }
}

/// The `u8` nearest to `x`.
pub(crate) fn saturate_u8(x: i16) -> (r: u8)
    ensures
        r == sat_u8(x as int),
{
    if x > 0xFF {
        0xFF
    } else if x < 0 {
        0
    } else {
        x as u8
    }
}

/// The `i16` nearest to `x`.
pub(crate) fn saturate_i16(x: i32) -> (r: i16)
    ensures
        r == sat_i16(x as int),
{
    if x > 0x7FFF {
        0x7FFF
    } else if x < -0x8000 {
        -0x8000
    } else {
        x as i16
    }
}

/// The `u16` nearest to `x`.
pub(crate) fn saturate_u16(x: i32) -> (r: u16)
    ensures
        r == sat_u16(x as int),
{
    if x > 0xFFFF {
        0xFFFF
    } else if x < 0 {
        0
    } else {
        x as u16
    }
}

} // verus!
