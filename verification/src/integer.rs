//! Integers as bytes, low byte first.

use vstd::prelude::*;

verus! {

/// The two bytes of a 16-bit integer, low byte first.
pub open spec fn spec_u16_le(x: u16) -> Seq<u8> {
    seq![(x % 256) as u8, (x / 256) as u8]
}

/// The four bytes of a 32-bit integer, low byte first.
pub open spec fn spec_u32_le(x: u32) -> Seq<u8> {
    seq![
        (x % 256) as u8,
        (x / 256 % 256) as u8,
        (x / 256 / 256 % 256) as u8,
        (x / 256 / 256 / 256) as u8,
    ]
}

/// The eight bytes of a 64-bit integer, low byte first.
pub open spec fn spec_u64_le(x: u64) -> Seq<u8> {
    seq![
        (x % 256) as u8,
        (x / 256 % 256) as u8,
        (x / 256 / 256 % 256) as u8,
        (x / 256 / 256 / 256 % 256) as u8,
        (x / 256 / 256 / 256 / 256 % 256) as u8,
        (x / 256 / 256 / 256 / 256 / 256 % 256) as u8,
        (x / 256 / 256 / 256 / 256 / 256 / 256 % 256) as u8,
        (x / 256 / 256 / 256 / 256 / 256 / 256 / 256) as u8,
    ]
}

/// The integer that two bytes stand for.
pub open spec fn spec_u16_from_le(bytes: Seq<u8>) -> int {
    bytes[0] + 256 * bytes[1]
}

/// The integer that four bytes stand for.
pub open spec fn spec_u32_from_le(bytes: Seq<u8>) -> int {
    bytes[0] + 256 * (bytes[1] + 256 * (bytes[2] + 256 * bytes[3]))
}

/// The integer that eight bytes stand for.
pub open spec fn spec_u64_from_le(bytes: Seq<u8>) -> int {
    bytes[0] + 256 * (bytes[1] + 256 * (bytes[2] + 256 * (bytes[3] + 256 * (bytes[4] + 256 * (
    bytes[5] + 256 * (bytes[6] + 256 * bytes[7]))))))
}

/// The bytes of a 16-bit integer stand for it, and two bytes are the bytes
/// of the integer they stand for.
pub proof fn lemma_u16_le(x: u16, bytes: Seq<u8>)
    ensures
        spec_u16_le(x).len() == 2,
        spec_u16_from_le(spec_u16_le(x)) == x,
        bytes.len() == 2 ==> 0 <= spec_u16_from_le(bytes) <= u16::MAX && spec_u16_le(
            spec_u16_from_le(bytes) as u16,
        ) == bytes,
{
    if bytes.len() == 2 {
        assert(spec_u16_le(spec_u16_from_le(bytes) as u16) =~= bytes);
    }
}

/// The bytes of a 32-bit integer stand for it, and four bytes are the bytes
/// of the integer they stand for.
pub proof fn lemma_u32_le(x: u32, bytes: Seq<u8>)
    ensures
        spec_u32_le(x).len() == 4,
        spec_u32_from_le(spec_u32_le(x)) == x,
        bytes.len() == 4 ==> 0 <= spec_u32_from_le(bytes) <= u32::MAX && spec_u32_le(
            spec_u32_from_le(bytes) as u32,
        ) == bytes,
{
    let q1 = x / 256;
    let q2 = q1 / 256;
    let q3 = q2 / 256;
    assert(x == x % 256 + 256 * q1);
    assert(q1 == q1 % 256 + 256 * q2);
    assert(q2 == q2 % 256 + 256 * q3);
    assert(q3 < 256);
    if bytes.len() == 4 {
        let h3: int = bytes[3] as int;
        let h2: int = bytes[2] + 256 * h3;
        let h1: int = bytes[1] + 256 * h2;
        let h0: int = bytes[0] + 256 * h1;
        assert(h0 == spec_u32_from_le(bytes));
        assert(h2 / 256 == h3 && h2 % 256 == bytes[2]);
        assert(h1 / 256 == h2 && h1 % 256 == bytes[1]);
        assert(h0 / 256 == h1 && h0 % 256 == bytes[0]);
        assert(0 <= h0 <= u32::MAX);
        assert(spec_u32_le(h0 as u32) =~= bytes);
    }
}

/// The bytes of a 64-bit integer stand for it, and eight bytes are the bytes
/// of the integer they stand for.
pub proof fn lemma_u64_le(x: u64, bytes: Seq<u8>)
    ensures
        spec_u64_le(x).len() == 8,
        spec_u64_from_le(spec_u64_le(x)) == x,
        bytes.len() == 8 ==> 0 <= spec_u64_from_le(bytes) <= u64::MAX && spec_u64_le(
            spec_u64_from_le(bytes) as u64,
        ) == bytes,
{
    let q1 = x / 256;
    let q2 = q1 / 256;
    let q3 = q2 / 256;
    let q4 = q3 / 256;
    let q5 = q4 / 256;
    let q6 = q5 / 256;
    let q7 = q6 / 256;
    assert(x == x % 256 + 256 * q1);
    assert(q1 == q1 % 256 + 256 * q2);
    assert(q2 == q2 % 256 + 256 * q3);
    assert(q3 == q3 % 256 + 256 * q4);
    assert(q4 == q4 % 256 + 256 * q5);
    assert(q5 == q5 % 256 + 256 * q6);
    assert(q6 == q6 % 256 + 256 * q7);
    assert(q7 < 256);
    if bytes.len() == 8 {
        let h7: int = bytes[7] as int;
        let h6: int = bytes[6] + 256 * h7;
        let h5: int = bytes[5] + 256 * h6;
        let h4: int = bytes[4] + 256 * h5;
        let h3: int = bytes[3] + 256 * h4;
        let h2: int = bytes[2] + 256 * h3;
        let h1: int = bytes[1] + 256 * h2;
        let h0: int = bytes[0] + 256 * h1;
        assert(h0 == spec_u64_from_le(bytes));
        assert(h6 / 256 == h7 && h6 % 256 == bytes[6]);
        assert(h5 / 256 == h6 && h5 % 256 == bytes[5]);
        assert(h4 / 256 == h5 && h4 % 256 == bytes[4]);
        assert(h3 / 256 == h4 && h3 % 256 == bytes[3]);
        assert(h2 / 256 == h3 && h2 % 256 == bytes[2]);
        assert(h1 / 256 == h2 && h1 % 256 == bytes[1]);
        assert(h0 / 256 == h1 && h0 % 256 == bytes[0]);
        assert(0 <= h0 <= u64::MAX);
        assert(spec_u64_le(h0 as u64) =~= bytes);
    }
}

/// 16-bit integers with the same bytes are the same.
pub proof fn lemma_u16_le_injective(a: u16, b: u16)
    requires
        spec_u16_le(a) == spec_u16_le(b),
    ensures
        a == b,
{
    lemma_u16_le(a, Seq::empty());
    lemma_u16_le(b, Seq::empty());
}

/// 32-bit integers with the same bytes are the same.
pub proof fn lemma_u32_le_injective(a: u32, b: u32)
    requires
        spec_u32_le(a) == spec_u32_le(b),
    ensures
        a == b,
{
    lemma_u32_le(a, Seq::empty());
    lemma_u32_le(b, Seq::empty());
}

/// 64-bit integers with the same bytes are the same.
pub proof fn lemma_u64_le_injective(a: u64, b: u64)
    requires
        spec_u64_le(a) == spec_u64_le(b),
    ensures
        a == b,
{
    lemma_u64_le(a, Seq::empty());
    lemma_u64_le(b, Seq::empty());
}

/// Writes a 16-bit integer as two bytes, low byte first.
pub fn u16_to_le(x: u16) -> (bytes: Vec<u8>)
    ensures
        bytes@ == spec_u16_le(x),
{
    let mut bytes: Vec<u8> = Vec::new();
    bytes.push((x % 256) as u8);
    bytes.push((x / 256) as u8);
    assert(bytes@ =~= spec_u16_le(x));
    bytes
}

/// Writes a 32-bit integer as four bytes, low byte first.
pub fn u32_to_le(x: u32) -> (bytes: Vec<u8>)
    ensures
        bytes@ == spec_u32_le(x),
{
    let mut bytes: Vec<u8> = Vec::new();
    proof {
        lemma_u32_le(x, Seq::empty());
    }
    bytes.push((x % 256) as u8);
    bytes.push((x / 256 % 256) as u8);
    bytes.push((x / 256 / 256 % 256) as u8);
    bytes.push((x / 256 / 256 / 256) as u8);
    assert(bytes@ =~= spec_u32_le(x));
    bytes
}

/// Writes a 64-bit integer as eight bytes, low byte first.
pub fn u64_to_le(x: u64) -> (bytes: Vec<u8>)
    ensures
        bytes@ == spec_u64_le(x),
{
    let mut bytes: Vec<u8> = Vec::new();
    proof {
        lemma_u64_le(x, Seq::empty());
    }
    bytes.push((x % 256) as u8);
    bytes.push((x / 256 % 256) as u8);
    bytes.push((x / 256 / 256 % 256) as u8);
    bytes.push((x / 256 / 256 / 256 % 256) as u8);
    bytes.push((x / 256 / 256 / 256 / 256 % 256) as u8);
    bytes.push((x / 256 / 256 / 256 / 256 / 256 % 256) as u8);
    bytes.push((x / 256 / 256 / 256 / 256 / 256 / 256 % 256) as u8);
    bytes.push((x / 256 / 256 / 256 / 256 / 256 / 256 / 256) as u8);
    assert(bytes@ =~= spec_u64_le(x));
    bytes
}

/// Reads a 16-bit integer from its two bytes: the integer whose bytes
/// these are. Bytes of any other number are not read.
pub fn u16_from_le(bytes: &[u8]) -> (r: Option<u16>)
    ensures
        r is Some <==> bytes@.len() == 2,
        r matches Some(x) ==> x == spec_u16_from_le(bytes@) && spec_u16_le(x) == bytes@,
{
    if bytes.len() != 2 {
        return None;
    }
    proof {
        lemma_u16_le(0, bytes@);
    }
    let b0: u16 = bytes[0] as u16;
    let b1: u16 = bytes[1] as u16;
    Some(b0 + 256 * b1)
}

/// Reads a 32-bit integer from its four bytes: the integer whose bytes
/// these are. Bytes of any other number are not read.
pub fn u32_from_le(bytes: &[u8]) -> (r: Option<u32>)
    ensures
        r is Some <==> bytes@.len() == 4,
        r matches Some(x) ==> x == spec_u32_from_le(bytes@) && spec_u32_le(x) == bytes@,
{
    if bytes.len() != 4 {
        return None;
    }
    proof {
        lemma_u32_le(0, bytes@);
    }
    let b0: u32 = bytes[0] as u32;
    let b1: u32 = bytes[1] as u32;
    let b2: u32 = bytes[2] as u32;
    let b3: u32 = bytes[3] as u32;
    let h2: u32 = b2 + 256 * b3;
    let h1: u32 = b1 + 256 * h2;
    Some(b0 + 256 * h1)
}

/// Reads a 64-bit integer from its eight bytes: the integer whose bytes
/// these are. Bytes of any other number are not read.
pub fn u64_from_le(bytes: &[u8]) -> (r: Option<u64>)
    ensures
        r is Some <==> bytes@.len() == 8,
        r matches Some(x) ==> x == spec_u64_from_le(bytes@) && spec_u64_le(x) == bytes@,
{
    if bytes.len() != 8 {
        return None;
    }
    proof {
        lemma_u64_le(0, bytes@);
    }
    let b0: u64 = bytes[0] as u64;
    let b1: u64 = bytes[1] as u64;
    let b2: u64 = bytes[2] as u64;
    let b3: u64 = bytes[3] as u64;
    let b4: u64 = bytes[4] as u64;
    let b5: u64 = bytes[5] as u64;
    let b6: u64 = bytes[6] as u64;
    let b7: u64 = bytes[7] as u64;
    let h6: u64 = b6 + 256 * b7;
    let h5: u64 = b5 + 256 * h6;
    let h4: u64 = b4 + 256 * h5;
    let h3: u64 = b3 + 256 * h4;
    let h2: u64 = b2 + 256 * h3;
    let h1: u64 = b1 + 256 * h2;
    Some(b0 + 256 * h1)
}

} // verus!
