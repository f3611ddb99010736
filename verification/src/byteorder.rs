//! Big-endian byte-order arithmetic shared by identifiers and attestations.

use vstd::prelude::*;

verus! {

/// 256 raised to the power `e`, for `0 <= e < 8`.
pub open spec fn pow256(e: int) -> u64 {
    if e <= 0 {
        1
    } else if e == 1 {
        0x100
    } else if e == 2 {
        0x1_0000
    } else if e == 3 {
        0x100_0000
    } else if e == 4 {
        0x1_0000_0000
    } else if e == 5 {
        0x100_0000_0000
    } else if e == 6 {
        0x1_0000_0000_0000
    } else {
        0x100_0000_0000_0000
    }
}

/// The value of an 8-byte big-endian sequence.
pub open spec fn be64_int(s: Seq<u8>) -> int
    recommends
        s.len() == 8,
{
    (s[0] as int) * 0x100_0000_0000_0000 + (s[1] as int) * 0x1_0000_0000_0000 + (s[2] as int)
        * 0x100_0000_0000 + (s[3] as int) * 0x1_0000_0000 + (s[4] as int) * 0x100_0000 + (
    s[5] as int) * 0x1_0000 + (s[6] as int) * 0x100 + (s[7] as int)
}

/// The value of a 4-byte big-endian sequence.
pub open spec fn be32_int(s: Seq<u8>) -> int
    recommends
        s.len() == 4,
{
    (s[0] as int) * 0x100_0000 + (s[1] as int) * 0x1_0000 + (s[2] as int) * 0x100 + (s[3] as int)
}

/// Byte `j` of a 64-bit word in big-endian order; byte 0 is the most
/// significant.
pub open spec fn be_byte(w: u64, j: int) -> u8
    recommends
        0 <= j < 8,
{
    (((w as int) / (pow256(7 - j) as int)) % 256) as u8
}

/// Power-of-256 table lookup.
pub fn pow256_at(e: u64) -> (p: u64)
    requires
        e < 8,
    ensures
        p == pow256(e as int),
        p >= 1,
{
    if e == 0 {
        1
    } else if e == 1 {
        0x100
    } else if e == 2 {
        0x1_0000
    } else if e == 3 {
        0x100_0000
    } else if e == 4 {
        0x1_0000_0000
    } else if e == 5 {
        0x100_0000_0000
    } else if e == 6 {
        0x1_0000_0000_0000
    } else {
        0x100_0000_0000_0000
    }
}

/// Extracts byte `j` of `w` in big-endian order.
pub fn be_byte_at(w: u64, j: u64) -> (b: u8)
    requires
        j < 8,
    ensures
        b == be_byte(w, j as int),
{
    let p = pow256_at(7 - j);
    ((w / p) % 256) as u8
}

/// Reads the 8-byte big-endian word at `off` out of a 32-byte buffer.
pub fn be64_of_array32(bytes: &[u8; 32], off: usize) -> (w: u64)
    requires
        off + 8 <= 32,
    ensures
        w as int == be64_int(bytes@.subrange(off as int, off as int + 8)),
{
    let w: u64 = (bytes[off] as u64) * 0x100_0000_0000_0000 + (bytes[off + 1] as u64)
        * 0x1_0000_0000_0000 + (bytes[off + 2] as u64) * 0x100_0000_0000 + (bytes[off + 3] as u64)
        * 0x1_0000_0000 + (bytes[off + 4] as u64) * 0x100_0000 + (bytes[off + 5] as u64) * 0x1_0000
        + (bytes[off + 6] as u64) * 0x100 + (bytes[off + 7] as u64);
    w
}

/// Reads the 8-byte big-endian word at `off` out of a byte vector.
pub fn be64_of_vec(bytes: &Vec<u8>, off: usize) -> (w: u64)
    requires
        off + 8 <= bytes@.len(),
    ensures
        w as int == be64_int(bytes@.subrange(off as int, off as int + 8)),
{
    let n = bytes.len();
    assert(off + 8 <= n);
    let w: u64 = (bytes[off] as u64) * 0x100_0000_0000_0000 + (bytes[off + 1] as u64)
        * 0x1_0000_0000_0000 + (bytes[off + 2] as u64) * 0x100_0000_0000 + (bytes[off + 3] as u64)
        * 0x1_0000_0000 + (bytes[off + 4] as u64) * 0x100_0000 + (bytes[off + 5] as u64) * 0x1_0000
        + (bytes[off + 6] as u64) * 0x100 + (bytes[off + 7] as u64);
    w
}

/// Reads the 4-byte big-endian word at `off` out of a byte vector.
pub fn be32_of_vec(bytes: &Vec<u8>, off: usize) -> (w: u32)
    requires
        off + 4 <= bytes@.len(),
    ensures
        w as int == be32_int(bytes@.subrange(off as int, off as int + 4)),
{
    let n = bytes.len();
    assert(off + 4 <= n);
    let w: u32 = (bytes[off] as u32) * 0x100_0000 + (bytes[off + 1] as u32) * 0x1_0000 + (bytes[off
        + 2] as u32) * 0x100 + (bytes[off + 3] as u32);
    w
}

/// Byte-wise comparison of two byte vectors.
pub fn bytes_eq(a: &Vec<u8>, b: &Vec<u8>) -> (r: bool)
    ensures
        r == (a@ == b@),
{
    if a.len() != b.len() {
        return false;
    }
    let mut i: usize = 0;
    while i < a.len()
        invariant
            i <= a@.len(),
            a@.len() == b@.len(),
            forall|j: int| 0 <= j < i ==> a@[j] == b@[j],
        decreases a@.len() - i,
    {
        if a[i] != b[i] {
            return false;
        }
        i += 1;
    }
    proof {
        assert(a@ =~= b@);
    }
    true
}

} // verus!
