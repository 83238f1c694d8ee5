//! Little-endian integer readers and byte-range helpers over byte vectors.
//! The wire formats handled by this crate are bit-exact contracts, so each
//! reader has a spec-level twin that the executable reader is proved against.

use vstd::prelude::*;

verus! {

/// The unsigned 16-bit little-endian value stored at `i` in `s`.
pub open spec fn u16_le(s: Seq<u8>, i: int) -> u16
    recommends
        0 <= i,
        i + 2 <= s.len(),
{
    (s[i] + s[i + 1] * 0x100) as u16
}

/// The unsigned 64-bit little-endian value stored at `i` in `s`.
pub open spec fn u64_le(s: Seq<u8>, i: int) -> u64
    recommends
        0 <= i,
        i + 8 <= s.len(),
{
    (s[i]
        + s[i + 1] * 0x100
        + s[i + 2] * 0x1_0000
        + s[i + 3] * 0x100_0000
        + s[i + 4] * 0x1_0000_0000
        + s[i + 5] * 0x100_0000_0000
        + s[i + 6] * 0x1_0000_0000_0000
        + s[i + 7] * 0x100_0000_0000_0000) as u64
}

/// Reads the unsigned 16-bit little-endian value at `i`.
pub fn read_u16_le(s: &Vec<u8>, i: usize) -> (r: u16)
    requires
        i + 2 <= s@.len(),
    ensures
        r == u16_le(s@, i as int),
{
    let n: usize = s.len();
    assert(i + 2 <= n);
    let lo: u16 = s[i] as u16;
    let hi: u16 = s[i + 1] as u16;
    lo + hi * 0x100
}

/// Reads the unsigned 64-bit little-endian value at `i`.
pub fn read_u64_le(s: &Vec<u8>, i: usize) -> (r: u64)
    requires
        i + 8 <= s@.len(),
    ensures
        r == u64_le(s@, i as int),
{
    let n: usize = s.len();
    assert(i + 8 <= n);
    let b0: u64 = s[i] as u64;
    let b1: u64 = s[i + 1] as u64;
    let b2: u64 = s[i + 2] as u64;
    let b3: u64 = s[i + 3] as u64;
    let b4: u64 = s[i + 4] as u64;
    let b5: u64 = s[i + 5] as u64;
    let b6: u64 = s[i + 6] as u64;
    let b7: u64 = s[i + 7] as u64;
    b0 + b1 * 0x100 + b2 * 0x1_0000 + b3 * 0x100_0000 + b4 * 0x1_0000_0000
        + b5 * 0x100_0000_0000 + b6 * 0x1_0000_0000_0000 + b7 * 0x100_0000_0000_0000
}

/// Copies the `len` bytes of `src` that start at `start` into a fresh vector.
pub fn copy_range(src: &Vec<u8>, start: usize, len: usize) -> (r: Vec<u8>)
    requires
        start + len <= src@.len(),
    ensures
        r@ == src@.subrange(start as int, start + len),
{
    let n: usize = src.len();
    let mut r: Vec<u8> = Vec::new();
    let mut i: usize = 0;
    while i < len
        invariant
            start + len <= n,
            n == src@.len(),
            i <= len,
            r@ == src@.subrange(start as int, start + i),
        decreases len - i,
    {
        r.push(src[start + i]);
        assert(r@ == src@.subrange(start as int, start + i + 1));
        i = i + 1;
    }
    r
}

/// Compares two byte vectors for equality of their contents.
pub fn bytes_eq(a: &Vec<u8>, b: &Vec<u8>) -> (r: bool)
    ensures
        r <==> a@ == b@,
{
    if a.len() != b.len() {
        assert(a@ !~= b@);
        return false;
    }
    let n = a.len();
    let mut i: usize = 0;
    while i < n
        invariant
            n == a@.len(),
            n == b@.len(),
            i <= n,
            forall|j: int| 0 <= j < i ==> a@[j] == b@[j],
        decreases n - i,
    {
        if a[i] != b[i] {
            assert(a@ != b@);
            return false;
        }
        i = i + 1;
    }
    assert(a@ =~= b@);
    true
}

} // verus!
