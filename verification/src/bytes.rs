//! Reading byte strings: comparison, fixed-size copies and little-endian
//! numbers.

use vstd::prelude::*;

verus! {

/// The two bytes of `data` at `at`, read as a little-endian number.
pub open spec fn le_u16_at(data: Seq<u8>, at: int) -> int {
    data[at] + 256 * data[at + 1]
}

/// The four bytes of `data` at `at`, read as a little-endian number.
pub open spec fn le_u32_at(data: Seq<u8>, at: int) -> int {
    data[at] + 256 * data[at + 1] + 65536 * data[at + 2] + 16777216 * data[at + 3]
}

/// The eight bytes of `data` at `at`, read as a little-endian number.
pub open spec fn le_u64_at(data: Seq<u8>, at: int) -> int {
    data[at] + 256 * data[at + 1] + 65536 * data[at + 2] + 16777216 * data[at + 3]
        + 4294967296 * data[at + 4] + 1099511627776 * data[at + 5]
        + 281474976710656 * data[at + 6] + 72057594037927936 * data[at + 7]
}

/// Compares two byte strings.
pub fn bytes_equal(a: &[u8], b: &[u8]) -> (same: bool)
    ensures
        same == (a@ == b@),
{
    if a.len() != b.len() {
        return false;
    }
    let mut i: usize = 0;
    while i < a.len()
        invariant
            i <= a.len(),
            a.len() == b.len(),
            forall|k: int| 0 <= k < i ==> a@[k] == b@[k],
        decreases a.len() - i,
    {
        if a[i] != b[i] {
            return false;
        }
        i += 1;
    }
    assert(a@ =~= b@);
    true
}

/// Copies the `N` bytes of `data` at `at`.
pub fn read_array<const N: usize>(data: &[u8], at: usize) -> (out: [u8; N])
    requires
        at + N <= data.len(),
    ensures
        out@ == data@.subrange(at as int, at + N),
{
    let mut out = [0u8; N];
    let mut i: usize = 0;
    while i < N
        invariant
            i <= N,
            at + N <= data.len(),
            forall|k: int| 0 <= k < i ==> out@[k] == data@[at + k],
        decreases N - i,
    {
        out[i] = data[at + i];
        i += 1;
    }
    assert(out@ =~= data@.subrange(at as int, at + N));
    out
}

/// Reads a little-endian `u16`.
pub fn read_u16_le(data: &[u8], at: usize) -> (value: u16)
    requires
        at + 2 <= data.len(),
    ensures
        value == le_u16_at(data@, at as int),
{
    let low: u16 = data[at] as u16;
    let high: u16 = data[at + 1] as u16;
    low + 256 * high
}

/// Reads a little-endian `u32`.
pub fn read_u32_le(data: &[u8], at: usize) -> (value: u32)
    requires
        at + 4 <= data.len(),
    ensures
        value == le_u32_at(data@, at as int),
{
    let b3: u32 = data[at + 3] as u32;
    let b2: u32 = data[at + 2] as u32 + 256 * b3;
    let b1: u32 = data[at + 1] as u32 + 256 * b2;
    data[at] as u32 + 256 * b1
}

/// Reads a little-endian `u64`.
pub fn read_u64_le(data: &[u8], at: usize) -> (value: u64)
    requires
        at + 8 <= data.len(),
    ensures
        value == le_u64_at(data@, at as int),
{
    let b7: u64 = data[at + 7] as u64;
    let b6: u64 = data[at + 6] as u64 + 256 * b7;
    let b5: u64 = data[at + 5] as u64 + 256 * b6;
    let b4: u64 = data[at + 4] as u64 + 256 * b5;
    let b3: u64 = data[at + 3] as u64 + 256 * b4;
    let b2: u64 = data[at + 2] as u64 + 256 * b3;
    let b1: u64 = data[at + 1] as u64 + 256 * b2;
    data[at] as u64 + 256 * b1
}

} // verus!
