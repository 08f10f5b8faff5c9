//! Little-endian integers and byte-string comparison.

use vstd::prelude::*;

verus! {

/// The unsigned 16-bit integer whose little-endian encoding starts at `at`.
pub open spec fn le_u16(s: Seq<u8>, at: int) -> int {
    s[at] as int + 256 * (s[at + 1] as int)
}

/// The unsigned 64-bit integer that eight bytes encode, least significant
/// byte first.
pub open spec fn le_u64(s: Seq<u8>) -> int {
    s[0] as int
        + 0x100 * (s[1] as int)
        + 0x1_0000 * (s[2] as int)
        + 0x100_0000 * (s[3] as int)
        + 0x1_0000_0000 * (s[4] as int)
        + 0x100_0000_0000 * (s[5] as int)
        + 0x1_0000_0000_0000 * (s[6] as int)
        + 0x100_0000_0000_0000 * (s[7] as int)
}

/// The signed 64-bit integer that eight bytes encode in two's complement,
/// least significant byte first.
pub open spec fn le_i64(s: Seq<u8>) -> int {
    if le_u64(s) < 0x8000_0000_0000_0000 {
        le_u64(s)
    } else {
        le_u64(s) - 0x1_0000_0000_0000_0000
    }
}

/// Decodes an unsigned 64-bit little-endian integer.
pub fn read_u64_le(bytes: &[u8]) -> (value: u64)
    requires
        bytes@.len() == 8,
    ensures
        value == le_u64(bytes@),
{
    let b0: u64 = bytes[0] as u64;
    let b1: u64 = bytes[1] as u64;
    let b2: u64 = bytes[2] as u64;
    let b3: u64 = bytes[3] as u64;
    let b4: u64 = bytes[4] as u64;
    let b5: u64 = bytes[5] as u64;
    let b6: u64 = bytes[6] as u64;
    let b7: u64 = bytes[7] as u64;
    b0 + 0x100 * b1 + 0x1_0000 * b2 + 0x100_0000 * b3 + 0x1_0000_0000 * b4 + 0x100_0000_0000 * b5
        + 0x1_0000_0000_0000 * b6 + 0x100_0000_0000_0000 * b7
}

/// Decodes a signed 64-bit little-endian integer.
pub fn read_i64_le(bytes: &[u8]) -> (value: i64)
    requires
        bytes@.len() == 8,
    ensures
        value == le_i64(bytes@),
{
    let raw: u64 = read_u64_le(bytes);
    if raw < 0x8000_0000_0000_0000 {
        raw as i64
    } else {
        let low: u64 = raw - 0x8000_0000_0000_0000;
        i64::MIN + (low as i64)
    }
}

/// Whether two byte strings are the same: equal lengths and equal bytes.
pub fn bytes_eq(a: &[u8], b: &[u8]) -> (same: bool)
    ensures
        same == (a@ == b@),
{
    if a.len() != b.len() {
        return false;
    }
    let mut i: usize = 0;
    while i < a.len()
        invariant
            a@.len() == b@.len(),
            i <= a@.len(),
            forall|j: int| 0 <= j < i ==> a@[j] == b@[j],
        decreases a@.len() - i,
    {
        if a[i] != b[i] {
            return false;
        }
        i = i + 1;
    }
    assert(a@ =~= b@);
    true
}

} // verus!
