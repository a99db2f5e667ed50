//! Big-endian integer fields of an ICC byte stream, as the format defines them.

use vstd::prelude::*;

verus! {

/// The big-endian unsigned 16-bit value stored at `s[i..i + 2]`.
pub open spec fn be_u16(s: Seq<u8>, i: int) -> u16 {
    (s[i] as int * 256 + s[i + 1] as int) as u16
}

/// The big-endian unsigned 32-bit value stored at `s[i..i + 4]`.
pub open spec fn be_u32(s: Seq<u8>, i: int) -> u32 {
    (s[i] as int * 16777216 + s[i + 1] as int * 65536 + s[i + 2] as int * 256
        + s[i + 3] as int) as u32
}

/// The big-endian two's-complement 32-bit value stored at `s[i..i + 4]`.
pub open spec fn be_i32(s: Seq<u8>, i: int) -> i32 {
    be_u32(s, i) as i32
}

/// The big-endian unsigned 64-bit value stored at `s[i..i + 8]`.
pub open spec fn be_u64(s: Seq<u8>, i: int) -> u64 {
    (be_u32(s, i) as int * 4294967296 + be_u32(s, i + 4) as int) as u64
}

/// Reads the big-endian `u16` at `data[i..i + 2]`.
pub fn read_u16_be(data: &[u8], i: usize) -> (r: u16)
    requires
        i + 2 <= data@.len(),
    ensures
        r == be_u16(data@, i as int),
{
    (data[i] as u16) * 256 + (data[i + 1] as u16)
}

/// Reads the big-endian `u32` at `data[i..i + 4]`.
pub fn read_u32_be(data: &[u8], i: usize) -> (r: u32)
    requires
        i + 4 <= data@.len(),
    ensures
        r == be_u32(data@, i as int),
{
    (data[i] as u32) * 16777216 + (data[i + 1] as u32) * 65536 + (data[i + 2] as u32) * 256
        + (data[i + 3] as u32)
}

/// Reads the big-endian `i32` at `data[i..i + 4]`.
pub fn read_i32_be(data: &[u8], i: usize) -> (r: i32)
    requires
        i + 4 <= data@.len(),
    ensures
        r == be_i32(data@, i as int),
{
    let u = read_u32_be(data, i);
    u as i32
}

/// Reads the big-endian `u64` at `data[i..i + 8]`.
pub fn read_u64_be(data: &[u8], i: usize) -> (r: u64)
    requires
        i + 8 <= data@.len(),
    ensures
        r == be_u64(data@, i as int),
{
    let _len = data.len();
    let hi = read_u32_be(data, i);
    let lo = read_u32_be(data, i + 4);
    (hi as u64) * 4294967296 + (lo as u64)
}

} // verus!
