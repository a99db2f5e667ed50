//! Basic ICC number and signature types (ICC.1:2022 section 4).

use vstd::prelude::*;

use super::bytes::{be_i32, be_u16, be_u32, read_i32_be, read_u16_be};
use super::header::four_cc;

verus! {

/// What `String::from_utf8_lossy` yields for a byte sequence.
pub uninterp spec fn utf8_lossy(bytes: Seq<u8>) -> Seq<char>;

/// The characters of a sequence of ASCII bytes, one per byte.
pub open spec fn ascii_chars(bytes: Seq<u8>) -> Seq<char> {
    bytes.map_values(|b: u8| b as char)
}

/// Wraps `String::from_utf8_lossy`: the result is `utf8_lossy` of the bytes, and bytes that
/// are all ASCII come back as the same characters one for one (ASCII is valid UTF-8 and
/// decodes to itself).
#[verifier::external_body]
fn string_from_utf8_lossy(bytes: &[u8]) -> (r: String)
    ensures
        r@ == utf8_lossy(bytes@),
        (forall|i: int| 0 <= i < bytes@.len() ==> bytes@[i] < 128) ==> r@ == ascii_chars(bytes@),
{
    String::from_utf8_lossy(bytes).into_owned()
}

/// The four big-endian bytes of `v`.
pub open spec fn u32_be_bytes(v: u32) -> Seq<u8> {
    seq![
        (v as int / 16777216) as u8,
        ((v as int / 65536) % 256) as u8,
        ((v as int / 256) % 256) as u8,
        (v as int % 256) as u8,
    ]
}

/// ICC tag signature (a four-character code).
#[derive(Debug, Clone, Copy, PartialEq, Eq, Hash)]
pub struct TagSignature(pub u32);

impl TagSignature {
    /// Creates a signature from its four ASCII characters.
    pub fn from_bytes(b: [u8; 4]) -> (r: Self)
        ensures
            r.0 == be_u32(b@, 0),
    {
        let s: &[u8] = &b;
        TagSignature(super::bytes::read_u32_be(s, 0))
    }

    /// The signature's four bytes, decoded as UTF-8 with invalid sequences replaced.
    pub fn to_string(&self) -> (r: String)
        ensures
            r@ == utf8_lossy(u32_be_bytes(self.0)),
            (forall|i: int| 0 <= i < 4 ==> u32_be_bytes(self.0)[i] < 128) ==> r@ == ascii_chars(
                u32_be_bytes(self.0),
            ),
    {
        let v = self.0;
        let bytes: [u8; 4] = [
            (v / 16777216) as u8,
            ((v / 65536) % 256) as u8,
            ((v / 256) % 256) as u8,
            (v % 256) as u8,
        ];
        assert(bytes@ =~= u32_be_bytes(v));
        string_from_utf8_lossy(&bytes)
    }

    /// The signature 'A2B0' (0x41324230).
    pub fn a2b0() -> (r: TagSignature)
        ensures
            r.0 == four_cc(seq!['A', '2', 'B', '0']),
    {
        TagSignature(0x41324230)
    }
    /// The signature 'A2B1' (0x41324231).
    pub fn a2b1() -> (r: TagSignature)
        ensures
            r.0 == four_cc(seq!['A', '2', 'B', '1']),
    {
        TagSignature(0x41324231)
    }
    /// The signature 'A2B2' (0x41324232).
    pub fn a2b2() -> (r: TagSignature)
        ensures
            r.0 == four_cc(seq!['A', '2', 'B', '2']),
    {
        TagSignature(0x41324232)
    }
    /// The signature 'B2A0' (0x42324130).
    pub fn b2a0() -> (r: TagSignature)
        ensures
            r.0 == four_cc(seq!['B', '2', 'A', '0']),
    {
        TagSignature(0x42324130)
    }
    /// The signature 'B2A1' (0x42324131).
    pub fn b2a1() -> (r: TagSignature)
        ensures
            r.0 == four_cc(seq!['B', '2', 'A', '1']),
    {
        TagSignature(0x42324131)
    }
    /// The signature 'B2A2' (0x42324132).
    pub fn b2a2() -> (r: TagSignature)
        ensures
            r.0 == four_cc(seq!['B', '2', 'A', '2']),
    {
        TagSignature(0x42324132)
    }
    /// The signature 'bXYZ' (0x6258595a).
    pub fn blue_colorant() -> (r: TagSignature)
        ensures
            r.0 == four_cc(seq!['b', 'X', 'Y', 'Z']),
    {
        TagSignature(0x6258595a)
    }
    /// The signature 'bTRC' (0x62545243).
    pub fn blue_trc() -> (r: TagSignature)
        ensures
            r.0 == four_cc(seq!['b', 'T', 'R', 'C']),
    {
        TagSignature(0x62545243)
    }
    /// The signature 'chad' (0x63686164).
    pub fn chad() -> (r: TagSignature)
        ensures
            r.0 == four_cc(seq!['c', 'h', 'a', 'd']),
    {
        TagSignature(0x63686164)
    }
    /// The signature 'cprt' (0x63707274).
    pub fn copyright() -> (r: TagSignature)
        ensures
            r.0 == four_cc(seq!['c', 'p', 'r', 't']),
    {
        TagSignature(0x63707274)
    }
    /// The signature 'desc' (0x64657363).
    pub fn desc() -> (r: TagSignature)
        ensures
            r.0 == four_cc(seq!['d', 'e', 's', 'c']),
    {
        TagSignature(0x64657363)
    }
    /// The signature 'dmdd' (0x646d6464).
    pub fn dmdd() -> (r: TagSignature)
        ensures
            r.0 == four_cc(seq!['d', 'm', 'd', 'd']),
    {
        TagSignature(0x646d6464)
    }
    /// The signature 'dmnd' (0x646d6e64).
    pub fn dmnd() -> (r: TagSignature)
        ensures
            r.0 == four_cc(seq!['d', 'm', 'n', 'd']),
    {
        TagSignature(0x646d6e64)
    }
    /// The signature 'gamt' (0x67616d74).
    pub fn gamut() -> (r: TagSignature)
        ensures
            r.0 == four_cc(seq!['g', 'a', 'm', 't']),
    {
        TagSignature(0x67616d74)
    }
    /// The signature 'kTRC' (0x6b545243).
    pub fn gray_trc() -> (r: TagSignature)
        ensures
            r.0 == four_cc(seq!['k', 'T', 'R', 'C']),
    {
        TagSignature(0x6b545243)
    }
    /// The signature 'gXYZ' (0x6758595a).
    pub fn green_colorant() -> (r: TagSignature)
        ensures
            r.0 == four_cc(seq!['g', 'X', 'Y', 'Z']),
    {
        TagSignature(0x6758595a)
    }
    /// The signature 'gTRC' (0x67545243).
    pub fn green_trc() -> (r: TagSignature)
        ensures
            r.0 == four_cc(seq!['g', 'T', 'R', 'C']),
    {
        TagSignature(0x67545243)
    }
    /// The signature 'lumi' (0x6c756d69).
    pub fn luminance() -> (r: TagSignature)
        ensures
            r.0 == four_cc(seq!['l', 'u', 'm', 'i']),
    {
        TagSignature(0x6c756d69)
    }
    /// The signature 'wtpt' (0x77747074).
    pub fn media_white() -> (r: TagSignature)
        ensures
            r.0 == four_cc(seq!['w', 't', 'p', 't']),
    {
        TagSignature(0x77747074)
    }
    /// The signature 'bkpt' (0x626b7074).
    pub fn media_black() -> (r: TagSignature)
        ensures
            r.0 == four_cc(seq!['b', 'k', 'p', 't']),
    {
        TagSignature(0x626b7074)
    }
    /// The signature 'pre0' (0x70726530).
    pub fn preview0() -> (r: TagSignature)
        ensures
            r.0 == four_cc(seq!['p', 'r', 'e', '0']),
    {
        TagSignature(0x70726530)
    }
    /// The signature 'pre1' (0x70726531).
    pub fn preview1() -> (r: TagSignature)
        ensures
            r.0 == four_cc(seq!['p', 'r', 'e', '1']),
    {
        TagSignature(0x70726531)
    }
    /// The signature 'pre2' (0x70726532).
    pub fn preview2() -> (r: TagSignature)
        ensures
            r.0 == four_cc(seq!['p', 'r', 'e', '2']),
    {
        TagSignature(0x70726532)
    }
    /// The signature 'desc' (0x64657363).
    pub fn profile_desc() -> (r: TagSignature)
        ensures
            r.0 == four_cc(seq!['d', 'e', 's', 'c']),
    {
        TagSignature(0x64657363)
    }
    /// The signature 'rXYZ' (0x7258595a).
    pub fn red_colorant() -> (r: TagSignature)
        ensures
            r.0 == four_cc(seq!['r', 'X', 'Y', 'Z']),
    {
        TagSignature(0x7258595a)
    }
    /// The signature 'rTRC' (0x72545243).
    pub fn red_trc() -> (r: TagSignature)
        ensures
            r.0 == four_cc(seq!['r', 'T', 'R', 'C']),
    {
        TagSignature(0x72545243)
    }
    /// The signature 'tech' (0x74656368).
    pub fn tech() -> (r: TagSignature)
        ensures
            r.0 == four_cc(seq!['t', 'e', 'c', 'h']),
    {
        TagSignature(0x74656368)
    }
    /// The signature 'vued' (0x76756564).
    pub fn view_cond_desc() -> (r: TagSignature)
        ensures
            r.0 == four_cc(seq!['v', 'u', 'e', 'd']),
    {
        TagSignature(0x76756564)
    }
    /// The signature 'view' (0x76696577).
    pub fn view_cond() -> (r: TagSignature)
        ensures
            r.0 == four_cc(seq!['v', 'i', 'e', 'w']),
    {
        TagSignature(0x76696577)
    }
}

/// Type signature of ICC tag data.
#[derive(Debug, Clone, Copy, PartialEq, Eq)]
pub struct TypeSignature(pub u32);

impl TypeSignature {
    /// Creates a type signature from its four ASCII characters.
    pub fn from_bytes(b: [u8; 4]) -> (r: Self)
        ensures
            r.0 == be_u32(b@, 0),
    {
        let s: &[u8] = &b;
        TypeSignature(super::bytes::read_u32_be(s, 0))
    }

    /// The signature 'XYZ ' (0x58595a20).
    pub fn xyz() -> (r: TypeSignature)
        ensures
            r.0 == four_cc(seq!['X', 'Y', 'Z', ' ']),
    {
        TypeSignature(0x58595a20)
    }
    /// The signature 'curv' (0x63757276).
    pub fn curve() -> (r: TypeSignature)
        ensures
            r.0 == four_cc(seq!['c', 'u', 'r', 'v']),
    {
        TypeSignature(0x63757276)
    }
    /// The signature 'para' (0x70617261).
    pub fn para() -> (r: TypeSignature)
        ensures
            r.0 == four_cc(seq!['p', 'a', 'r', 'a']),
    {
        TypeSignature(0x70617261)
    }
    /// The signature 'text' (0x74657874).
    pub fn text() -> (r: TypeSignature)
        ensures
            r.0 == four_cc(seq!['t', 'e', 'x', 't']),
    {
        TypeSignature(0x74657874)
    }
    /// The signature 'desc' (0x64657363).
    pub fn desc() -> (r: TypeSignature)
        ensures
            r.0 == four_cc(seq!['d', 'e', 's', 'c']),
    {
        TypeSignature(0x64657363)
    }
    /// The signature 'mluc' (0x6d6c7563).
    pub fn mluc() -> (r: TypeSignature)
        ensures
            r.0 == four_cc(seq!['m', 'l', 'u', 'c']),
    {
        TypeSignature(0x6d6c7563)
    }
    /// The signature 'mft1' (0x6d667431).
    pub fn lut8() -> (r: TypeSignature)
        ensures
            r.0 == four_cc(seq!['m', 'f', 't', '1']),
    {
        TypeSignature(0x6d667431)
    }
    /// The signature 'mft2' (0x6d667432).
    pub fn lut16() -> (r: TypeSignature)
        ensures
            r.0 == four_cc(seq!['m', 'f', 't', '2']),
    {
        TypeSignature(0x6d667432)
    }
    /// The signature 'mAB ' (0x6d414220).
    pub fn luta2b() -> (r: TypeSignature)
        ensures
            r.0 == four_cc(seq!['m', 'A', 'B', ' ']),
    {
        TypeSignature(0x6d414220)
    }
    /// The signature 'mBA ' (0x6d424120).
    pub fn lutb2a() -> (r: TypeSignature)
        ensures
            r.0 == four_cc(seq!['m', 'B', 'A', ' ']),
    {
        TypeSignature(0x6d424120)
    }
    /// The signature 'sf32' (0x73663332).
    pub fn sf32() -> (r: TypeSignature)
        ensures
            r.0 == four_cc(seq!['s', 'f', '3', '2']),
    {
        TypeSignature(0x73663332)
    }
    /// The signature 'sf32' (0x73663332).
    pub fn chad() -> (r: TypeSignature)
        ensures
            r.0 == four_cc(seq!['s', 'f', '3', '2']),
    {
        TypeSignature(0x73663332)
    }
    /// The signature 'sig ' (0x73696720).
    pub fn sig() -> (r: TypeSignature)
        ensures
            r.0 == four_cc(seq!['s', 'i', 'g', ' ']),
    {
        TypeSignature(0x73696720)
    }
}

/// s15Fixed16Number: signed 16.16 fixed point, held by its raw 32-bit value.
#[derive(Debug, Clone, Copy, PartialEq, Eq, Default)]
pub struct S15Fixed16(pub i32);

impl S15Fixed16 {
    /// Creates a value from its raw representation.
    pub fn from_raw(raw: i32) -> (r: Self)
        ensures
            r.0 == raw,
    {
        S15Fixed16(raw)
    }

    /// Parses a value from its four big-endian bytes.
    pub fn from_be_bytes(bytes: [u8; 4]) -> (r: Self)
        ensures
            r.0 == be_i32(bytes@, 0),
    {
        let s: &[u8] = &bytes;
        S15Fixed16(read_i32_be(s, 0))
    }
}

/// u16Fixed16Number: unsigned 16.16 fixed point, held by its raw 32-bit value.
#[derive(Debug, Clone, Copy, PartialEq, Eq, Default)]
pub struct U16Fixed16(pub u32);

impl U16Fixed16 {
    /// Creates a value from its raw representation.
    pub fn from_raw(raw: u32) -> (r: Self)
        ensures
            r.0 == raw,
    {
        U16Fixed16(raw)
    }

    /// Parses a value from its four big-endian bytes.
    pub fn from_be_bytes(bytes: [u8; 4]) -> (r: Self)
        ensures
            r.0 == be_u32(bytes@, 0),
    {
        let s: &[u8] = &bytes;
        U16Fixed16(super::bytes::read_u32_be(s, 0))
    }
}

/// u8Fixed8Number: unsigned 8.8 fixed point, held by its raw 16-bit value.
#[derive(Debug, Clone, Copy, PartialEq, Eq, Default)]
pub struct U8Fixed8(pub u16);

impl U8Fixed8 {
    /// Parses a value from its two big-endian bytes.
    pub fn from_be_bytes(bytes: [u8; 2]) -> (r: Self)
        ensures
            r.0 == be_u16(bytes@, 0),
    {
        let s: &[u8] = &bytes;
        U8Fixed8(read_u16_be(s, 0))
    }
}

/// XYZNumber: three s15Fixed16 values.
#[derive(Debug, Clone, Copy, PartialEq, Default)]
pub struct XyzNumber {
    pub x: S15Fixed16,
    pub y: S15Fixed16,
    pub z: S15Fixed16,
}

/// The XYZNumber stored at `s[i..i + 12]`.
pub open spec fn xyz_at(s: Seq<u8>, i: int) -> XyzNumber {
    XyzNumber {
        x: S15Fixed16(be_i32(s, i)),
        y: S15Fixed16(be_i32(s, i + 4)),
        z: S15Fixed16(be_i32(s, i + 8)),
    }
}

/// Reads the XYZNumber at `data[i..i + 12]`.
pub fn read_xyz_at(data: &[u8], i: usize) -> (r: XyzNumber)
    requires
        i + 12 <= data@.len(),
    ensures
        r == xyz_at(data@, i as int),
{
    let _len = data.len();
    XyzNumber {
        x: S15Fixed16(read_i32_be(data, i)),
        y: S15Fixed16(read_i32_be(data, i + 4)),
        z: S15Fixed16(read_i32_be(data, i + 8)),
    }
}

impl XyzNumber {
    /// Parses an XYZNumber from the first 12 bytes; `None` when fewer than 12 are given.
    pub fn from_bytes(bytes: &[u8]) -> (r: Option<Self>)
        ensures
            bytes@.len() < 12 ==> r is None,
            bytes@.len() >= 12 ==> r == Some(xyz_at(bytes@, 0)),
    {
        if bytes.len() < 12 {
            return None;
        }
        Some(read_xyz_at(bytes, 0))
    }
}

/// dateTimeNumber: six big-endian u16 fields.
#[derive(Debug, Clone, Copy, PartialEq, Eq, Default)]
pub struct DateTimeNumber {
    pub year: u16,
    pub month: u16,
    pub day: u16,
    pub hour: u16,
    pub minute: u16,
    pub second: u16,
}

/// The dateTimeNumber stored at `s[i..i + 12]`.
pub open spec fn date_time_at(s: Seq<u8>, i: int) -> DateTimeNumber {
    DateTimeNumber {
        year: be_u16(s, i),
        month: be_u16(s, i + 2),
        day: be_u16(s, i + 4),
        hour: be_u16(s, i + 6),
        minute: be_u16(s, i + 8),
        second: be_u16(s, i + 10),
    }
}

impl DateTimeNumber {
    /// Parses a dateTimeNumber from the first 12 bytes; `None` when fewer than 12 are given.
    pub fn from_bytes(bytes: &[u8]) -> (r: Option<Self>)
        ensures
            bytes@.len() < 12 ==> r is None,
            bytes@.len() >= 12 ==> r == Some(date_time_at(bytes@, 0)),
    {
        if bytes.len() < 12 {
            return None;
        }
        Some(
            DateTimeNumber {
                year: read_u16_be(bytes, 0),
                month: read_u16_be(bytes, 2),
                day: read_u16_be(bytes, 4),
                hour: read_u16_be(bytes, 6),
                minute: read_u16_be(bytes, 8),
                second: read_u16_be(bytes, 10),
            },
        )
    }
}

/// Response16Number for device calibration.
#[derive(Debug, Clone, Copy, PartialEq, Default)]
pub struct Response16 {
    pub device: u16,
    pub measurement: S15Fixed16,
}

/// Four bytes put together and taken apart again are the same four bytes.
proof fn lemma_split_join(b0: int, b1: int, b2: int, b3: int)
    requires
        0 <= b0 < 256,
        0 <= b1 < 256,
        0 <= b2 < 256,
        0 <= b3 < 256,
    ensures
        ({
            let x = b0 * 16777216 + b1 * 65536 + b2 * 256 + b3;
            &&& x / 16777216 == b0
            &&& (x / 65536) % 256 == b1
            &&& (x / 256) % 256 == b2
            &&& x % 256 == b3
        }),
{
    let x = b0 * 16777216 + b1 * 65536 + b2 * 256 + b3;
    assert(x / 16777216 == b0) by (nonlinear_arith)
        requires
            x == b0 * 16777216 + b1 * 65536 + b2 * 256 + b3,
            0 <= b1 * 65536 + b2 * 256 + b3 < 16777216,
    ;
    assert(x / 65536 == b0 * 256 + b1) by (nonlinear_arith)
        requires
            x == (b0 * 256 + b1) * 65536 + b2 * 256 + b3,
            0 <= b2 * 256 + b3 < 65536,
    ;
    assert((b0 * 256 + b1) % 256 == b1) by (nonlinear_arith)
        requires
            0 <= b1 < 256,
            0 <= b0,
    ;
    assert(x / 256 == b0 * 65536 + b1 * 256 + b2) by (nonlinear_arith)
        requires
            x == (b0 * 65536 + b1 * 256 + b2) * 256 + b3,
            0 <= b3 < 256,
    ;
    assert((b0 * 65536 + b1 * 256 + b2) % 256 == b2) by (nonlinear_arith)
        requires
            0 <= b2 < 256,
            0 <= b0,
            0 <= b1,
    ;
    assert(x % 256 == b3) by (nonlinear_arith)
        requires
            x == (b0 * 65536 + b1 * 256 + b2) * 256 + b3,
            0 <= b3 < 256,
            0 <= b0,
            0 <= b1,
            0 <= b2,
    ;
}

/// The four bytes of a signature made from four bytes are those bytes: a signature
/// keeps its characters.
pub proof fn signature_bytes_roundtrip(b: Seq<u8>)
    requires
        b.len() == 4,
    ensures
        u32_be_bytes(be_u32(b, 0)) == b,
{
    lemma_split_join(b[0] as int, b[1] as int, b[2] as int, b[3] as int);
    let x = b[0] as int * 16777216 + b[1] as int * 65536 + b[2] as int * 256 + b[3] as int;
    assert(x < 4294967296);
    assert(be_u32(b, 0) as int == x);
    assert(u32_be_bytes(be_u32(b, 0)) =~= b);
}

/// A value read back from its own four big-endian bytes is the same value.
pub proof fn be_bytes_roundtrip(v: u32)
    ensures
        be_u32(u32_be_bytes(v), 0) == v,
{
    let b0 = v as int / 16777216;
    let b1 = (v as int / 65536) % 256;
    let b2 = (v as int / 256) % 256;
    let b3 = v as int % 256;
    assert(v as int == b0 * 16777216 + b1 * 65536 + b2 * 256 + b3 && 0 <= b0 < 256) by (
    nonlinear_arith)
        requires
            0 <= v < 4294967296,
            b0 == v / 16777216,
            b1 == (v / 65536) % 256,
            b2 == (v / 256) % 256,
            b3 == v % 256,
    ;
    let s = u32_be_bytes(v);
    assert(s[0] as int == b0);
    assert(s[1] as int == b1);
    assert(s[2] as int == b2);
    assert(s[3] as int == b3);
}

} // verus!
