//! XYZ tag type (ICC.1:2022 section 10.31): an array of XYZNumbers.

use vstd::prelude::*;

use super::{corrupted, result_is, SpecParse};
use crate::icc::error::IccError;
use crate::icc::bytes::be_i32;
use crate::icc::types::{read_xyz_at, xyz_at, S15Fixed16, XyzNumber};

verus! {

/// XYZ tag data - contains one or more XYZ values
#[derive(Debug, Clone)]
pub struct XyzTagData {
    /// XYZ values stored in the tag
    pub values: Vec<XyzNumber>,
}

impl View for XyzTagData {
    type V = Seq<XyzNumber>;

    open spec fn view(&self) -> Seq<XyzNumber> {
        self.values@
    }
}

/// Parsing an XYZ tag body: one XYZNumber per whole 12 bytes; fewer than 12 bytes fail.
pub open spec fn xyz_tag_spec(data: Seq<u8>) -> SpecParse<Seq<XyzNumber>> {
    if data.len() < 12 {
        SpecParse::Failed("XYZ tag too small"@)
    } else {
        SpecParse::Parsed(Seq::new(data.len() / 12, |i: int| xyz_at(data, 12 * i)))
    }
}

impl XyzTagData {
    /// Parses XYZ data from the tag body (after type signature and reserved bytes).
    pub fn parse(data: &[u8]) -> (r: Result<Self, IccError>)
        ensures
            result_is(r, xyz_tag_spec(data@)),
    {
        if data.len() < 12 {
            return Err(corrupted("XYZ tag too small"));
        }
        let len = data.len();
        let count = len / 12;
        let mut values: Vec<XyzNumber> = Vec::new();
        let mut i: usize = 0;
        while i < count
            invariant
                count == data@.len() / 12,
                len == data@.len(),
                i <= count,
                values@.len() == i,
                forall|j: int| 0 <= j < i ==> values@[j] == xyz_at(data@, 12 * j),
            decreases count - i,
        {
            assert(12 * i + 12 <= 12 * count) by (nonlinear_arith)
                requires
                    i < count,
            ;
            assert(12 * count <= data@.len()) by (nonlinear_arith)
                requires
                    count == data@.len() / 12,
            ;
            values.push(read_xyz_at(data, 12 * i));
            i = i + 1;
        }
        let r = XyzTagData { values };
        assert(r@ =~= Seq::new(data@.len() / 12, |i: int| xyz_at(data@, 12 * i)));
        Ok(r)
    }

    /// The first XYZ value, if any.
    pub fn first(&self) -> (r: Option<&XyzNumber>)
        ensures
            self.values@.len() == 0 ==> r is None,
            self.values@.len() > 0 ==> r == Some(&self.values@[0]),
    {
        if self.values.len() == 0 {
            None
        } else {
            Some(&self.values[0])
        }
    }
}

/// An XYZ tag body holds one XYZNumber per whole 12 bytes: value `k` has X, Y and Z at bytes
/// 12k, 12k + 4 and 12k + 8.
pub proof fn xyz_values_are_twelve_bytes_apart(data: Seq<u8>, k: int)
    requires
        data.len() >= 12,
        0 <= k < data.len() / 12,
    ensures
        xyz_tag_spec(data) is Parsed,
        xyz_tag_spec(data)->Parsed_0.len() == data.len() / 12,
        xyz_tag_spec(data)->Parsed_0[k].x == S15Fixed16(be_i32(data, 12 * k)),
        xyz_tag_spec(data)->Parsed_0[k].y == S15Fixed16(be_i32(data, 12 * k + 4)),
        xyz_tag_spec(data)->Parsed_0[k].z == S15Fixed16(be_i32(data, 12 * k + 8)),
{
}

} // verus!
