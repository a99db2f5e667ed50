//! Curve tag types (ICC.1:2022 sections 10.6 `curv` and 10.18 `para`).

use vstd::prelude::*;

use super::{corrupted, result_is, SpecParse};
use crate::icc::bytes::{be_i32, be_u16, be_u32, read_i32_be, read_u16_be, read_u32_be};
use crate::icc::error::IccError;
use crate::icc::types::{S15Fixed16, U8Fixed8};
use crate::math::gamma::{parametric_curve_type_of, ParametricCurveType};
use crate::numfmt::{decimal, push_decimal};

verus! {

/// Curve tag data (curv type)
#[derive(Debug, Clone)]
pub enum CurveData {
    /// Identity curve (count = 0)
    Identity,
    /// Simple gamma (count = 1, value is u8Fixed8)
    Gamma(U8Fixed8),
    /// Lookup table (count > 1, values are u16)
    Table(Vec<u16>),
}

/// The model of a `curv` tag.
pub ghost enum CurveModel {
    Identity,
    Gamma(U8Fixed8),
    Table(Seq<u16>),
}

impl View for CurveData {
    type V = CurveModel;

    open spec fn view(&self) -> CurveModel {
        match self {
            CurveData::Identity => CurveModel::Identity,
            CurveData::Gamma(g) => CurveModel::Gamma(*g),
            CurveData::Table(t) => CurveModel::Table(t@),
        }
    }
}

/// The `n` big-endian u16 values starting at `data[start]`.
pub open spec fn be_u16_table(data: Seq<u8>, start: int, n: nat) -> Seq<u16> {
    Seq::new(n, |i: int| be_u16(data, start + 2 * i))
}

/// Parsing a `curv` tag body: an entry count, then nothing (identity), one u8Fixed8 gamma,
/// or a table of that many u16 entries.
pub open spec fn curve_spec(data: Seq<u8>) -> SpecParse<CurveModel> {
    if data.len() < 4 {
        SpecParse::Failed("Curve tag too small"@)
    } else if be_u32(data, 0) == 0 {
        SpecParse::Parsed(CurveModel::Identity)
    } else if be_u32(data, 0) == 1 {
        if data.len() < 6 {
            SpecParse::Failed("Curve gamma value missing"@)
        } else {
            SpecParse::Parsed(CurveModel::Gamma(U8Fixed8(be_u16(data, 4))))
        }
    } else if data.len() < 4 + 2 * be_u32(data, 0) {
        SpecParse::Failed(
            "Curve table too small: need "@ + decimal((4 + 2 * be_u32(data, 0)) as nat)
                + " bytes, have "@ + decimal(data.len()),
        )
    } else {
        SpecParse::Parsed(CurveModel::Table(be_u16_table(data, 4, be_u32(data, 0) as nat)))
    }
}

/// Reads `n` big-endian u16 values starting at `data[start]`.
pub fn read_u16_table(data: &[u8], start: usize, n: usize) -> (r: Vec<u16>)
    requires
        start + 2 * n <= data@.len(),
    ensures
        r@ == be_u16_table(data@, start as int, n as nat),
{
    let len = data.len();
    let mut table: Vec<u16> = Vec::new();
    let mut i: usize = 0;
    while i < n
        invariant
            start + 2 * n <= data@.len(),
            len == data@.len(),
            i <= n,
            table@.len() == i,
            forall|j: int| 0 <= j < i ==> table@[j] == be_u16(data@, start + 2 * j),
        decreases n - i,
    {
        table.push(read_u16_be(data, start + 2 * i));
        i = i + 1;
    }
    assert(table@ =~= be_u16_table(data@, start as int, n as nat));
    table
}

impl CurveData {
    /// Parses curve data from the tag body (after type signature and reserved bytes).
    pub fn parse(data: &[u8]) -> (r: Result<Self, IccError>)
        ensures
            result_is(r, curve_spec(data@)),
    {
        if data.len() < 4 {
            return Err(corrupted("Curve tag too small"));
        }
        let count = read_u32_be(data, 0);
        if count == 0 {
            Ok(CurveData::Identity)
        } else if count == 1 {
            if data.len() < 6 {
                return Err(corrupted("Curve gamma value missing"));
            }
            Ok(CurveData::Gamma(U8Fixed8(read_u16_be(data, 4))))
        } else {
            let required: u64 = 4 + 2 * (count as u64);
            if (data.len() as u64) < required {
                let mut msg = String::new();
                msg.append("Curve table too small: need ");
                push_decimal(&mut msg, required);
                msg.append(" bytes, have ");
                push_decimal(&mut msg, data.len() as u64);
                return Err(IccError::CorruptedData(msg));
            }
            Ok(CurveData::Table(read_u16_table(data, 4, count as usize)))
        }
    }
}

/// Parametric curve data (para type): the function type and its parameters g, a, b, c, d, e, f
/// as s15Fixed16 numbers (parameters the tag does not hold are zero).
#[derive(Debug, Clone, Copy)]
pub struct ParametricCurveData {
    pub curve_type: ParametricCurveType,
    pub g: S15Fixed16,
    pub a: S15Fixed16,
    pub b: S15Fixed16,
    pub c: S15Fixed16,
    pub d: S15Fixed16,
    pub e: S15Fixed16,
    pub f: S15Fixed16,
}

impl View for ParametricCurveData {
    type V = ParametricCurveData;

    open spec fn view(&self) -> ParametricCurveData {
        *self
    }
}

/// The s15Fixed16 parameter at byte `off` of a `para` body, or zero past its end.
pub open spec fn para_param(data: Seq<u8>, off: int) -> S15Fixed16 {
    if data.len() < off + 4 {
        S15Fixed16(0)
    } else {
        S15Fixed16(be_i32(data, off))
    }
}

/// Parsing a `para` tag body: a u16 function type (0 to 4), two reserved bytes, then the
/// parameters.
pub open spec fn parametric_curve_spec(data: Seq<u8>) -> SpecParse<ParametricCurveData> {
    if data.len() < 4 {
        SpecParse::Failed("Parametric curve too small"@)
    } else {
        match parametric_curve_type_of(be_u16(data, 0)) {
            None => SpecParse::Failed(
                "Unknown parametric curve type: "@ + decimal(be_u16(data, 0) as nat),
            ),
            Some(t) => SpecParse::Parsed(
                ParametricCurveData {
                    curve_type: t,
                    g: para_param(data, 4),
                    a: para_param(data, 8),
                    b: para_param(data, 12),
                    c: para_param(data, 16),
                    d: para_param(data, 20),
                    e: para_param(data, 24),
                    f: para_param(data, 28),
                },
            ),
        }
    }
}

fn read_para_param(data: &[u8], off: usize) -> (r: S15Fixed16)
    requires
        off <= 28,
    ensures
        r == para_param(data@, off as int),
{
    if data.len() < off + 4 {
        S15Fixed16(0)
    } else {
        S15Fixed16(read_i32_be(data, off))
    }
}

impl ParametricCurveData {
    /// Parses a parametric curve from the tag body (after type signature and reserved bytes).
    pub fn parse(data: &[u8]) -> (r: Result<Self, IccError>)
        ensures
            result_is(r, parametric_curve_spec(data@)),
    {
        if data.len() < 4 {
            return Err(corrupted("Parametric curve too small"));
        }
        let func_type = read_u16_be(data, 0);
        let curve_type = match ParametricCurveType::from_icc(func_type) {
            Some(t) => t,
            None => {
                let mut msg = String::new();
                msg.append("Unknown parametric curve type: ");
                push_decimal(&mut msg, func_type as u64);
                return Err(IccError::CorruptedData(msg));
            },
        };
        Ok(
            ParametricCurveData {
                curve_type,
                g: read_para_param(data, 4),
                a: read_para_param(data, 8),
                b: read_para_param(data, 12),
                c: read_para_param(data, 16),
                d: read_para_param(data, 20),
                e: read_para_param(data, 24),
                f: read_para_param(data, 28),
            },
        )
    }
}

/// A `curv` body with `n` entries (the u32 at byte 0): none is the identity, one is the
/// u8Fixed8 gamma in bytes 4..6, and more are that many big-endian 16-bit table entries from
/// byte 4 (entry `k` in bytes 4 + 2k and 5 + 2k), given the bytes for them.
pub proof fn curve_entries_follow_the_count(data: Seq<u8>, k: int)
    requires
        data.len() >= 4,
    ensures
        be_u32(data, 0) == 0 ==> curve_spec(data) == SpecParse::Parsed(CurveModel::Identity),
        be_u32(data, 0) == 1 && data.len() >= 6 ==> curve_spec(data) == SpecParse::Parsed(
            CurveModel::Gamma(U8Fixed8(be_u16(data, 4))),
        ),
        be_u32(data, 0) >= 2 && data.len() >= 4 + 2 * be_u32(data, 0) ==> (curve_spec(
            data,
        ) matches SpecParse::Parsed(CurveModel::Table(t)) && t.len() == be_u32(data, 0) && (0
            <= k < t.len() ==> t[k] as int == data[4 + 2 * k] as int * 256 + data[5 + 2 * k] as int)),
{
    if be_u32(data, 0) >= 2 && data.len() >= 4 + 2 * be_u32(data, 0) && 0 <= k < be_u32(data, 0) {
        let a = data[4 + 2 * k] as int;
        let b = data[5 + 2 * k] as int;
        assert(0 <= a * 256 + b <= 65535);
    }
}

} // verus!
