//! ICC tag data (ICC.1:2022 sections 9 and 10).
//!
//! Each tag holds a 4-byte type signature, 4 reserved bytes, then type-specific data.

pub mod curves;
pub mod lut;
pub mod text;
pub mod xyz;

pub use curves::{CurveData, ParametricCurveData};
pub use lut::{CurveSegment, Lut16Data, Lut8Data, LutAToBData, LutBToAData, LutClut, LutMatrix};
pub use text::TextData;
pub use xyz::XyzTagData;

use vstd::prelude::*;

use crate::icc::bytes::{be_u32, read_u32_be};
use crate::icc::error::IccError;
use crate::icc::header::slice_range;
use crate::icc::types::S15Fixed16;
use curves::{curve_spec, parametric_curve_spec, CurveModel};
use lut::{
    lut16_spec, lut8_spec, lut_ab_spec, matrix3_at, matrix3_view, read_matrix3, LutABModel,
    Lut16Model, Lut8Model,
};
use text::{desc_spec, mluc_spec, text_spec, TextModel};
use xyz::xyz_tag_spec;

verus! {

/// What parsing a tag's bytes comes to: a value, a failure with its message, or an abort
/// (inputs on which the parse is not defined because it would index out of range or overflow).
pub ghost enum SpecParse<T> {
    Parsed(T),
    Failed(Seq<char>),
    Aborted,
}

/// `r` is the executable counterpart of the outcome `s`: a value whose view is the parsed
/// model, or a `CorruptedData` error carrying the failure message.
pub open spec fn result_is<T: View>(r: Result<T, IccError>, s: SpecParse<T::V>) -> bool {
    match r {
        Ok(v) => s == SpecParse::<T::V>::Parsed(v@),
        Err(e) => e matches IccError::CorruptedData(m) && s == SpecParse::<T::V>::Failed(m@),
    }
}

/// `r` is the outcome of a parse whose outcome on the bytes is `s`, where a parse that would
/// read out of range or overflow is reported as corrupted data with message `abort_msg`.
pub open spec fn settles<T: View>(r: Result<T, IccError>, s: SpecParse<T::V>, abort_msg: Seq<char>) -> bool {
    match s {
        SpecParse::Aborted => r matches Err(e) && e matches IccError::CorruptedData(m) && m@
            == abort_msg,
        _ => result_is(r, s),
    }
}

/// A `CorruptedData` error with the given message.
pub fn corrupted(msg: &str) -> (e: IccError)
    ensures
        e matches IccError::CorruptedData(m) && m@ == msg@,
{
    let mut s = String::new();
    s.append(msg);
    IccError::CorruptedData(s)
}

/// Parsed tag data
#[derive(Debug, Clone)]
pub enum TagData {
    /// XYZ type data (colorants, white point)
    Xyz(XyzTagData),
    /// Curve type (TRC)
    Curve(CurveData),
    /// Parametric curve type
    ParametricCurve(ParametricCurveData),
    /// Text description
    Text(TextData),
    /// Multi-localized Unicode text
    MultiLocalizedUnicode(TextData),
    /// 8-bit LUT
    Lut8(Lut8Data),
    /// 16-bit LUT
    Lut16(Lut16Data),
    /// LUT A to B
    LutAToB(LutAToBData),
    /// LUT B to A
    LutBToA(LutBToAData),
    /// Chromatic adaptation matrix (sf32), as s15Fixed16 numbers
    ChromaticAdaptation([[S15Fixed16; 3]; 3]),
    /// Unknown/unsupported tag type: its type signature and all of its bytes
    Unknown { type_sig: u32, data: Vec<u8> },
}

/// The model of parsed tag data.
pub ghost enum TagModel {
    Xyz(Seq<crate::icc::types::XyzNumber>),
    Curve(CurveModel),
    ParametricCurve(ParametricCurveData),
    Text(TextModel),
    MultiLocalizedUnicode(TextModel),
    Lut8(Lut8Model),
    Lut16(Lut16Model),
    LutAToB(LutABModel),
    LutBToA(LutABModel),
    ChromaticAdaptation(Seq<Seq<S15Fixed16>>),
    Unknown { type_sig: u32, data: Seq<u8> },
}

impl View for TagData {
    type V = TagModel;

    open spec fn view(&self) -> TagModel {
        match self {
            TagData::Xyz(x) => TagModel::Xyz(x@),
            TagData::Curve(c) => TagModel::Curve(c@),
            TagData::ParametricCurve(p) => TagModel::ParametricCurve(p@),
            TagData::Text(t) => TagModel::Text(t@),
            TagData::MultiLocalizedUnicode(t) => TagModel::MultiLocalizedUnicode(t@),
            TagData::Lut8(l) => TagModel::Lut8(l@),
            TagData::Lut16(l) => TagModel::Lut16(l@),
            TagData::LutAToB(l) => TagModel::LutAToB(l@),
            TagData::LutBToA(l) => TagModel::LutBToA(l@),
            TagData::ChromaticAdaptation(m) => TagModel::ChromaticAdaptation(matrix3_view(*m)),
            TagData::Unknown { type_sig, data } => TagModel::Unknown {
                type_sig: *type_sig,
                data: data@,
            },
        }
    }
}

/// The outcome `s` with its value passed through `f`.
pub open spec fn lift<T>(s: SpecParse<T>, f: spec_fn(T) -> TagModel) -> SpecParse<TagModel> {
    match s {
        SpecParse::Parsed(v) => SpecParse::Parsed(f(v)),
        SpecParse::Failed(m) => SpecParse::Failed(m),
        SpecParse::Aborted => SpecParse::Aborted,
    }
}

/// Parsing an `sf32` body as a 3x3 matrix.
pub open spec fn sf32_matrix_spec(data: Seq<u8>) -> SpecParse<Seq<Seq<S15Fixed16>>> {
    if data.len() < 36 {
        SpecParse::Failed("sf32 matrix too small"@)
    } else {
        SpecParse::Parsed(matrix3_at(data, 0))
    }
}

/// Parsing a tag's bytes: the type signature selects how the body after the 8-byte header is
/// read; an unknown type keeps all of the bytes.
pub open spec fn tag_spec(data: Seq<u8>) -> SpecParse<TagModel> {
    if data.len() < 8 {
        SpecParse::Failed("Tag data too small for header"@)
    } else {
        let sig = be_u32(data, 0);
        let body = data.skip(8);
        if sig == 0x58595a20 {
            lift(xyz_tag_spec(body), |v| TagModel::Xyz(v))
        } else if sig == 0x63757276 {
            lift(curve_spec(body), |v| TagModel::Curve(v))
        } else if sig == 0x70617261 {
            lift(parametric_curve_spec(body), |v| TagModel::ParametricCurve(v))
        } else if sig == 0x74657874 {
            lift(text_spec(body), |v| TagModel::Text(v))
        } else if sig == 0x64657363 {
            lift(desc_spec(body), |v| TagModel::Text(v))
        } else if sig == 0x6d6c7563 {
            lift(mluc_spec(body), |v| TagModel::MultiLocalizedUnicode(v))
        } else if sig == 0x6d667431 {
            lift(lut8_spec(body), |v| TagModel::Lut8(v))
        } else if sig == 0x6d667432 {
            lift(lut16_spec(body), |v| TagModel::Lut16(v))
        } else if sig == 0x6d414220 {
            lift(lut_ab_spec(body, true), |v| TagModel::LutAToB(v))
        } else if sig == 0x6d424120 {
            lift(lut_ab_spec(body, false), |v| TagModel::LutBToA(v))
        } else if sig == 0x73663332 {
            lift(sf32_matrix_spec(body), |v| TagModel::ChromaticAdaptation(v))
        } else {
            SpecParse::Parsed(TagModel::Unknown { type_sig: sig, data })
        }
    }
}

/// Parses an `sf32` body as a 3x3 matrix.
pub fn parse_sf32_matrix(data: &[u8]) -> (r: Result<[[S15Fixed16; 3]; 3], IccError>)
    ensures
        match r {
            Ok(m) => sf32_matrix_spec(data@) == SpecParse::<Seq<Seq<S15Fixed16>>>::Parsed(
                matrix3_view(m),
            ),
            Err(e) => e matches IccError::CorruptedData(msg) && sf32_matrix_spec(data@)
                == SpecParse::<Seq<Seq<S15Fixed16>>>::Failed(msg@),
        },
{
    if data.len() < 36 {
        return Err(corrupted("sf32 matrix too small"));
    }
    Ok(read_matrix3(data, 0))
}

/// The executable outcome `r` of a body parse, lifted into tag data by `f`, matches the
/// lifted spec outcome.
proof fn lemma_lift<T: View>(
    r: Result<T, IccError>,
    s: SpecParse<T::V>,
    f: spec_fn(T::V) -> TagModel,
    t: Result<TagData, IccError>,
)
    requires
        result_is(r, s),
        r is Ok ==> t is Ok && t->Ok_0@ == f(r->Ok_0@),
        r is Err ==> t == Err::<TagData, IccError>(r->Err_0),
    ensures
        result_is(t, lift(s, f)),
{
}

impl TagData {
    /// Parses tag data; `None` where the parse aborts.
    pub fn parse_checked(data: &[u8], _tag_sig: u32) -> (r: Option<Result<Self, IccError>>)
        ensures
            match r {
                None => tag_spec(data@) is Aborted,
                Some(res) => result_is(res, tag_spec(data@)),
            },
    {
        let len = data.len();
        if len < 8 {
            return Some(Err(corrupted("Tag data too small for header")));
        }
        let sig = read_u32_be(data, 0);
        let body = slice_range(data, 8, len);
        assert(body@ =~= data@.skip(8));
        if sig == 0x58595a20 {
            let r = XyzTagData::parse(body);
            let t = match r {
                Ok(v) => Ok(TagData::Xyz(v)),
                Err(e) => Err(e),
            };
            proof {
                lemma_lift(r, xyz_tag_spec(body@), |v| TagModel::Xyz(v), t);
            }
            Some(t)
        } else if sig == 0x63757276 {
            let r = CurveData::parse(body);
            let t = match r {
                Ok(v) => Ok(TagData::Curve(v)),
                Err(e) => Err(e),
            };
            proof {
                lemma_lift(r, curve_spec(body@), |v| TagModel::Curve(v), t);
            }
            Some(t)
        } else if sig == 0x70617261 {
            let r = ParametricCurveData::parse(body);
            let t = match r {
                Ok(v) => Ok(TagData::ParametricCurve(v)),
                Err(e) => Err(e),
            };
            proof {
                lemma_lift(r, parametric_curve_spec(body@), |v| TagModel::ParametricCurve(v), t);
            }
            Some(t)
        } else if sig == 0x74657874 {
            let r = TextData::parse_text(body);
            let t = match r {
                Ok(v) => Ok(TagData::Text(v)),
                Err(e) => Err(e),
            };
            proof {
                lemma_lift(r, text_spec(body@), |v| TagModel::Text(v), t);
            }
            Some(t)
        } else if sig == 0x64657363 {
            let r = TextData::parse_desc(body);
            let t = match r {
                Ok(v) => Ok(TagData::Text(v)),
                Err(e) => Err(e),
            };
            proof {
                lemma_lift(r, desc_spec(body@), |v| TagModel::Text(v), t);
            }
            Some(t)
        } else if sig == 0x6d6c7563 {
            let r = TextData::parse_mluc(body);
            let t = match r {
                Ok(v) => Ok(TagData::MultiLocalizedUnicode(v)),
                Err(e) => Err(e),
            };
            proof {
                lemma_lift(r, mluc_spec(body@), |v| TagModel::MultiLocalizedUnicode(v), t);
            }
            Some(t)
        } else if sig == 0x6d667431 {
            let r = match Lut8Data::parse_checked(body) {
                Some(r) => r,
                None => return None,
            };
            let t = match r {
                Ok(v) => Ok(TagData::Lut8(v)),
                Err(e) => Err(e),
            };
            proof {
                lemma_lift(r, lut8_spec(body@), |v| TagModel::Lut8(v), t);
            }
            Some(t)
        } else if sig == 0x6d667432 {
            let r = match Lut16Data::parse_checked(body) {
                Some(r) => r,
                None => return None,
            };
            let t = match r {
                Ok(v) => Ok(TagData::Lut16(v)),
                Err(e) => Err(e),
            };
            proof {
                lemma_lift(r, lut16_spec(body@), |v| TagModel::Lut16(v), t);
            }
            Some(t)
        } else if sig == 0x6d414220 {
            let r = match LutAToBData::parse_checked(body) {
                Some(r) => r,
                None => return None,
            };
            let t = match r {
                Ok(v) => Ok(TagData::LutAToB(v)),
                Err(e) => Err(e),
            };
            proof {
                lemma_lift(r, lut_ab_spec(body@, true), |v| TagModel::LutAToB(v), t);
            }
            Some(t)
        } else if sig == 0x6d424120 {
            let r = match LutBToAData::parse_checked(body) {
                Some(r) => r,
                None => return None,
            };
            let t = match r {
                Ok(v) => Ok(TagData::LutBToA(v)),
                Err(e) => Err(e),
            };
            proof {
                lemma_lift(r, lut_ab_spec(body@, false), |v| TagModel::LutBToA(v), t);
            }
            Some(t)
        } else if sig == 0x73663332 {
            let t = match parse_sf32_matrix(body) {
                Ok(m) => Ok(TagData::ChromaticAdaptation(m)),
                Err(e) => Err(e),
            };
            Some(t)
        } else {
            Some(Ok(TagData::Unknown { type_sig: sig, data: vstd::slice::slice_to_vec(data) }))
        }
    }

    /// Parses tag data from a tag's bytes (starting at its offset in the profile).
    pub fn parse(data: &[u8], tag_sig: u32) -> (r: Result<Self, IccError>)
        ensures
            settles(r, tag_spec(data@), "Tag data out of range"@),
    {
        match TagData::parse_checked(data, tag_sig) {
            Some(r) => r,
            None => Err(corrupted("Tag data out of range")),
        }
    }

    /// The XYZ data, if this is an XYZ tag.
    pub fn as_xyz(&self) -> (r: Option<&XyzTagData>)
        ensures
            match self {
                TagData::Xyz(x) => r == Some(x),
                _ => r is None,
            },
    {
        match self {
            TagData::Xyz(xyz) => Some(xyz),
            _ => None,
        }
    }

    /// The curve, if this is a `curv` tag.
    pub fn as_curve(&self) -> (r: Option<&CurveData>)
        ensures
            match self {
                TagData::Curve(c) => r == Some(c),
                _ => r is None,
            },
    {
        match self {
            TagData::Curve(curve) => Some(curve),
            _ => None,
        }
    }

    /// The parametric curve, if this is a `para` tag.
    pub fn as_parametric_curve(&self) -> (r: Option<&ParametricCurveData>)
        ensures
            match self {
                TagData::ParametricCurve(c) => r == Some(c),
                _ => r is None,
            },
    {
        match self {
            TagData::ParametricCurve(curve) => Some(curve),
            _ => None,
        }
    }

    /// The text, if this is a text tag of either kind.
    pub fn as_text(&self) -> (r: Option<&TextData>)
        ensures
            match self {
                TagData::Text(t) => r == Some(t),
                TagData::MultiLocalizedUnicode(t) => r == Some(t),
                _ => r is None,
            },
    {
        match self {
            TagData::Text(text) => Some(text),
            TagData::MultiLocalizedUnicode(text) => Some(text),
            _ => None,
        }
    }

    /// The Lut8 data, if this is an `mft1` tag.
    pub fn as_lut8(&self) -> (r: Option<&Lut8Data>)
        ensures
            match self {
                TagData::Lut8(l) => r == Some(l),
                _ => r is None,
            },
    {
        match self {
            TagData::Lut8(lut) => Some(lut),
            _ => None,
        }
    }

    /// The Lut16 data, if this is an `mft2` tag.
    pub fn as_lut16(&self) -> (r: Option<&Lut16Data>)
        ensures
            match self {
                TagData::Lut16(l) => r == Some(l),
                _ => r is None,
            },
    {
        match self {
            TagData::Lut16(lut) => Some(lut),
            _ => None,
        }
    }

    /// The LutAToB data, if this is an `mAB ` tag.
    pub fn as_lut_a2b(&self) -> (r: Option<&LutAToBData>)
        ensures
            match self {
                TagData::LutAToB(l) => r == Some(l),
                _ => r is None,
            },
    {
        match self {
            TagData::LutAToB(lut) => Some(lut),
            _ => None,
        }
    }

    /// The LutBToA data, if this is an `mBA ` tag.
    pub fn as_lut_b2a(&self) -> (r: Option<&LutBToAData>)
        ensures
            match self {
                TagData::LutBToA(l) => r == Some(l),
                _ => r is None,
            },
    {
        match self {
            TagData::LutBToA(lut) => Some(lut),
            _ => None,
        }
    }

    /// Whether this is any kind of LUT tag.
    pub fn is_lut(&self) -> (r: bool)
        ensures
            r == (self is Lut8 || self is Lut16 || self is LutAToB || self is LutBToA),
    {
        matches!(self, TagData::Lut8(_) | TagData::Lut16(_) | TagData::LutAToB(_) | TagData::LutBToA(_))
    }
}

/// The outcome of a tag parse: the model of the tag, or the message of a corrupted-data error
/// (`None` for any other error).
pub open spec fn tag_outcome(r: Result<TagData, IccError>) -> Result<TagModel, Option<Seq<char>>> {
    match r {
        Ok(t) => Ok(t@),
        Err(IccError::CorruptedData(m)) => Err(Some(m@)),
        Err(_) => Err(None),
    }
}

/// Parsing a tag's bytes: fewer than 8 bytes are corrupted data; a `text` tag holds the text
/// of its body as `TextData::parse_text` reads it; and the outcome depends on the bytes alone,
/// whatever the tag's signature (`r1` and `r2` are two parses of the same bytes).
pub proof fn tag_parse_depends_on_the_bytes(
    data: Seq<u8>,
    r1: Result<TagData, IccError>,
    r2: Result<TagData, IccError>,
)
    requires
        settles(r1, tag_spec(data), "Tag data out of range"@),
        settles(r2, tag_spec(data), "Tag data out of range"@),
    ensures
        data.len() < 8 ==> (r1 matches Err(e) && e matches IccError::CorruptedData(m) && m@
            == "Tag data too small for header"@),
        data.len() >= 8 && be_u32(data, 0) == 0x74657874 ==> (r1 matches Ok(t)
            && text_spec(data.skip(8)) matches SpecParse::Parsed(tm) && t@ == TagModel::Text(tm)),
        tag_outcome(r1) == tag_outcome(r2),
{
}

} // verus!
