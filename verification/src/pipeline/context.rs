//! Transform context options.

use vstd::prelude::*;

use crate::icc::header::RenderingIntent as IccRenderingIntent;

verus! {

/// Rendering intent for color conversion
#[derive(Debug, Clone, Copy, PartialEq, Eq, Default)]
pub enum RenderIntent {
    /// Perceptual - best for photos, maintains relative appearance
    #[default]
    Perceptual,
    /// Relative colorimetric - preserves in-gamut colors exactly
    RelativeColorimetric,
    /// Saturation - maintains saturation, good for business graphics
    Saturation,
    /// Absolute colorimetric - preserves white point
    AbsoluteColorimetric,
}

/// The ICC value of each intent.
pub open spec fn intent_icc_value(i: RenderIntent) -> u32 {
    match i {
        RenderIntent::Perceptual => 0,
        RenderIntent::RelativeColorimetric => 1,
        RenderIntent::Saturation => 2,
        RenderIntent::AbsoluteColorimetric => 3,
    }
}

/// The intent of an ICC value; values above 3 are read as perceptual.
pub open spec fn intent_from_icc_value(v: u32) -> RenderIntent {
    if v == 1 {
        RenderIntent::RelativeColorimetric
    } else if v == 2 {
        RenderIntent::Saturation
    } else if v == 3 {
        RenderIntent::AbsoluteColorimetric
    } else {
        RenderIntent::Perceptual
    }
}

impl RenderIntent {
    /// Convert from ICC rendering intent value (values above 3 give perceptual)
    pub fn from_icc(value: u32) -> (r: Self)
        ensures
            r == intent_from_icc_value(value),
    {
        match value {
            0 => RenderIntent::Perceptual,
            1 => RenderIntent::RelativeColorimetric,
            2 => RenderIntent::Saturation,
            3 => RenderIntent::AbsoluteColorimetric,
            _ => RenderIntent::Perceptual,
        }
    }

    /// Convert to ICC rendering intent value
    pub fn to_icc(&self) -> (r: u32)
        ensures
            r == intent_icc_value(*self),
    {
        match self {
            RenderIntent::Perceptual => 0,
            RenderIntent::RelativeColorimetric => 1,
            RenderIntent::Saturation => 2,
            RenderIntent::AbsoluteColorimetric => 3,
        }
    }
}

/// Transform flags for additional options
#[derive(Debug, Clone, Copy)]
pub struct TransformFlags {
    /// Use black point compensation
    pub black_point_compensation: bool,
    /// Clamp output to valid range
    pub clamp_output: bool,
    /// Enable soft proofing (preview)
    pub soft_proof: bool,
    /// Gamut check mode
    pub gamut_check: bool,
    /// Use high precision (f64 vs f32)
    pub high_precision: bool,
}

impl Default for TransformFlags {
    /// All flags off.
    fn default() -> (r: Self)
        ensures
            !r.black_point_compensation && !r.clamp_output && !r.soft_proof && !r.gamut_check
                && !r.high_precision,
    {
        TransformFlags {
            black_point_compensation: false,
            clamp_output: false,
            soft_proof: false,
            gamut_check: false,
            high_precision: false,
        }
    }
}

impl TransformFlags {
    /// Create default flags (clamping enabled, everything else off)
    pub fn new() -> (r: Self)
        ensures
            r.clamp_output && !r.black_point_compensation && !r.soft_proof && !r.gamut_check
                && !r.high_precision,
    {
        TransformFlags {
            black_point_compensation: false,
            clamp_output: true,
            soft_proof: false,
            gamut_check: false,
            high_precision: false,
        }
    }

    /// Enable black point compensation
    pub fn with_bpc(self) -> (r: Self)
        ensures
            r == (TransformFlags { black_point_compensation: true, ..self }),
    {
        let mut s = self;
        s.black_point_compensation = true;
        s
    }

    /// Enable soft proofing
    pub fn with_soft_proof(self) -> (r: Self)
        ensures
            r == (TransformFlags { soft_proof: true, ..self }),
    {
        let mut s = self;
        s.soft_proof = true;
        s
    }
}

/// Every intent is read back from its own ICC value.
pub proof fn render_intent_icc_roundtrip(i: RenderIntent)
    ensures
        intent_from_icc_value(intent_icc_value(i)) == i,
{
}

/// The header rendering intent of each intent (the same four intents).
pub open spec fn icc_intent_of(i: RenderIntent) -> IccRenderingIntent {
    match i {
        RenderIntent::Perceptual => IccRenderingIntent::Perceptual,
        RenderIntent::RelativeColorimetric => IccRenderingIntent::RelativeColorimetric,
        RenderIntent::Saturation => IccRenderingIntent::Saturation,
        RenderIntent::AbsoluteColorimetric => IccRenderingIntent::AbsoluteColorimetric,
    }
}

impl RenderIntent {
    /// The same intent as the profile header names it, which selects a profile's LUT tags.
    pub fn icc_intent(&self) -> (r: IccRenderingIntent)
        ensures
            r == icc_intent_of(*self),
    {
        match self {
            RenderIntent::Perceptual => IccRenderingIntent::Perceptual,
            RenderIntent::RelativeColorimetric => IccRenderingIntent::RelativeColorimetric,
            RenderIntent::Saturation => IccRenderingIntent::Saturation,
            RenderIntent::AbsoluteColorimetric => IccRenderingIntent::AbsoluteColorimetric,
        }
    }
}

/// Header intents and these intents correspond one to one, with the same ICC values.
pub proof fn icc_intent_keeps_the_value(i: RenderIntent)
    ensures
        crate::icc::header::rendering_intent_value(icc_intent_of(i)) == intent_icc_value(i),
{
}

} // verus!
