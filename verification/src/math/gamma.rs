//! ICC parametric curve kinds (ICC.1:2022 section 10.18).

use vstd::prelude::*;

verus! {

/// ICC Parametric Curve Type
#[derive(Debug, Clone, Copy, PartialEq, Eq)]
pub enum ParametricCurveType {
    /// Type 0: Y = X^g
    Gamma,
    /// Type 1: Y = (aX + b)^g  if X >= -b/a, else 0
    CIE122,
    /// Type 2: Y = (aX + b)^g + c  if X >= -b/a, else c
    IEC61966_3,
    /// Type 3: Y = (aX + b)^g  if X >= d, else cX (sRGB-like)
    IEC61966_2_1,
    /// Type 4: Y = (aX + b)^g + e  if X >= d, else cX + f
    Full,
}

/// The curve type of an ICC function-type number, if it is one of 0 to 4.
pub open spec fn parametric_curve_type_of(v: u16) -> Option<ParametricCurveType> {
    if v == 0 {
        Some(ParametricCurveType::Gamma)
    } else if v == 1 {
        Some(ParametricCurveType::CIE122)
    } else if v == 2 {
        Some(ParametricCurveType::IEC61966_3)
    } else if v == 3 {
        Some(ParametricCurveType::IEC61966_2_1)
    } else if v == 4 {
        Some(ParametricCurveType::Full)
    } else {
        None
    }
}

/// The number of parameters each curve type uses.
pub open spec fn parametric_param_count(t: ParametricCurveType) -> nat {
    match t {
        ParametricCurveType::Gamma => 1,
        ParametricCurveType::CIE122 => 3,
        ParametricCurveType::IEC61966_3 => 4,
        ParametricCurveType::IEC61966_2_1 => 5,
        ParametricCurveType::Full => 7,
    }
}

impl ParametricCurveType {
    /// The curve type of an ICC function-type number; `None` above 4.
    pub fn from_icc(function_type: u16) -> (r: Option<Self>)
        ensures
            r == parametric_curve_type_of(function_type),
    {
        match function_type {
            0 => Some(ParametricCurveType::Gamma),
            1 => Some(ParametricCurveType::CIE122),
            2 => Some(ParametricCurveType::IEC61966_3),
            3 => Some(ParametricCurveType::IEC61966_2_1),
            4 => Some(ParametricCurveType::Full),
            _ => None,
        }
    }

    /// The number of parameters this curve type uses.
    pub fn param_count(&self) -> (r: usize)
        ensures
            r == parametric_param_count(*self),
    {
        match self {
            ParametricCurveType::Gamma => 1,
            ParametricCurveType::CIE122 => 3,
            ParametricCurveType::IEC61966_3 => 4,
            ParametricCurveType::IEC61966_2_1 => 5,
            ParametricCurveType::Full => 7,
        }
    }
}

} // verus!
