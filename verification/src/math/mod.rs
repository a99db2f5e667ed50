//! Mathematical vocabulary of colour management that is exact: parametric curve kinds and
//! chromatic adaptation methods.

pub mod chromatic_adaptation;
pub mod gamma;

pub use chromatic_adaptation::ChromaticAdaptationMethod;
pub use gamma::ParametricCurveType;
