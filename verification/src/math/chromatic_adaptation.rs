//! Chromatic adaptation methods.

use vstd::prelude::*;

verus! {

/// Chromatic adaptation method
#[derive(Debug, Clone, Copy, PartialEq, Eq, Default)]
pub enum ChromaticAdaptationMethod {
    /// Bradford adaptation (ICC default, recommended)
    #[default]
    Bradford,
    /// Von Kries adaptation
    VonKries,
    /// XYZ Scaling (simple but less accurate)
    XyzScaling,
    /// No adaptation (identity)
    NoAdaptation,
}

} // verus!
