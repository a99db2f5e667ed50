//! The SIMD instruction sets a transform can use.

use vstd::prelude::*;

verus! {

/// The processor architecture a build targets.
#[derive(Debug, Clone, Copy, PartialEq, Eq)]
pub enum TargetArch {
    X86_64,
    Aarch64,
    Other,
}

/// The SIMD features detected on the running processor.
#[derive(Debug, Clone, Copy, PartialEq, Eq)]
pub struct CpuFeatures {
    pub arch: TargetArch,
    pub avx2: bool,
    pub sse41: bool,
}

/// The name of the best SIMD feature set available.
pub open spec fn feature_name(f: CpuFeatures) -> Seq<char> {
    match f.arch {
        TargetArch::X86_64 => if f.avx2 {
            "AVX2"@
        } else if f.sse41 {
            "SSE4.1"@
        } else {
            "scalar"@
        },
        TargetArch::Aarch64 => "NEON"@,
        TargetArch::Other => "scalar"@,
    }
}

/// A description of the active SIMD features: on x86-64 the best of AVX2 and SSE4.1, else
/// scalar; NEON on aarch64; scalar elsewhere.
pub fn active_features(features: CpuFeatures) -> (r: &'static str)
    ensures
        r@ == feature_name(features),
{
    match features.arch {
        TargetArch::X86_64 => {
            if features.avx2 {
                "AVX2"
            } else if features.sse41 {
                "SSE4.1"
            } else {
                "scalar"
            }
        },
        TargetArch::Aarch64 => "NEON",
        TargetArch::Other => "scalar",
    }
}

} // verus!
