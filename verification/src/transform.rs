//! Configuration of colour transforms: pixel layouts, rendering intents,
//! options, and the sample depth a transform was built for.

use vstd::prelude::*;

use crate::error::Error;

verus! {

/// Rendering intent for color transformations
#[derive(Debug, Clone, Copy, PartialEq, Eq, Structural)]
pub enum RenderingIntent {
    /// Perceptual rendering intent - best for photographic images
    Perceptual,
    /// Relative colorimetric - preserves in-gamut colors, clips out-of-gamut
    RelativeColorimetric,
    /// Saturation - maintains saturation, may shift hue
    Saturation,
    /// Absolute colorimetric - preserves white point
    AbsoluteColorimetric,
}

impl Default for RenderingIntent {
    fn default() -> (r: Self)
        ensures
            r == RenderingIntent::Perceptual,
    {
        RenderingIntent::Perceptual
    }
}

/// Pixel layout for transforms
#[derive(Debug, Clone, Copy, PartialEq, Eq, Structural)]
pub enum Layout {
    /// RGB, 3 channels
    Rgb,
    /// RGBA, 4 channels (alpha preserved)
    Rgba,
    /// Grayscale, 1 channel
    Gray,
    /// Grayscale + Alpha, 2 channels
    GrayAlpha,
}

/// The number of channels of a layout.
pub open spec fn layout_channels(l: Layout) -> nat {
    match l {
        Layout::Rgb => 3,
        Layout::Rgba => 4,
        Layout::Gray => 1,
        Layout::GrayAlpha => 2,
    }
}

/// Whether a layout carries an alpha channel.
pub open spec fn layout_has_alpha(l: Layout) -> bool {
    l is Rgba || l is GrayAlpha
}

impl Layout {
    /// Get number of channels for this layout
    pub fn channels(&self) -> (r: usize)
        ensures
            r == layout_channels(*self),
    {
        match self {
            Layout::Rgb => 3,
            Layout::Rgba => 4,
            Layout::Gray => 1,
            Layout::GrayAlpha => 2,
        }
    }

    /// Check if layout has alpha channel
    pub fn has_alpha(&self) -> (r: bool)
        ensures
            r == layout_has_alpha(*self),
    {
        matches!(self, Layout::Rgba | Layout::GrayAlpha)
    }
}

/// Options for transform creation
#[derive(Debug, Clone, Copy)]
pub struct TransformOptions {
    /// Rendering intent
    pub intent: RenderingIntent,
    /// Enable black point compensation (not yet implemented)
    pub black_point_compensation: bool,
    /// Use CICP transfer functions when available
    pub allow_use_cicp_transfer: bool,
    /// Prefer fixed-point math for performance
    pub prefer_fixed_point: bool,
}

impl Default for TransformOptions {
    fn default() -> (r: Self)
        ensures
            r.intent == RenderingIntent::Perceptual,
            !r.black_point_compensation,
            !r.allow_use_cicp_transfer,
            !r.prefer_fixed_point,
    {
        TransformOptions {
            intent: RenderingIntent::Perceptual,
            black_point_compensation: false,
            allow_use_cicp_transfer: false,
            prefer_fixed_point: false,
        }
    }
}

/// The sample type a transform was built for.
#[derive(Debug, Clone, Copy, PartialEq, Eq, Structural)]
pub enum SampleDepth {
    /// 8-bit integer samples
    U8,
    /// 16-bit integer samples
    U16,
    /// 32-bit floating-point samples
    F32,
}

/// The message of the error for pixel data of the wrong sample type.
pub open spec fn wrong_depth_message() -> Seq<char> {
    "Wrong bit depth for transform"@
}

/// Checks that pixel data of sample type `requested` can go through a transform
/// built for `built`.
///
/// A transform only accepts the sample type it was created for; any other is
/// refused with a transform error.
pub fn check_sample_depth(built: SampleDepth, requested: SampleDepth) -> (r: Result<(), Error>)
    ensures
        r is Ok <==> built == requested,
        r matches Err(e) ==> (e matches Error::Transform(m) && m@ == wrong_depth_message()),
{
    if built == requested {
        Ok(())
    } else {
        let m = String::from_str("Wrong bit depth for transform");
        proof {
            reveal_strlit("Wrong bit depth for transform");
        }
        Err(Error::Transform(m))
    }
}

/// A layout carries alpha exactly when it has an even number of channels: the alpha
/// channel comes on top of one grey or three colour channels.
pub proof fn alpha_layouts_have_even_channels(l: Layout)
    ensures
        layout_has_alpha(l) <==> layout_channels(l) % 2 == 0,
        1 <= layout_channels(l) <= 4,
{
}

} // verus!
